use sk_music::download::index::Entry;
use sk_music::download::job::{
    begin, fits, phase, refusal, step, Action, Event, Extracted, Job, Stage, State, CHUNK,
};

const ID: &str = "dQw4w9WgXcQ";

fn job() -> Job<String> {
    Job { video_id: ID.to_string(), title: " Song ".to_string(), artist: String::new() }
}

fn found(content_length: Option<u64>) -> Event<String> {
    Event::Extracted(Extracted {
        video_id: ID.to_string(),
        url: "https://media.example.com/v".to_string(),
        mime: String::new(),
        itag: 251,
        content_length,
        title: "Reported".to_string(),
        author: "Author".to_string(),
    })
}

fn advance(state: State<String>, event: Event<String>) -> (State<String>, Vec<Action<String>>) {
    assert!(fits(&state, &event));
    step(state, event)
}

/// Takes a download to the point where the first range is asked for.
fn opened(content_length: Option<u64>) -> State<String> {
    let (s, _) = begin(job(), false);
    let (s, _) = advance(s, found(content_length));
    let (s, _) = advance(s, Event::Ready);
    let (s, actions) = advance(s, Event::Ready);
    match &actions[0] {
        Action::Request { url, range } => {
            assert_eq!(url, "https://media.example.com/v");
            assert_eq!(range, "bytes=0-1048575");
        }
        _ => panic!("no request"),
    }
    s
}

fn response(status: u16, content_range: Option<&str>) -> Event<String> {
    Event::Response { status, content_range: content_range.map(|s| s.to_string()) }
}

fn error_of(actions: &Vec<Action<String>>) -> String {
    match actions.last() {
        Some(Action::Error { id, message }) => {
            assert_eq!(id, ID);
            message.clone()
        }
        _ => panic!("no error"),
    }
}

fn removes_part(actions: &Vec<Action<String>>) -> bool {
    matches!(&actions[0], Action::RemovePart { part } if part == "dQw4w9WgXcQ.weba.part")
}

#[test]
fn known_song_is_only_reported() {
    let (s, actions) = begin(job(), true);
    assert!(matches!(s, State::Finished));
    assert_eq!(actions.len(), 2);
    assert!(matches!(&actions[0], Action::Done { id } if id == ID));
    assert!(matches!(actions[1], Action::List));
}

#[test]
fn new_song_is_extracted() {
    let (s, actions) = begin(job(), false);
    assert!(matches!(s, State::Extracting { .. }));
    assert!(matches!(
        &actions[0],
        Action::Progress { id, stage: Stage::Extracting, received: 0, total: None } if id == ID
    ));
    assert!(matches!(&actions[1], Action::Await { id } if id == ID));
    assert!(matches!(&actions[2], Action::OpenExtractor { id } if id == ID));
    assert_eq!(phase(Stage::Extracting), "extracting");
    assert_eq!(phase(Stage::Downloading), "downloading");
}

#[test]
fn extraction_may_fail() {
    let (s, _) = begin(job(), false);
    let (s, actions) = advance(s, Event::ExtractFailed("no format".to_string()));
    assert!(matches!(s, State::Finished));
    assert!(matches!(actions[0], Action::Forget { .. }));
    assert!(matches!(actions[1], Action::ParkExtractor));
    assert_eq!(error_of(&actions), "could not read the audio stream: no format");
    let (s, _) = begin(job(), false);
    let (_, actions) = advance(s, Event::TimedOut);
    assert_eq!(error_of(&actions), "timed out reading the audio stream");
}

#[test]
fn song_is_fetched_in_ranges_and_filed() {
    let mut s = opened(None);
    let sizes = [CHUNK, CHUNK, 5];
    let mut received: u64 = 0;
    for (i, n) in sizes.iter().enumerate() {
        let (t, actions) = advance(s, response(206, Some("bytes 0-1/2097157")));
        assert!(matches!(actions[0], Action::ReadBody));
        let (t, actions) = advance(t, Event::Body(*n));
        assert!(matches!(actions[0], Action::WriteBody));
        let (t, actions) = advance(t, Event::Ready);
        received += n;
        match &actions[0] {
            Action::Progress { stage: Stage::Downloading, received: r, total, .. } => {
                assert_eq!(*r, received);
                assert_eq!(*total, Some(2097157));
            }
            _ => panic!("no progress"),
        }
        if i < 2 {
            match &actions[1] {
                Action::Request { range, .. } => assert_eq!(
                    range,
                    &format!("bytes={}-{}", received, received + CHUNK - 1)
                ),
                _ => panic!("no request"),
            }
        } else {
            assert!(matches!(actions[1], Action::Flush));
        }
        s = t;
    }
    let (s, actions) = advance(s, Event::Ready);
    match &actions[0] {
        Action::Rename { part, file } => {
            assert_eq!(part, "dQw4w9WgXcQ.weba.part");
            assert_eq!(file, "dQw4w9WgXcQ.weba");
        }
        _ => panic!("no rename"),
    }
    let (s, actions) = advance(s, Event::Renamed(42));
    assert!(matches!(s, State::Finished));
    match &actions[0] {
        Action::Record { entry: Entry { video_id, title, artist, ext, mime, bytes, added } } => {
            assert_eq!(video_id, ID);
            assert_eq!(title, "Song");
            assert_eq!(artist, "Author");
            assert_eq!(ext, "weba");
            assert_eq!(mime, "audio/webm");
            assert_eq!(*bytes, 2097157);
            assert_eq!(*added, 42);
        }
        _ => panic!("not filed"),
    }
    assert!(matches!(actions[1], Action::Done { .. }));
    assert!(matches!(actions[2], Action::List));
}

#[test]
fn known_size_ends_the_transfer() {
    let (s, _) = advance(opened(Some(CHUNK)), response(206, Some("bytes 0-1/9999999")));
    let (s, _) = advance(s, Event::Body(CHUNK));
    let (_, actions) = advance(s, Event::Ready);
    assert!(matches!(actions[1], Action::Flush));
}

#[test]
fn whole_body_ends_the_transfer() {
    let (s, _) = advance(opened(None), response(200, None));
    let (s, _) = advance(s, Event::Body(3 * CHUNK));
    let (s, actions) = advance(s, Event::Ready);
    assert!(matches!(actions[1], Action::Flush));
    assert!(matches!(s, State::Flushing { .. }));
}

#[test]
fn refused_range_after_bytes_ends_the_transfer() {
    let (s, _) = advance(opened(None), response(206, None));
    let (s, _) = advance(s, Event::Body(CHUNK));
    let (s, _) = advance(s, Event::Ready);
    let (s, actions) = advance(s, response(416, None));
    assert!(matches!(s, State::Flushing { .. }));
    assert!(matches!(actions[0], Action::Flush));
}

#[test]
fn refusals_are_reported() {
    let (s, actions) = advance(opened(None), response(416, None));
    assert!(matches!(s, State::Finished));
    assert!(removes_part(&actions));
    assert_eq!(error_of(&actions), "download failed: HTTP 416 Range Not Satisfiable");
    let (_, actions) = advance(opened(None), response(404, None));
    assert_eq!(error_of(&actions), "download failed: HTTP 404 Not Found");
    let (_, actions) = advance(opened(None), response(799, None));
    assert_eq!(error_of(&actions), "download failed: HTTP 799 <unknown status code>");
    assert_eq!(refusal("403 Forbidden"), "download failed: HTTP 403 Forbidden");
}

#[test]
fn empty_song_is_not_filed() {
    let (s, _) = advance(opened(None), response(206, None));
    let (s, actions) = advance(s, Event::Body(0));
    assert!(matches!(actions[0], Action::Flush));
    let (s, actions) = advance(s, Event::Ready);
    assert!(matches!(s, State::Finished));
    assert!(removes_part(&actions));
    assert_eq!(error_of(&actions), "download produced an empty file");
}

#[test]
fn failures_are_reported() {
    let failed = || Event::Failed("disk full".to_string());
    let (s, _) = begin(job(), false);
    let (s, _) = advance(s, found(None));
    let (s, actions) = advance(s, failed());
    assert!(matches!(s, State::Finished));
    assert_eq!(actions.len(), 1);
    assert_eq!(error_of(&actions), "cannot create downloads folder: disk full");

    let (s, _) = begin(job(), false);
    let (s, _) = advance(s, found(None));
    let (s, _) = advance(s, Event::Ready);
    let (_, actions) = advance(s, failed());
    assert!(removes_part(&actions));
    assert_eq!(error_of(&actions), "download failed: disk full");

    let (_, actions) = advance(opened(None), failed());
    assert_eq!(error_of(&actions), "download failed: disk full");

    let (s, _) = advance(opened(None), response(206, None));
    let (_, actions) = advance(s, failed());
    assert_eq!(error_of(&actions), "download failed: disk full");

    let (s, _) = advance(opened(None), response(206, None));
    let (s, _) = advance(s, Event::Body(1));
    let (_, actions) = advance(s, failed());
    assert_eq!(error_of(&actions), "download failed: disk full");

    let (s, _) = advance(opened(None), response(206, None));
    let (s, _) = advance(s, Event::Body(1));
    let (s, _) = advance(s, Event::Ready);
    let (s, _) = advance(s, Event::Ready);
    let (_, actions) = advance(s, failed());
    assert!(removes_part(&actions));
    assert_eq!(error_of(&actions), "could not finalize file: disk full");
}

#[test]
fn unexpected_events_change_nothing() {
    let (s, actions) = advance(State::Finished, Event::Ready);
    assert!(matches!(s, State::Finished));
    assert!(actions.is_empty());
}

#[test]
fn steps_stay_within_limits() {
    let s = opened(None);
    assert!(!fits(&s, &response(99, None)));
    assert!(!fits(&s, &response(1000, None)));
    let (s, _) = advance(opened(None), response(206, None));
    let (s, _) = advance(s, Event::Body(u64::MAX));
    assert!(!fits(&s, &Event::Ready));
    // A step that completes the transfer asks for no further range, so it needs no room for one.
    let (s, _) = advance(opened(None), response(200, None));
    let (s, _) = advance(s, Event::Body(u64::MAX));
    let (s, _) = advance(s, Event::Ready);
    assert!(matches!(s, State::Flushing { .. }));
}
