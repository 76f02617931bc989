use sk_music::download::index::{
    done_item, list_items, load_index, to_item, upsert_index, Entry, Index, Item,
};
use sk_music::download::requests::{
    delete, deliver, extractor_target, failure_reason, on_request, Report,
};
use sk_music::download::job::{Action, Extracted, Job};
use sk_music::download::serve::{
    answer, content_range_total, locate, parse_range, plan, plan_opened, range_header, refuse,
    refused_status, sent, Lookup, Refusal, Reply,
};
use sk_music::download::{
    default_mime, ext_for, file_name, now_ms, part_name, pick, src_url, valid_id,
};
use sk_music::table::Table;

const ID: &str = "dQw4w9WgXcQ";

fn entry(id: &str, added: u64) -> Entry<String> {
    Entry {
        video_id: id.to_string(),
        title: "Title".to_string(),
        artist: "Artist".to_string(),
        ext: "m4a".to_string(),
        mime: "audio/mp4".to_string(),
        bytes: 10,
        added,
    }
}

#[test]
fn ids_have_eleven_plain_characters() {
    assert!(valid_id(ID));
    assert!(valid_id("___________"));
    assert!(valid_id("-0aZ9------"));
    assert!(!valid_id(""));
    assert!(!valid_id("dQw4w9WgXc"));
    assert!(!valid_id("dQw4w9WgXcQQ"));
    assert!(!valid_id("dQw4w9WgX.Q"));
    assert!(!valid_id("../../../ab"));
    assert!(!valid_id("éééééé"));
    assert!(!valid_id("ééééé1"));
}

#[test]
fn extension_follows_mime_and_itag() {
    assert_eq!(ext_for("audio/mp4; codecs=mp4a", 0), "m4a");
    assert_eq!(ext_for("", 140), "m4a");
    assert_eq!(ext_for("", 139), "m4a");
    assert_eq!(ext_for("audio/webm", 141), "m4a");
    assert_eq!(ext_for("audio/webm", 0), "weba");
    assert_eq!(ext_for("", 251), "weba");
    assert_eq!(ext_for("video/mp4", 249), "weba");
    assert_eq!(ext_for("video/mp4", 0), "mp4");
    assert_eq!(ext_for("", 18), "mp4");
    assert_eq!(ext_for("", 22), "mp4");
    assert_eq!(ext_for("text/html", 1), "m4a");
}

#[test]
fn mime_follows_extension() {
    assert_eq!(default_mime("weba"), "audio/webm");
    assert_eq!(default_mime("mp4"), "video/mp4");
    assert_eq!(default_mime("m4a"), "audio/mp4");
    assert_eq!(default_mime("x"), "audio/mp4");
}

#[test]
fn first_text_that_is_not_blank() {
    assert_eq!(pick(" a ", "b", "c"), "a");
    assert_eq!(pick("  ", "\tb", "c"), "b");
    assert_eq!(pick("", "", " c "), "c");
    assert_eq!(pick("", "", " "), "");
}

#[test]
fn names_and_addresses() {
    assert_eq!(file_name(ID, "m4a"), "dQw4w9WgXcQ.m4a");
    assert_eq!(part_name(ID, "m4a"), "dQw4w9WgXcQ.m4a.part");
    assert_eq!(src_url(ID, true), "http://skdl.localhost/dQw4w9WgXcQ");
    assert_eq!(src_url(ID, false), "skdl://localhost/dQw4w9WgXcQ");
    assert_eq!(
        extractor_target(ID).unwrap().text,
        "https://www.youtube.com/watch?v=dQw4w9WgXcQ"
    );
}

#[test]
fn clock_in_milliseconds() {
    assert_eq!(now_ms(None), 0);
    assert_eq!(now_ms(Some(1_700_000_000_123)), 1_700_000_000_123);
    assert_eq!(now_ms(Some(u64::MAX as u128 + 6)), 5);
}

#[test]
fn ranges() {
    assert_eq!(parse_range("bytes=0-99", 1000), Some((0, 99)));
    assert_eq!(parse_range("bytes=500-", 1000), Some((500, 999)));
    assert_eq!(parse_range("bytes=-100", 1000), Some((900, 999)));
    assert_eq!(parse_range("bytes=-5000", 1000), Some((0, 999)));
    assert_eq!(parse_range("bytes=900-5000", 1000), Some((900, 999)));
    assert_eq!(parse_range("bytes= 1 - 2 ", 1000), Some((1, 2)));
    assert_eq!(parse_range("bytes=1000-", 1000), None);
    assert_eq!(parse_range("bytes=5-4", 1000), None);
    assert_eq!(parse_range("bytes=0-0", 0), None);
    assert_eq!(parse_range("bytes=5", 1000), None);
    assert_eq!(parse_range("items=0-1", 1000), None);
    assert_eq!(parse_range("bytes=a-b", 1000), None);
    assert_eq!(parse_range("bytes=-", 1000), None);
    assert_eq!(parse_range("bytes=0-1,2-3", 1000), None);
    assert_eq!(parse_range("bytes=-0", 1000), Some((1000, 999)));
}

#[test]
fn range_requests_are_read_back() {
    assert_eq!(range_header(0, 1048575), "bytes=0-1048575");
    assert_eq!(parse_range(&range_header(3, 7), 10), Some((3, 7)));
    assert_eq!(content_range_total("bytes 0-1048575/3500000"), Some(3500000));
    assert_eq!(content_range_total("bytes 0-1/ 12 "), Some(12));
    assert_eq!(content_range_total("bytes 0-1/*"), None);
    assert_eq!(content_range_total(""), None);
}

#[test]
fn songs_are_located() {
    let mut index = Index::new();
    upsert_index(&mut index, entry(ID, 1));
    for path in ["/dQw4w9WgXcQ", "dQw4w9WgXcQ", "//dQw4w9WgXcQ.m4a"] {
        match locate(path, &index) {
            Lookup::File { name, mime } => {
                assert_eq!(name, "dQw4w9WgXcQ.m4a");
                assert_eq!(mime, "audio/mp4");
            }
            _ => panic!("not located"),
        }
    }
    assert!(matches!(locate("/xxxxxxxxxxx", &index), Lookup::Refused(Refusal::NotFiled)));
    assert!(matches!(locate("/../index.json", &index), Lookup::Refused(Refusal::BadRequest)));
}

fn header(headers: &Vec<(String, String)>, name: &str) -> Option<String> {
    headers.iter().find(|h| h.0 == name).map(|h| h.1.clone())
}

#[test]
fn whole_song_is_answered() {
    let p = plan("audio/mp4", 1000, None);
    assert_eq!((p.status, p.start, p.end, p.count), (200, 0, 999, 1000));
    assert_eq!(header(&p.headers, "content-type").as_deref(), Some("audio/mp4"));
    assert_eq!(header(&p.headers, "accept-ranges").as_deref(), Some("bytes"));
    assert_eq!(header(&p.headers, "content-length").as_deref(), Some("1000"));
    assert_eq!(header(&p.headers, "cache-control").as_deref(), Some("no-store"));
    assert_eq!(header(&p.headers, "access-control-allow-origin").as_deref(), Some("*"));
    assert_eq!(header(&p.headers, "content-range"), None);
    let bad = plan("audio/mp4", 1000, Some("bytes=5-4"));
    assert_eq!((bad.status, bad.start, bad.end), (200, 0, 999));
}

#[test]
fn part_of_a_song_is_answered() {
    let p = plan("audio/webm", 1000, Some("bytes=10-19"));
    assert_eq!((p.status, p.start, p.end, p.count), (206, 10, 19, 10));
    assert_eq!(header(&p.headers, "content-range").as_deref(), Some("bytes 10-19/1000"));
    assert_eq!(content_range_total("bytes 10-19/1000"), Some(1000));
}

#[test]
fn empty_file_asks_for_one_byte() {
    let p = plan("audio/mp4", 0, None);
    assert_eq!((p.status, p.start, p.end, p.count), (200, 0, 0, 1));
}

#[test]
fn index_is_read_back() {
    let mut index = Index::new();
    upsert_index(&mut index, entry("aaaaaaaaaaa", 1));
    upsert_index(&mut index, entry("bbbbbbbbbbb", 2));
    upsert_index(&mut index, entry("aaaaaaaaaaa", 3));
    assert_eq!(index.rows().len(), 2);
    let rows: Vec<(String, Entry<String>)> = index
        .rows()
        .iter()
        .map(|r| (r.0.clone(), entry(&r.1.video_id, r.1.added)))
        .collect();
    let again = load_index(Some(rows));
    assert_eq!(again.get("aaaaaaaaaaa").unwrap().added, 3);
    assert_eq!(again.get("bbbbbbbbbbb").unwrap().added, 2);
    assert!(load_index(None).rows().is_empty());
}

#[test]
fn newest_song_is_listed_first() {
    let mut index = Index::new();
    upsert_index(&mut index, entry("aaaaaaaaaaa", 5));
    upsert_index(&mut index, entry("bbbbbbbbbbb", 9));
    upsert_index(&mut index, entry("ccccccccccc", 7));
    let items: Vec<Item<String>> = list_items(&index, false);
    let ids: Vec<&str> = items.iter().map(|i| i.entry.video_id.as_str()).collect();
    assert_eq!(ids, vec!["bbbbbbbbbbb", "ccccccccccc", "aaaaaaaaaaa"]);
    assert_eq!(items[0].src, "skdl://localhost/bbbbbbbbbbb");
    assert_eq!(
        to_item(&entry("aaaaaaaaaaa", 5), true).src,
        "http://skdl.localhost/aaaaaaaaaaa"
    );
    assert_eq!(done_item(&index, "ccccccccccc", true).unwrap().entry.added, 7);
    assert!(done_item(&index, "ddddddddddd", true).is_none());
}

#[test]
fn songs_are_deleted() {
    let mut index = Index::new();
    upsert_index(&mut index, entry(ID, 1));
    let bad = delete(&mut index, "../..");
    assert!(bad.file.is_none() && !bad.list);
    let missing = delete(&mut index, "aaaaaaaaaaa");
    assert!(missing.file.is_none() && missing.list);
    let done = delete(&mut index, ID);
    assert_eq!(done.file.as_deref(), Some("dQw4w9WgXcQ.m4a"));
    assert!(done.list);
    assert!(!index.contains_key(ID));
}

#[test]
fn requests_need_an_id() {
    let job = |id: &str| Job {
        video_id: id.to_string(),
        title: "t".to_string(),
        artist: "a".to_string(),
    };
    assert_eq!(on_request(job(ID)).ok().unwrap().video_id, ID);
    match on_request(job("nope")) {
        Err(Action::Error { id, message }) => {
            assert_eq!(id, "nope");
            assert_eq!(message, "invalid video id");
        }
        _ => panic!("taken"),
    }
}

#[test]
fn reports_reach_the_one_who_waits() {
    let mut waiting: Table<u8> = Table::new();
    waiting.insert(ID.to_string(), 7);
    let found = Extracted {
        video_id: ID.to_string(),
        url: "u".to_string(),
        mime: String::new(),
        itag: 0,
        content_length: None,
        title: String::new(),
        author: String::new(),
    };
    let (who, what) = deliver(&mut waiting, Report::Found(found)).unwrap();
    assert_eq!(who, 7);
    assert_eq!(what.ok().unwrap().url, "u");
    let failed = || Report::Failed { video_id: ID.to_string(), reason: String::new() };
    assert!(deliver(&mut waiting, failed()).is_none());
    waiting.insert(ID.to_string(), 8);
    let (who, what) = deliver(&mut waiting, failed()).unwrap();
    assert_eq!(who, 8);
    assert_eq!(what.err().unwrap(), "extraction failed");
    assert_eq!(failure_reason("no audio".to_string()), "no audio");
}

#[test]
fn refusals_have_a_status_and_no_body() {
    let want = [
        (Refusal::BadRequest, 400),
        (Refusal::NotFiled, 404),
        (Refusal::NotOpened, 404),
        (Refusal::NotRead, 500),
        (Refusal::NotSendable, 500),
    ];
    for (why, status) in want {
        assert_eq!(refused_status(why), status);
        let r = refuse(why);
        assert_eq!(r.status, status);
        assert!(r.headers.is_empty() && r.body.is_empty());
    }
}

#[test]
fn songs_are_answered_or_refused() {
    assert_eq!(plan_opened("audio/mp4", None, None).err(), Some(Refusal::NotOpened));
    let p = plan_opened("audio/mp4", Some(10), Some("bytes=2-4")).ok().unwrap();
    assert_eq!((p.start, p.count), (2, 3));
    let r = answer(p, Some(vec![7, 8, 9]));
    assert_eq!((r.status, r.body), (206, vec![7, 8, 9]));
    assert_eq!(header(&r.headers, "content-range").as_deref(), Some("bytes 2-4/10"));
    // An empty file has no byte to read.
    let p = plan_opened("audio/mp4", Some(0), Some("bytes=0-")).ok().unwrap();
    assert!(p.start + p.count > 0);
    let r = answer(p, None);
    assert_eq!(r.status, 500);
    assert!(r.headers.is_empty() && r.body.is_empty());
}

#[test]
fn every_song_is_listed_once() {
    let mut index = Index::new();
    for id in ["aaaaaaaaaaa", "bbbbbbbbbbb", "ccccccccccc", "bbbbbbbbbbb"] {
        upsert_index(&mut index, entry(id, 4));
    }
    let mut ids: Vec<String> =
        list_items(&index, true).into_iter().map(|i| i.entry.video_id).collect();
    ids.sort();
    assert_eq!(ids, vec!["aaaaaaaaaaa", "bbbbbbbbbbb", "ccccccccccc"]);
}

#[test]
fn content_types_that_cannot_be_sent() {
    for mime in ["a\nb", "\r", "a\u{0}", "x\u{7f}", "\u{1f}"] {
        let r = answer(plan(mime, 1, None), Some(vec![7]));
        assert_eq!(r.status, 500, "{:?}", mime);
        assert!(r.headers.is_empty() && r.body.is_empty());
    }
    for mime in ["", "audio/mp4; codecs=\"mp4a\"", "a\tb", "é♪", "~ \u{80}"] {
        let r = answer(plan(mime, 3, Some("bytes=1-1")), Some(vec![7]));
        assert_eq!((r.status, r.body), (206, vec![7]), "{:?}", mime);
    }
    let reply = || Reply { status: 200, headers: vec![], body: vec![7] };
    assert_eq!(sent(reply(), true).body, vec![7]);
    assert_eq!(sent(reply(), false).status, 500);
    assert!(sent(reply(), false).body.is_empty());
}

#[test]
fn headers_are_accepted_by_a_response() {
    let r = answer(plan("é♪", 9, Some("bytes=0-4")), Some(vec![0; 5]));
    let mut builder = http::Response::builder().status(r.status);
    for (name, value) in r.headers {
        builder = builder.header(name, value);
    }
    let response = builder.body(r.body).unwrap();
    assert_eq!(response.status().as_u16(), 206);
    assert_eq!(response.headers().len(), 6);
    assert_eq!(response.headers()["content-range"], "bytes 0-4/9");
}
