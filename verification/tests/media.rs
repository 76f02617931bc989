use sk_music::media::{
    apply_now_playing, apply_playback_state, control, is_active, is_playing, nonempty,
    notify_track_change, on_event, playback, slept, snapshot_value, store_playback, MenuSlot,
    NowPlaying, Playback, PlaybackState, QueueEntry, Snapshot, Sync, Transport, TransportEvent,
};
use sk_music::script::{cold_start_script, literal_or_empty};

fn track(title: &str) -> NowPlaying {
    NowPlaying {
        title: Some(title.to_string()),
        artist: Some(" Artist ".to_string()),
        album: Some("  ".to_string()),
        art_url: None,
        duration_ms: Some(213000),
        position_ms: Some(0),
        playing: None,
        stopped: None,
        video_id: Some("dQw4w9WgXcQ".to_string()),
        queue_base: Some(4),
        queue: Some(vec![QueueEntry { title: Some("Next".to_string()), artist: None }]),
    }
}

fn tick(playing: Option<bool>, position_ms: Option<u64>, stopped: Option<bool>) -> PlaybackState {
    PlaybackState { playing, position_ms, stopped, repeat: None }
}

#[test]
fn blank_texts_are_unset() {
    assert_eq!(nonempty(&Some(" a ".to_string())), Some("a"));
    assert_eq!(nonempty(&Some(" \t".to_string())), None);
    assert_eq!(nonempty(&None), None);
}

#[test]
fn session_state() {
    assert_eq!(playback(None, None, Some(5)), Playback::Playing { progress: Some(5) });
    assert_eq!(playback(Some(false), None, None), Playback::Paused { progress: None });
    assert_eq!(playback(Some(true), Some(true), Some(5)), Playback::Stopped);
    assert!(is_active(None, None));
    assert!(!is_active(Some(false), None));
    assert!(!is_active(Some(true), Some(true)));
    assert!(is_active(Some(true), Some(false)));
}

#[test]
fn track_change_is_applied() {
    let mut s = Snapshot::new();
    let mut last: Option<String> = None;
    assert!(!is_playing(&s));
    let u = apply_now_playing(&mut s, &mut last, track(" Song "), true, Some(false));
    assert!(u.playing && is_playing(&s));
    let toast = u.toast.unwrap();
    assert_eq!(toast.title, "♪ Song");
    assert_eq!(toast.body, "Artist");
    assert_eq!(last.as_deref(), Some("Song"));
    assert_eq!(u.metadata.title.as_deref(), Some("Song"));
    assert_eq!(u.metadata.artist.as_deref(), Some("Artist"));
    assert_eq!(u.metadata.album, None);
    assert_eq!(u.metadata.cover_url, None);
    assert_eq!(u.metadata.duration_ms, Some(213000));
    assert_eq!(u.playback, Playback::Playing { progress: Some(0) });
    assert_eq!(u.queue_base, Some(4));
    assert_eq!(u.queue.unwrap()[0].title.as_deref(), Some("Next"));
    // The same title again is not announced.
    let u = apply_now_playing(&mut s, &mut last, track("Song"), true, Some(false));
    assert!(u.toast.is_none());
}

#[test]
fn mini_player_opens_mid_song() {
    let mut s = Snapshot::new();
    assert!(matches!(
        snapshot_value(&s),
        Sync::Empty { playing: false, position_ms: None }
    ));
    let mut last: Option<String> = None;
    apply_now_playing(&mut s, &mut last, track("Song"), false, None);
    apply_playback_state(&mut s, &tick(Some(true), Some(91000), None));
    let u = apply_playback_state(&mut s, &tick(Some(false), None, None));
    assert!(!u.playing);
    assert_eq!(u.playback, Playback::Paused { progress: None });
    match snapshot_value(&s) {
        Sync::Track(t) => {
            assert_eq!(t.title.as_deref(), Some("Song"));
            assert_eq!(t.playing, Some(false));
            assert_eq!(t.position_ms, Some(91000));
            assert_eq!(t.queue_base, Some(4));
            assert_eq!(t.queue.unwrap().len(), 1);
        }
        _ => panic!("no track"),
    }
}

#[test]
fn tick_before_any_track() {
    let mut s = Snapshot::new();
    store_playback(&mut s, true, Some(7));
    store_playback(&mut s, true, None);
    assert!(matches!(
        snapshot_value(&s),
        Sync::Empty { playing: true, position_ms: Some(7) }
    ));
}

#[test]
fn toast_only_while_hidden() {
    let shown = |last: Option<&str>, title: Option<&str>, on: bool, visible: Option<bool>| {
        let mut l = last.map(|s| s.to_string());
        let t = notify_track_change(&mut l, title, None, on, visible);
        assert_eq!(l.as_deref(), title);
        t.map(|t| (t.title, t.body))
    };
    let want = Some(("♪ b".to_string(), String::new()));
    assert_eq!(shown(Some("a"), Some("b"), true, Some(false)), want);
    assert_eq!(shown(None, Some("b"), true, None), want);
    assert_eq!(shown(Some("b"), Some("b"), true, Some(false)), None);
    assert_eq!(shown(Some("a"), Some("b"), false, Some(false)), None);
    assert_eq!(shown(Some("a"), Some("b"), true, Some(true)), None);
    assert_eq!(shown(Some("a"), None, true, Some(false)), None);
}

fn forwarded(event: TransportEvent<String>) -> String {
    match on_event(event) {
        Transport::Forward(a) => a,
        _ => panic!("not forwarded"),
    }
}

#[test]
fn transport_commands() {
    assert_eq!(forwarded(TransportEvent::Play), "play");
    assert_eq!(forwarded(TransportEvent::Pause), "pause");
    assert_eq!(forwarded(TransportEvent::Toggle), "toggle");
    assert_eq!(forwarded(TransportEvent::Next), "next");
    assert_eq!(forwarded(TransportEvent::Previous), "previous");
    assert_eq!(forwarded(TransportEvent::Stop), "stop");
    assert_eq!(forwarded(TransportEvent::SeekForward), "seekforward");
    assert_eq!(forwarded(TransportEvent::SeekBackward), "seekback");
    assert_eq!(forwarded(TransportEvent::SeekBy { forward: true, ms: 1500 }), "seekby:1500");
    assert_eq!(forwarded(TransportEvent::SeekBy { forward: false, ms: 0 }), "seekby:-0");
    assert_eq!(forwarded(TransportEvent::SetPosition { ms: 91000 }), "setposition:91000");
    assert_eq!(
        forwarded(TransportEvent::SetVolume { volume: "0.5".to_string() }),
        "setvolume:0.5"
    );
    assert!(matches!(on_event(TransportEvent::Raise), Transport::FocusMain));
    assert!(matches!(on_event(TransportEvent::Quit), Transport::Ignore));
    assert!(matches!(on_event(TransportEvent::OpenUri), Transport::Ignore));
}

#[test]
fn relayed_action() {
    assert_eq!(
        control("toggle"),
        "(function(a){try{if(typeof window.__skMediaControl==='function'){window.__skMediaControl(a);}}catch(e){}try{window.dispatchEvent(new CustomEvent('sk-media-control',{detail:{action:a}}));}catch(e){}})(\"toggle\");"
    );
    assert_eq!(
        cold_start_script("next"),
        "(function(a){if(window.__skColdControlDone)return;if(typeof window.__skMediaControl!=='function')return;window.__skColdControlDone=true;try{window.__skMediaControl(a);}catch(e){}try{window.dispatchEvent(new CustomEvent('sk-media-control',{detail:{action:a}}));}catch(e){}})(\"next\");"
    );
}

#[test]
fn action_stays_in_its_literal() {
    let js = control("\"\\\n\r\t\u{8}\u{c}\u{1}\u{1f}é");
    assert!(js.ends_with("})(\"\\\"\\\\\\n\\r\\t\\b\\f\\u0001\\u001fé\");"));
    assert!(!js.contains('\n'));
    assert_eq!(literal_or_empty(None), "\"\"");
    assert_eq!(literal_or_empty(Some("\"x\"".to_string())), "\"x\"");
}

#[test]
fn sleep_is_a_jump_of_the_wall_clock() {
    let second: u128 = 1_000_000_000;
    assert!(!slept(30 * second, Some(30 * second)));
    assert!(!slept(30 * second, Some(120 * second)));
    assert!(slept(30 * second, Some(120 * second + 1)));
    assert!(!slept(30 * second, None));
}

#[test]
fn one_menu_at_a_time() {
    let mut g = MenuSlot::new();
    assert!(g.enter());
    assert!(!g.enter());
    g.leave();
    assert!(g.enter());
}
