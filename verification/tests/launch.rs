use sk_music::jumplist::{tasks, wide};
use sk_music::launch::{
    classify, control_argument, first_launch, second_launch, starts_minimized, Control, First,
    Second, COLD_START_PAUSE_MS, COLD_START_TRIES,
};
use sk_music::media::control;
use sk_music::script::cold_start_script;

fn args(a: &[&str]) -> Vec<String> {
    a.iter().map(|s| s.to_string()).collect()
}

#[test]
fn first_control_argument_counts() {
    let a = args(&["app", "--minimized", "--control=next", "--control=mini"]);
    assert_eq!(control_argument(&a).as_deref(), Some("next"));
    assert!(starts_minimized(&a));
    assert_eq!(control_argument(&args(&["app", "control=next"])), None);
    assert_eq!(control_argument(&args(&["--control="])).as_deref(), Some(""));
    assert!(!starts_minimized(&args(&["app", "--minimized=1"])));
    assert!(!starts_minimized(&args(&[])));
}

#[test]
fn launches_of_a_running_app() {
    let second = |a: &str| second_launch(&args(&["app", a]));
    assert!(matches!(second("--control=mini"), Second::ToggleMini));
    assert!(matches!(second("--control=updates"), Second::CheckUpdates));
    assert!(matches!(second("--control=other"), Second::Nothing));
    assert!(matches!(second("skmusic://song/abc"), Second::FocusMain));
    match second("--control=like") {
        Second::Relay(js) => assert_eq!(js, control("like")),
        _ => panic!("not relayed"),
    }
}

#[test]
fn first_launches() {
    let first = |a: &str| first_launch(&args(&["app", a]));
    assert!(matches!(first("--control=mini"), First::ToggleMini));
    assert!(matches!(first("--control=updates"), First::CheckUpdates));
    assert!(matches!(first("--control=other"), First::Nothing));
    assert!(matches!(first("--minimized"), First::Nothing));
    match first("--control=radio") {
        First::RelayWhenReady(js) => assert_eq!(js, cold_start_script("radio")),
        _ => panic!("not relayed"),
    }
    assert_eq!((COLD_START_TRIES, COLD_START_PAUSE_MS), (40, 500));
}

#[test]
fn every_task_is_carried_out() {
    let t = tasks();
    assert_eq!(t.len(), 7);
    assert_eq!(t[0].title, "Play / Pause");
    assert_eq!(t[6].argument, "--control=updates");
    for task in t.iter() {
        let a = args(&["app", task.argument]);
        assert_ne!(classify(&control_argument(&a).unwrap()), Control::Unknown);
        assert!(!matches!(first_launch(&a), First::Nothing));
        assert!(!matches!(second_launch(&a), Second::Nothing | Second::FocusMain));
    }
}

#[test]
fn wide_texts() {
    for s in ["", "a", "é—♪", "a\u{10000}b\u{10ffff}", "\u{ffff}\u{d7ff}\u{e000}"] {
        let mut want: Vec<u16> = s.encode_utf16().collect();
        want.push(0);
        assert_eq!(wide(s), want);
        assert_eq!(wide(s).iter().filter(|u| **u == 0).count(), 1);
    }
}
