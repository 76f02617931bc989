use sk_music::mini::saver::Saver;
use sk_music::mini::{
    ensure_on_screen, is_permitted, mini_control, monitor_count, placed, Action, MainEvent, Mini,
    LABEL,
};
use sk_music::settings::{
    auto_mini, get, mini_pos, notify_on_track, set_auto_mini, set_mini_pos, set_notify_on_track,
    Settings, Store,
};

#[test]
fn comes_up_on_one_monitor() {
    let mut m = Mini::new();
    let a = m.on_main_event(MainEvent::FocusLost, Some(1), true, true, Some(false));
    assert_eq!(a, vec![Action::EnsureOnScreen, Action::Show]);
    assert!(m.auto_shown);
    let a = m.on_main_event(MainEvent::FocusGained, Some(1), true, true, Some(true));
    assert_eq!(a, vec![Action::Hide]);
    assert!(!m.auto_shown);
}

#[test]
fn stays_away_on_two_monitors() {
    let mut m = Mini::new();
    let a = m.on_main_event(MainEvent::FocusLost, Some(2), true, true, Some(false));
    assert!(a.is_empty() && !m.auto_shown);
    let resized = MainEvent::Resized { minimized: Some(true) };
    let a = m.on_main_event(resized, Some(2), true, true, Some(false));
    assert_eq!(a, vec![Action::EnsureOnScreen, Action::Show]);
    let restored = MainEvent::Resized { minimized: Some(false) };
    assert_eq!(m.on_main_event(restored, Some(2), true, true, Some(true)), vec![Action::Hide]);
    let gone = MainEvent::Resized { minimized: None };
    assert!(m.on_main_event(gone, Some(2), true, true, Some(true)).is_empty());
    assert!(m.on_main_event(MainEvent::Other, Some(1), true, true, None).is_empty());
    assert_eq!(monitor_count(None), 1);
    assert_eq!(monitor_count(Some(3)), 3);
}

#[test]
fn comes_up_only_while_music_plays() {
    let mut m = Mini::new();
    assert!(m.auto_show(false, true, Some(false)).is_empty());
    assert!(m.auto_show(true, false, None).is_empty());
    assert!(m.auto_show(true, true, Some(true)).is_empty());
    assert!(!m.auto_shown);
    assert_eq!(m.auto_show(true, true, None), vec![Action::Create { focused: false }]);
    assert!(!m.auto_shown);
    m.auto_created(false);
    assert!(!m.auto_shown);
    m.auto_created(true);
    assert!(m.auto_shown);
    assert!(m.auto_hide(None).is_empty());
    assert!(!m.auto_shown);
}

#[test]
fn user_window_stays() {
    let mut m = Mini::new();
    assert_eq!(m.show(Some(false)), vec![Action::EnsureOnScreen, Action::Show]);
    assert!(m.on_main_event(MainEvent::FocusGained, Some(1), true, true, Some(true)).is_empty());
    assert_eq!(m.show(None), vec![Action::Create { focused: false }]);
}

#[test]
fn toggle_adopts_a_window_that_came_by_itself() {
    let mut m = Mini { auto_shown: true };
    assert_eq!(m.toggle(Some(true)), vec![Action::EnsureOnScreen, Action::Focus]);
    assert!(m.on_main_event(MainEvent::FocusGained, None, true, true, Some(true)).is_empty());
    assert_eq!(m.toggle(Some(true)), vec![Action::Hide]);
    assert_eq!(
        m.toggle(Some(false)),
        vec![Action::EnsureOnScreen, Action::Show, Action::Focus]
    );
    assert_eq!(m.toggle(None), vec![Action::Create { focused: true }]);
}

#[test]
fn hidden_at_the_users_wish() {
    let mut m = Mini { auto_shown: true };
    assert_eq!(m.mini_hide(Some(true)), vec![Action::Hide]);
    assert!(!m.auto_shown);
    assert!(m.mini_hide(None).is_empty());
}

#[test]
fn place_of_a_new_window() {
    assert_eq!(placed(Some(1), true, Some(2), 3), 1);
    assert_eq!(placed(Some(1), false, Some(2), 3), 2);
    assert_eq!(placed(None, true, None, 3), 3);
    assert_eq!(ensure_on_screen(true, Some(2), 3), None);
    assert_eq!(ensure_on_screen(false, Some(2), 3), Some(2));
    assert_eq!(ensure_on_screen(false, None, 3), Some(3));
}

#[test]
fn actions_of_the_mini_player() {
    for a in ["toggle", "next", "previous", "like", "radio", "repeat", "setposition:0",
        "setposition:18446744073709551615"]
    {
        assert!(is_permitted(a), "{}", a);
        let want = format!("(\"{}\");", a);
        assert!(mini_control(a).unwrap().ends_with(&want));
    }
    for a in ["", "play", "Toggle", "setposition:", "setposition:-1", "setposition:1.5",
        "setposition:18446744073709551616", "playindex:1", "toggle "]
    {
        assert!(mini_control(a).is_none(), "{}", a);
    }
    assert_eq!(LABEL, "mini");
}

#[test]
fn last_place_is_written() {
    let mut s: Saver<(i32, i32)> = Saver::new();
    s.record((1, 1));
    assert!(s.claim());
    s.record((2, 2));
    assert!(!s.claim());
    assert_eq!(s.take(), Some((2, 2)));
    assert_eq!(s.take(), None);
    // A place that comes in while the worker gives its role back.
    s.record((3, 3));
    assert!(!s.claim());
    s.release();
    assert!(s.straggler());
    assert!(s.claim());
    assert_eq!(s.take(), Some((3, 3)));
    assert_eq!(s.take(), None);
    s.release();
    assert!(!s.straggler());
}

#[test]
fn settings_are_read_back() {
    let mut store: Store<f64> = Store::new();
    assert!(set_auto_mini(&mut store, false).is_none());
    assert!(auto_mini(&store) && !notify_on_track(&store));
    store.init(None);
    assert!(auto_mini(&store));
    let written = set_auto_mini(&mut store, false).unwrap();
    assert!(!written.auto_mini && !auto_mini(&store) && !notify_on_track(&store));
    assert!(set_notify_on_track(&mut store, true).unwrap().notify_on_track);
    assert!(notify_on_track(&store));
    assert_eq!(mini_pos(&store), None);
    set_mini_pos(&mut store, 1.5, -2.0);
    assert_eq!(mini_pos(&store), Some((1.5, -2.0)));
    store.init(Some(Settings::default()));
    let s = get(&store);
    assert!(s.notify_on_track && !s.auto_mini);
    assert_eq!((s.mini_x, s.mini_y), (Some(1.5), Some(-2.0)));
}

#[test]
fn half_a_place_is_none() {
    let mut store: Store<f64> = Store::new();
    store.init(Some(Settings {
        notify_on_track: true,
        auto_mini: false,
        mini_x: Some(1.0),
        mini_y: None,
    }));
    assert_eq!(mini_pos(&store), None);
    assert!(notify_on_track(&store));
}

#[test]
fn workers_come_to_their_end() {
    let mut s: Saver<u8> = Saver::new();
    let mut written: Vec<u8> = Vec::new();
    s.record(1);
    assert!(s.claim());
    s.record(2);
    assert!(!s.claim());
    let mut steps = 0;
    loop {
        steps += 1;
        match s.take() {
            Some(p) => written.push(p),
            None => {
                s.release();
                if !s.straggler() || !s.claim() {
                    break;
                }
            }
        }
        assert!(steps < 10);
    }
    assert_eq!(written, vec![2]);
    assert!(s.pending.is_none() && !s.running);
}
