use sk_music::media::QueueEntry;
use sk_music::settings::Store;
use sk_music::tray::icon::{
    apply_icon, build_icons, icon_set, idle_icon, idle_of, Icon, IconState, Variant, TRAY_SIZE,
};
use sk_music::tray::menu::{build_tray, on_menu_event, Entry, MenuAction};
use sk_music::tray::{
    menu_anchor, on_click, set_now_playing, set_playing, set_up_next, toggle_auto_mini,
    toggle_autostart, toggle_notify, up_next_placeholder, Anchor, Click, ClickAction,
};
use sk_music::updater::MenuRequest;

fn queue(n: usize) -> Vec<QueueEntry> {
    (0..n)
        .map(|i| QueueEntry {
            title: if i == 1 { Some("  ".to_string()) } else { Some(format!(" T{} ", i)) },
            artist: if i == 2 { None } else { Some(format!("A{}", i)) },
        })
        .collect()
}

#[test]
fn texts_of_a_track() {
    let mut s = IconState::new(true, true);
    let c = set_now_playing(&mut s, Some("T"), Some("A"), true);
    assert_eq!(c.texts.tooltip, "T — A");
    assert_eq!(c.texts.now_playing, "♪ T — A");
    assert_eq!(c.texts.play_pause, "Pause");
    assert_eq!(c.texts.radio, "Start radio from this song");
    assert_eq!(c.icon, Some(Variant::Playing));
    let c = set_now_playing(&mut s, Some("T"), None, false);
    assert_eq!(c.texts.tooltip, "T");
    assert_eq!(c.texts.now_playing, "♪ T");
    assert_eq!(c.texts.play_pause, "Play");
    assert_eq!(c.icon, None);
    let c = set_now_playing(&mut s, None, Some("A"), false);
    assert_eq!(c.texts.tooltip, "SK Music");
    assert_eq!(c.texts.now_playing, "Not playing");
    assert_eq!(c.texts.radio, "Start radio");
}

#[test]
fn icon_follows_playback() {
    let mut s = IconState::new(true, true);
    let c = set_playing(&mut s, true);
    assert_eq!(c.play_pause, "Pause");
    assert_eq!(c.icon, Some(Variant::Playing));
    // It could not be set: tried again.
    icon_set(&mut s, Variant::Playing, false);
    assert_eq!(apply_icon(&mut s, true), Some(Variant::Playing));
    icon_set(&mut s, Variant::Playing, true);
    assert_eq!(apply_icon(&mut s, true), None);
    assert_eq!(apply_icon(&mut s, false), Some(Variant::Idle));
    icon_set(&mut s, Variant::Idle, true);
    assert_eq!(set_playing(&mut s, false).icon, None);
    // An icon that does not exist counts as shown.
    let mut none = IconState::new(false, false);
    assert_eq!(apply_icon(&mut none, true), None);
    assert!(none.shows_playing);
}

#[test]
fn upcoming_tracks() {
    let rows = set_up_next(Some(41), &queue(8));
    assert_eq!(rows.len(), 6);
    assert_eq!(rows[0].id, "upnext_41");
    assert_eq!(rows[0].label, "1. T0 — A0");
    assert_eq!(rows[1].label, "2. Unknown — A1");
    assert_eq!(rows[2].label, "3. T2");
    assert_eq!(rows[5].id, "upnext_46");
    assert!(rows[5].enabled);
    assert_eq!(set_up_next(None, &queue(1))[0].id, "upnext_0");
    let top = set_up_next(Some(u64::MAX - 1), &queue(3));
    assert_eq!(top[1].id, "upnext_18446744073709551615");
    assert_eq!(top[2].id, "upnext_18446744073709551615");
}

#[test]
fn no_upcoming_tracks() {
    let rows = set_up_next(Some(3), &[]);
    assert_eq!(rows.len(), 1);
    assert_eq!(rows[0].id, "upnext_end");
    assert_eq!(rows[0].label, "(end of queue)");
    assert!(!rows[0].enabled);
    assert_eq!(up_next_placeholder().id, "upnext_end");
    assert!(matches!(on_menu_event("upnext_end"), MenuAction::Nothing));
}

fn controlled(id: &str) -> String {
    match on_menu_event(id) {
        MenuAction::Control(a) => a,
        _ => panic!("no control"),
    }
}

#[test]
fn clicked_track_is_jumped_to() {
    let rows = set_up_next(Some(41), &queue(3));
    assert_eq!(controlled(&rows[2].id), "playindex:43");
    assert_eq!(controlled("upnext_+5"), "playindex:+5");
    assert!(matches!(on_menu_event("upnext_x"), MenuAction::Nothing));
    assert!(matches!(on_menu_event("upnext_"), MenuAction::Nothing));
}

#[test]
fn items_of_the_menu() {
    assert_eq!(controlled("play_pause"), "toggle");
    assert_eq!(controlled("next"), "next");
    assert_eq!(controlled("previous"), "previous");
    assert_eq!(controlled("like"), "like");
    assert_eq!(controlled("radio"), "radio");
    assert!(matches!(on_menu_event("show"), MenuAction::ShowMain));
    assert!(matches!(on_menu_event("mini"), MenuAction::ToggleMini));
    assert!(matches!(on_menu_event("autostart_toggle"), MenuAction::ToggleAutostart));
    assert!(matches!(on_menu_event("notify_toggle"), MenuAction::ToggleNotify));
    assert!(matches!(on_menu_event("auto_mini_toggle"), MenuAction::ToggleAutoMini));
    assert!(matches!(on_menu_event("quit"), MenuAction::Quit));
    assert!(matches!(
        on_menu_event("updater_check_updates"),
        MenuAction::Updates(MenuRequest::CheckUpdates)
    ));
    assert!(matches!(
        on_menu_event("updater_restart_update"),
        MenuAction::Updates(MenuRequest::RestartUpdate)
    ));
    assert!(matches!(on_menu_event("np_label"), MenuAction::Nothing));
}

#[test]
fn menu_at_the_start() {
    let m = build_tray(true, false, true);
    assert_eq!(m.len(), 19);
    assert!(matches!(m[0], Entry::Item { id: "np_label", label: "Not playing", enabled: false }));
    assert!(matches!(m[2], Entry::Submenu { id: "up_next", label: "Up Next" }));
    assert!(matches!(m[8], Entry::Item { id: "radio", label: "Start radio", enabled: true }));
    assert!(matches!(
        m[13],
        Entry::Check { id: "autostart_toggle", label: "Start with Windows", checked: true }
    ));
    assert!(matches!(
        m[14],
        Entry::Check { id: "notify_toggle", label: "Notify on track change", checked: false }
    ));
    assert!(matches!(
        m[15],
        Entry::Check { id: "auto_mini_toggle", label: "Mini player when unfocused", checked: true }
    ));
    let separators: Vec<usize> =
        (0..m.len()).filter(|i| matches!(m[*i], Entry::Separator)).collect();
    assert_eq!(separators, vec![1, 3, 9, 12, 16]);
    let mut ids: Vec<&str> = Vec::new();
    for e in m.iter() {
        if let Entry::Item { id, enabled: true, .. } | Entry::Check { id, .. } = e {
            assert!(!matches!(on_menu_event(id), MenuAction::Nothing));
            assert!(!ids.contains(id));
            ids.push(id);
        }
    }
    assert_eq!(ids.len(), 12);
}

#[test]
fn switches() {
    let mut store: Store<f64> = Store::new();
    store.init(None);
    let a = toggle_auto_mini(&mut store);
    assert!(!a.checked && !a.write.unwrap().auto_mini);
    let a = toggle_auto_mini(&mut store);
    assert!(a.checked && a.write.unwrap().auto_mini);
    let n = toggle_notify(&mut store);
    assert!(n.checked && n.write.unwrap().notify_on_track);
    let mut unloaded: Store<f64> = Store::new();
    let n = toggle_notify(&mut unloaded);
    assert!(n.checked && n.write.is_none());
    assert!(toggle_autostart(false, true));
    assert!(!toggle_autostart(true, true));
    assert!(toggle_autostart(true, false));
    assert!(!toggle_autostart(false, false));
}

#[test]
fn clicks_and_anchors() {
    assert_eq!(on_click(Click::LeftUp), ClickAction::MiniAndMenu);
    assert_eq!(on_click(Click::LeftDouble), ClickAction::ShowMain);
    assert_eq!(on_click(Click::Other), ClickAction::Nothing);
    assert_eq!(menu_anchor(Some(true), Some(true)), Some(Anchor::Mini));
    assert_eq!(menu_anchor(Some(false), Some(true)), Some(Anchor::Main));
    assert_eq!(menu_anchor(None, Some(false)), Some(Anchor::Main));
    assert_eq!(menu_anchor(Some(false), None), None);
}

fn png(width: u32, height: u32) -> (Vec<u8>, Vec<u8>) {
    let img = image::RgbaImage::from_fn(width, height, |x, y| {
        image::Rgba([x as u8, y as u8, 7, 255])
    });
    let raw = img.clone().into_raw();
    let mut out = std::io::Cursor::new(Vec::new());
    image::DynamicImage::ImageRgba8(img).write_to(&mut out, image::ImageFormat::Png).unwrap();
    (out.into_inner(), raw)
}

fn plain(n: u8) -> Icon {
    Icon { rgba: vec![n, n, n, n], width: 1, height: 1 }
}

#[test]
fn bundled_picture_becomes_the_icon() {
    let (bytes, raw) = png(32, 32);
    let icon = idle_icon(&bytes, None).unwrap();
    assert_eq!((icon.width, icon.height), (TRAY_SIZE, TRAY_SIZE));
    assert_eq!(icon.rgba, raw);
    let (large, _) = png(128, 128);
    let icon = idle_icon(&large, Some(plain(1))).unwrap();
    assert_eq!(icon.rgba.len(), 4 * 32 * 32);
    assert_ne!(icon.rgba, raw);
}

#[test]
fn window_icon_stands_in() {
    assert_eq!(idle_icon(b"no picture", Some(plain(9))).unwrap().rgba, vec![9, 9, 9, 9]);
    assert!(idle_icon(b"", None).is_none());
    let (mut bytes, _) = png(32, 32);
    bytes[0] = 0;
    assert!(idle_icon(&bytes, None).is_none());
    assert_eq!(idle_of(Some(vec![1]), None).unwrap().width, 32);
}

#[test]
fn playing_icon_falls_back_to_idle() {
    let (idle, playing) = build_icons(Some(plain(1)), Some(plain(2)));
    assert_eq!((idle.unwrap().rgba[0], playing.unwrap().rgba[0]), (1, 2));
    let (idle, playing) = build_icons(Some(plain(1)), None);
    assert_eq!((idle.unwrap().rgba[0], playing.unwrap().rgba[0]), (1, 1));
    let (idle, playing) = build_icons(None, Some(plain(2)));
    assert!(idle.is_none() && playing.is_none());
}
