use sk_music::updater::{
    answered, apply_pending_on_exit, check_for_updates, downloaded, end_check, event_name,
    handle_menu_event, install_failed, install_pending_and_restart, open_check,
    updater_last_status, Answer, Begin, MenuRequest, Restart, Status, Updater,
    MENU_ID_CHECK_UPDATES, MENU_ID_RESTART_UPDATE, MENU_LABEL_CHECK_UPDATES,
    MENU_LABEL_RESTART_UPDATE, RECHECK_INTERVAL_SECS, STARTUP_CHECK_DELAY_SECS,
    UPDATE_TIMEOUT_SECS,
};

const CURRENT: &str = "1.1.3";

fn found(version: &str) -> Answer<String> {
    Answer::Found { version: version.to_string(), notes: Some("Notes".to_string()) }
}

fn staged() -> Updater<u32, String> {
    let mut u: Updater<u32, String> = Updater::new();
    assert!(matches!(check_for_updates(&mut u, false, CURRENT), Begin::Start));
    open_check(&mut u, false, CURRENT);
    let s = answered(&mut u, false, CURRENT, found("1.2.0"));
    assert!(matches!(s, Status::UpdateAvailable { .. }));
    downloaded(&mut u, false, CURRENT, "1.2.0", Some("Notes".to_string()), Ok(7));
    end_check(&mut u);
    u
}

#[test]
fn phases_have_names() {
    let mut u: Updater<u32, String> = Updater::new();
    assert!(updater_last_status(&u).is_none());
    check_for_updates(&mut u, true, CURRENT);
    let s = open_check(&mut u, true, CURRENT);
    assert_eq!(event_name(&s), "updater://checking");
    let s = answered(&mut u, true, CURRENT, found("2"));
    assert_eq!(event_name(&s), "updater://update-available");
    let s = downloaded(&mut u, true, CURRENT, "2", None, Ok(1));
    assert_eq!(event_name(&s), "updater://ready");
    let s = answered(&mut u, true, CURRENT, Answer::NoUpdate);
    assert_eq!(event_name(&s), "updater://up-to-date");
    let s = install_failed(&mut u, "denied");
    assert_eq!(event_name(&s), "updater://error");
    match s {
        Status::Error { user_initiated, message } => {
            assert!(user_initiated);
            assert_eq!(message, "install failed: denied");
        }
        _ => panic!("no error"),
    }
}

#[test]
fn check_while_another_runs() {
    let mut u: Updater<u32, String> = Updater::new();
    assert!(matches!(check_for_updates(&mut u, false, CURRENT), Begin::Start));
    assert!(matches!(check_for_updates(&mut u, false, CURRENT), Begin::Ignore));
    match check_for_updates(&mut u, true, CURRENT) {
        Begin::Announce(Status::Checking { user_initiated, current_version }) => {
            assert!(user_initiated);
            assert_eq!(current_version, CURRENT);
        }
        _ => panic!("not announced"),
    }
    assert!(matches!(updater_last_status(&u), Some(Status::Checking { .. })));
    end_check(&mut u);
    assert!(matches!(check_for_updates(&mut u, true, CURRENT), Begin::Start));
}

#[test]
fn failed_check_leaves_an_error() {
    let mut u: Updater<u32, String> = Updater::new();
    check_for_updates(&mut u, false, CURRENT);
    open_check(&mut u, false, CURRENT);
    answered(&mut u, false, CURRENT, Answer::Failed { message: "offline".to_string() });
    end_check(&mut u);
    match updater_last_status(&u) {
        Some(Status::Error { user_initiated, message }) => {
            assert!(!user_initiated);
            assert_eq!(message, "offline");
        }
        _ => panic!("no error"),
    }
}

#[test]
fn failed_download_keeps_what_is_staged() {
    let mut u = staged();
    check_for_updates(&mut u, true, CURRENT);
    answered(&mut u, true, CURRENT, found("1.3.0"));
    let s = downloaded(&mut u, true, CURRENT, "1.3.0", None, Err("timeout".to_string()));
    assert!(matches!(s, Status::Error { user_initiated: true, .. }));
    end_check(&mut u);
    assert_eq!(apply_pending_on_exit(&mut u).unwrap().version, "1.2.0");
}

#[test]
fn staged_version_is_not_fetched_again() {
    let mut u = staged();
    match answered(&mut u, true, CURRENT, found("1.2.0")) {
        Status::Ready { user_initiated, current_version, version, notes } => {
            assert!(user_initiated);
            assert_eq!(current_version, CURRENT);
            assert_eq!(version, "1.2.0");
            assert_eq!(notes.as_deref(), Some("Notes"));
        }
        _ => panic!("not ready"),
    }
    assert!(matches!(
        answered(&mut u, true, CURRENT, found("1.2.1")),
        Status::UpdateAvailable { .. }
    ));
    assert!(matches!(
        answered(&mut u, false, CURRENT, Answer::NoUpdate),
        Status::UpToDate { user_initiated: false, .. }
    ));
}

#[test]
fn installed_once() {
    let mut u = staged();
    match install_pending_and_restart(&mut u, CURRENT) {
        Restart::Install(s) => {
            assert_eq!(s.version, "1.2.0");
            assert_eq!(s.payload, 7);
        }
        _ => panic!("not installed"),
    }
    assert!(apply_pending_on_exit(&mut u).is_none());
    assert!(matches!(
        install_pending_and_restart(&mut u, CURRENT),
        Restart::Check(Begin::Start)
    ));
    let mut u = staged();
    assert_eq!(apply_pending_on_exit(&mut u).unwrap().payload, 7);
    assert!(apply_pending_on_exit(&mut u).is_none());
}

#[test]
fn updater_items_of_the_menu() {
    assert_eq!(handle_menu_event(MENU_ID_CHECK_UPDATES), Some(MenuRequest::CheckUpdates));
    assert_eq!(handle_menu_event(MENU_ID_RESTART_UPDATE), Some(MenuRequest::RestartUpdate));
    assert_eq!(handle_menu_event("quit"), None);
    assert_eq!(MENU_LABEL_CHECK_UPDATES, "Check for updates…");
    assert_eq!(MENU_LABEL_RESTART_UPDATE, "Restart to update");
    assert_eq!(STARTUP_CHECK_DELAY_SECS, 8);
    assert_eq!(UPDATE_TIMEOUT_SECS, 30);
    assert_eq!(RECHECK_INTERVAL_SECS, 60 * 60 * 24);
}
