use rusty_extract::gui::tray::{ConsoleVisibilityAction, decide_console_visibility_action, hide_status_item_checked, should_hide_icon, should_log_tray_exit};
#[test]
fn hide_status_item_mirrors_the_preference_directly() {
    assert!(hide_status_item_checked(true));
    assert!(!hide_status_item_checked(false));
}

#[test]
fn hiding_the_icon_is_purely_a_visibility_toggle() {
    assert!(should_hide_icon(true));
    assert!(!should_hide_icon(false));
}

#[test]
fn console_visibility_is_a_noop_when_helper_is_gone() {
    assert_eq!(
        decide_console_visibility_action(false, true),
        ConsoleVisibilityAction::NoOp
    );
    assert_eq!(
        decide_console_visibility_action(false, false),
        ConsoleVisibilityAction::NoOp
    );
}

/// With the helper still running,
/// this is a plain visibility toggle.
#[test]
fn console_visibility_toggles_when_helper_is_running() {
    assert_eq!(
        decide_console_visibility_action(true, true),
        ConsoleVisibilityAction::Hide
    );
    assert_eq!(
        decide_console_visibility_action(true, false),
        ConsoleVisibilityAction::ShowAndActivate
    );
}

/// The tray-exit status log only
/// fires for a pure-tray session, not when exiting the tray while
/// the main window is still open.
#[test]
fn tray_exit_logs_only_when_main_window_was_never_created() {
    assert!(should_log_tray_exit(false));
    assert!(!should_log_tray_exit(true));
}
