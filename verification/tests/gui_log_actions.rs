use rusty_extract::gui::log_actions::{resolve_most_recent_log, should_create_password_file, should_open_a_log, should_update_log_menu_item};
#[test]
fn should_open_a_log_requires_successful_read_and_at_least_one_file() {
    assert!(should_open_a_log(true, 1));
    assert!(!should_open_a_log(false, 5));
    assert!(!should_open_a_log(true, 0));
}

#[test]
fn resolve_most_recent_log_returns_last_entry() {
    let files = vec![
        "2026-08-01_120000_run.log".to_string(),
        "2026-08-24_090000_run.log".to_string(),
    ];
    assert_eq!(
        resolve_most_recent_log(&files),
        Some(&"2026-08-24_090000_run.log".to_string())
    );
}

#[test]
fn resolve_most_recent_log_none_when_empty() {
    assert_eq!(resolve_most_recent_log(&[]), None);
}

#[test]
fn log_menu_item_only_updates_with_main_window() {
    assert!(should_update_log_menu_item(true));
    assert!(!should_update_log_menu_item(false));
}

#[test]
fn password_file_created_only_when_missing() {
    assert!(should_create_password_file(false));
    assert!(!should_create_password_file(true));
}
