use rusty_extract::gui::window_state::{should_save_position};
#[test]
fn saves_only_when_window_exists_and_preference_is_on() {
    assert!(should_save_position(true, true));
}

#[test]
fn skips_when_window_does_not_exist() {
    assert!(!should_save_position(false, true));
}

/// Even with a live window, the
/// preference gates whether position gets persisted at all.
#[test]
fn skips_when_remember_preference_is_off() {
    assert!(!should_save_position(true, false));
}
