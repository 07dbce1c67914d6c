use rusty_extract::gui::first_start::{ActionButton, NextButtonMode, decide_missing_translation_outcome, next_button_mode, prev_button_visible, resolve_action_button};
#[test]
fn prev_button_hidden_only_on_first_page() {
    assert!(!prev_button_visible(1));
    assert!(prev_button_visible(2));
    assert!(prev_button_visible(3));
}

#[test]
fn next_button_is_finish_only_on_last_page() {
    assert_eq!(next_button_mode(1, 3), NextButtonMode::Next);
    assert_eq!(next_button_mode(2, 3), NextButtonMode::Next);
    assert_eq!(next_button_mode(3, 3), NextButtonMode::Finish);
}

/// The transition sequence a real run of the wizard
/// actually produces (forward through all 3 pages, then back).
#[test]
fn full_forward_and_backward_traversal_matches_source_toggle_points() {
    let total = 3;
    // Forward: 1 -> 2 -> 3.
    assert!(!prev_button_visible(1));
    assert_eq!(next_button_mode(1, total), NextButtonMode::Next);
    assert!(prev_button_visible(2));
    assert_eq!(next_button_mode(2, total), NextButtonMode::Next);
    assert!(prev_button_visible(3));
    assert_eq!(next_button_mode(3, total), NextButtonMode::Finish);
    // Backward: 3 -> 2 -> 1.
    assert_eq!(next_button_mode(2, total), NextButtonMode::Next);
    assert!(!prev_button_visible(1));
}

#[test]
fn action_button_matches_each_page() {
    assert_eq!(resolve_action_button(1), ActionButton::Hidden);
    assert_eq!(resolve_action_button(2), ActionButton::Preferences);
    assert_eq!(resolve_action_button(3), ActionButton::ContextMenuEntries);
}

/// A page beyond the wizard's own fixed 3 pages hides
/// the action button, matching `Case Else`.
#[test]
fn action_button_hidden_beyond_third_page() {
    assert_eq!(resolve_action_button(4), ActionButton::Hidden);
}

#[test]
fn missing_translation_outcome_follows_user_answer() {
    assert!(decide_missing_translation_outcome(true).trigger_update_and_restart);
    assert!(!decide_missing_translation_outcome(false).trigger_update_and_restart);
}
