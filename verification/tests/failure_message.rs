use rusty_extract::failure_message::{FAILURE_MESSAGE_KEY, failure_prompt_should_fire};
/// The message key is the fixed
/// literal `'EXTRACT_FAILED'` (UniExtract.au3:4195), with no
/// total-vs-partial variant.
#[test]
fn failure_message_key_matches_source_literal() {
    assert_eq!(FAILURE_MESSAGE_KEY, "EXTRACT_FAILED");
}

/// The prompt is attempted when not
/// silent.
#[test]
fn failure_prompt_fires_when_not_silent() {
    assert!(failure_prompt_should_fire(false));
}

/// Silent mode suppresses the
/// prompt outright, regardless of what caused `Status::Failed`.
#[test]
fn failure_prompt_suppressed_in_silent_mode() {
    assert!(!failure_prompt_should_fire(true));
}
