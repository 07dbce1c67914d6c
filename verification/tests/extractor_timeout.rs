use rusty_extract::status::Status;
use rusty_extract::extractor_timeout::{arc_conv_timeout_outcome, arc_conv_wait_timed_out};
#[test]
fn zero_handle_is_a_timeout() {
    assert!(arc_conv_wait_timed_out(0));
}

#[test]
fn nonzero_handle_is_not_a_timeout() {
    assert!(!arc_conv_wait_timed_out(12345));
}

#[test]
fn timeout_outcome_terminates_only_on_zero_handle() {
    assert_eq!(arc_conv_timeout_outcome(0), Some(Status::Timeout));
    assert_eq!(arc_conv_timeout_outcome(98765), None);
}
