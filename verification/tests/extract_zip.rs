use rusty_extract::extract::zip::{should_show_extracting_message};

#[test]
fn should_show_extracting_message_requires_arcdisp_above_negative_one() {
    assert!(should_show_extracting_message(0));
    assert!(should_show_extracting_message(1));
    assert!(!should_show_extracting_message(-1));
}
