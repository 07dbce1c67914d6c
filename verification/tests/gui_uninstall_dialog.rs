use rusty_extract::gui::uninstall_dialog::{should_exit_dialog_loop, DialogEscapeHatch};

#[test]
fn dialog_loop_only_exits_on_the_uninstall_button() {
    assert!(should_exit_dialog_loop(true));
    assert!(!should_exit_dialog_loop(false));
}

#[test]
fn escape_hatch_choice_is_an_explicit_two_way_decision() {
    assert_ne!(
        DialogEscapeHatch::NoneMatchingSource,
        DialogEscapeHatch::AllowCancel
    );
}
