use rusty_extract::gui::error_dialogs::{CopyTarget, UnknownExtLayout, needs_vertical_scrollbar, resolve_copy_target, resolve_unknown_ext_layout, should_show_error_dialog};
#[test]
fn error_dialog_hidden_in_silent_mode() {
    assert!(!should_show_error_dialog(true));
    assert!(should_show_error_dialog(false));
}

#[test]
fn copy_target_is_all_when_nothing_selected() {
    assert_eq!(resolve_copy_target(0), CopyTarget::All);
}

/// The source's own comparison is `< 1`, so a negative
/// selection length (never produced by a real edit control, but not
/// guarded against either) also copies everything.
#[test]
fn copy_target_is_all_for_negative_length_too() {
    assert_eq!(resolve_copy_target(-1), CopyTarget::All);
}

#[test]
fn copy_target_is_selection_when_something_is_selected() {
    assert_eq!(resolve_copy_target(1), CopyTarget::Selection);
    assert_eq!(resolve_copy_target(42), CopyTarget::Selection);
}

/// The standalone `_GUI_FileScan` dialog's own threshold
/// (13), distinct from the embedded version's.
#[test]
fn scrollbar_threshold_matches_standalone_filescan_dialog() {
    assert!(!needs_vertical_scrollbar(13, 13));
    assert!(needs_vertical_scrollbar(14, 13));
}

/// `GUI_Error_UnknownExt`'s own, smaller threshold (7).
#[test]
fn scrollbar_threshold_matches_embedded_unknown_ext_dialog() {
    assert!(!needs_vertical_scrollbar(7, 7));
    assert!(needs_vertical_scrollbar(8, 7));
}

#[test]
fn unknown_ext_layout_with_scan_result() {
    assert_eq!(
        resolve_unknown_ext_layout(true),
        UnknownExtLayout {
            height: 290,
            show_scan_section: true
        }
    );
}

#[test]
fn unknown_ext_layout_without_scan_result() {
    assert_eq!(
        resolve_unknown_ext_layout(false),
        UnknownExtLayout {
            height: 190,
            show_scan_section: false
        }
    );
}
