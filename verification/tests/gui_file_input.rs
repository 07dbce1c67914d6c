use rusty_extract::gui::file_input::{OkOutcome, decide_ok_set, is_blank, parse_file_dialog_result, parse_filename, resolve_folder_picker_seed, should_auto_fill_on_file_input_changed, should_auto_fill_output_dir};
#[test]
fn blank_matches_empty_and_whitespace_only() {
    assert!(is_blank(""));
    assert!(is_blank("   "));
    assert!(!is_blank(" x "));
}

/// The extension is lowercased and
/// `initoutdir` applies the multi-extension collision rule.
#[test]
fn parse_filename_extracts_all_fields() {
    let parsed = parse_filename(r"C:\downloads\Archive.TAR.GZ", false);
    assert_eq!(parsed.filedir, r"C:\downloads");
    assert_eq!(parsed.filename, "Archive.TAR");
    assert_eq!(parsed.fileext, "gz");
    assert_eq!(parsed.filenamefull, "Archive.TAR.GZ");
    assert_eq!(parsed.initoutdir, r"C:\downloads\Archive.TAR");
}

#[test]
fn parse_filename_applies_collision_avoidance_for_multi_extension_names() {
    let parsed = parse_filename(r"C:\downloads\archive.tar.gz", true);
    assert_eq!(parsed.initoutdir, r"C:\downloads\archive_tar");
}

#[test]
fn parse_filename_handles_no_extension() {
    let parsed = parse_filename(r"C:\downloads\noext", false);
    assert_eq!(parsed.fileext, "");
    assert_eq!(parsed.filenamefull, "noext");
    assert_eq!(parsed.initoutdir, r"C:\downloads\noext_unpacked");
}

#[test]
fn ok_set_invalid_on_blank_or_missing_file() {
    assert_eq!(decide_ok_set(true, true, ""), OkOutcome::Invalid);
    assert_eq!(decide_ok_set(false, false, ""), OkOutcome::Invalid);
}

/// A blank directory field resolves
/// to the `/sub` sentinel, not an empty string.
#[test]
fn ok_set_defaults_blank_directory_to_sub_sentinel() {
    assert_eq!(
        decide_ok_set(false, true, ""),
        OkOutcome::Valid {
            outdir: "/sub".to_string()
        }
    );
    assert_eq!(
        decide_ok_set(false, true, r"C:\out"),
        OkOutcome::Valid {
            outdir: r"C:\out".to_string()
        }
    );
}

#[test]
fn file_input_changed_only_checks_blank_directory() {
    assert!(should_auto_fill_on_file_input_changed(true));
    assert!(!should_auto_fill_on_file_input_changed(false));
}

/// An empty *locked* directory field
/// still gets auto-filled -- the lock only protects a non-empty field.
#[test]
fn drop_parse_auto_fills_on_blank_field_even_when_locked() {
    assert!(should_auto_fill_output_dir(true, true));
    assert!(should_auto_fill_output_dir(true, false));
    assert!(!should_auto_fill_output_dir(false, true));
    assert!(should_auto_fill_output_dir(false, false));
}

#[test]
fn dialog_result_single_selection_has_no_pipe() {
    assert_eq!(
        parse_file_dialog_result(r"C:\downloads\archive.zip"),
        vec![r"C:\downloads\archive.zip".to_string()]
    );
}

#[test]
fn dialog_result_multi_selection_reconstructs_full_paths() {
    assert_eq!(
        parse_file_dialog_result(r"C:\downloads|a.zip|b.zip"),
        vec![
            r"C:\downloads\a.zip".to_string(),
            r"C:\downloads\b.zip".to_string()
        ]
    );
}

#[test]
fn dialog_result_empty_means_cancelled() {
    assert_eq!(parse_file_dialog_result(""), Vec::<String>::new());
}

#[test]
fn folder_picker_seed_prefers_existing_current_directory() {
    assert_eq!(
        resolve_folder_picker_seed(r"C:\out", true, r"C:\downloads\a.zip", true),
        r"C:\out"
    );
}

#[test]
fn folder_picker_seed_falls_back_to_file_parent() {
    assert_eq!(
        resolve_folder_picker_seed("", false, r"C:\downloads\a.zip", true),
        r"C:\downloads"
    );
}

#[test]
fn folder_picker_seed_falls_back_to_empty() {
    assert_eq!(resolve_folder_picker_seed("", false, "", false), "");
}
