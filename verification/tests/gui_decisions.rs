use rusty_extract::gui::context_menu_registry::{build_cascading_mode_writes, ShellVerb};
use rusty_extract::status::{exit_code, Status};
use rusty_extract::gui::app::{
    output_dir_after_drop, output_dir_after_file_edit, status_box_text, StatusBoxText,
    STATUS_BOX_HEIGHT, STATUS_BOX_WIDTH,
};
use rusty_extract::gui::batch_queue::batch_button_label;
use rusty_extract::gui::file_assoc::{parse_extension_list, strip_leading_dot};
use rusty_extract::gui::file_input::{parse_file_dialog_result, parse_filename, resolve_folder_picker_seed};
use rusty_extract::gui::plugin_manager::{resolve_install_mechanism, InstallMechanism};
use rusty_extract::gui::prefs_dialog::{resolve_update_interval_display_index, resolve_update_interval_value};
use rusty_extract::gui::stats::{classify_stats_key, top_n_by_count, StatsBucket};
use rusty_extract::gui::tray_icon_shell::{tray_command_for_event, TrayCommand};
use rusty_extract::gui::tray_status_box::{
    resolve_position, truncate_with_ellipsis, try_resolve_position, ScreenRect,
};

#[test]
fn status_box_text_truncates_both_lines() {
    let long_name = "n".repeat(40);
    let long_message = "m".repeat(60);
    let t = status_box_text(&long_name, &long_message, false, false, (0, 0), (1920, 1080)).unwrap();
    assert_eq!(
        t,
        StatusBoxText {
            filename: format!("{} [...]", "n".repeat(28)),
            message: format!("{} [...]", "m".repeat(56)),
        }
    );
}

#[test]
fn status_box_text_is_suppressed_when_off_or_over_fullscreen() {
    assert_eq!(status_box_text("a", "b", true, false, (0, 0), (1, 1)), None);
    assert_eq!(status_box_text("a", "b", false, true, (1920, 1080), (1920, 1080)), None);
    assert!(status_box_text("a", "b", false, false, (1920, 1080), (1920, 1080)).is_some());
    assert_eq!((STATUS_BOX_WIDTH, STATUS_BOX_HEIGHT), (225, 100));
}

#[test]
fn output_dir_follows_the_file_unless_locked_and_filled() {
    assert_eq!(output_dir_after_drop("", true, r"C:\a\b"), r"C:\a\b");
    assert_eq!(output_dir_after_drop(r"C:\keep", false, r"C:\a\b"), r"C:\a\b");
    assert_eq!(output_dir_after_drop(r"C:\keep", true, r"C:\a\b"), r"C:\keep");
    assert_eq!(output_dir_after_file_edit("", r"C:\a\b"), r"C:\a\b");
    assert_eq!(output_dir_after_file_edit(r"C:\keep", r"C:\a\b"), r"C:\keep");
}

#[test]
fn batch_button_label_shows_the_queue_size() {
    assert_eq!(batch_button_label(0), "Batch");
    assert_eq!(batch_button_label(3), "Batch (3)");
    assert_eq!(batch_button_label(12), "Batch (12)");
    assert_eq!(batch_button_label(105), "Batch (105)");
}

#[test]
fn extension_list_entries_are_trimmed_and_non_empty() {
    let list = parse_extension_list("  zip ,\t, rar\n, ,7z ,,");
    assert_eq!(list, vec!["zip".to_string(), "rar".to_string(), "7z".to_string()]);
    for e in &list {
        assert!(!e.is_empty());
        assert_eq!(e.trim(), e);
    }
    assert!(parse_extension_list(" , ,").is_empty());
}

#[test]
fn strip_leading_dot_strips_one_dot() {
    assert_eq!(strip_leading_dot("..zip"), ".zip");
    assert_eq!(strip_leading_dot(""), "");
    assert_eq!(strip_leading_dot("."), "");
}

#[test]
fn parse_filename_without_directory_and_dotfile() {
    let p = parse_filename("archive.ZIP", false);
    assert_eq!(p.filedir, "");
    assert_eq!(p.filename, "archive");
    assert_eq!(p.fileext, "zip");
    assert_eq!(p.filenamefull, "archive.ZIP");
    assert_eq!(p.initoutdir, r"\archive");
    let d = parse_filename(r"C:\x\.profile", false);
    assert_eq!(d.fileext, "");
    assert_eq!(d.filename, ".profile");
    assert_eq!(d.initoutdir, r"C:\x\.profile_unpacked");
}

#[test]
fn parse_filename_lowercases_non_ascii_extensions() {
    let p = parse_filename(r"C:\x\archive.ÄRC", false);
    assert_eq!(p.fileext, "ärc");
}

#[test]
fn file_dialog_result_with_empty_parts() {
    assert_eq!(
        parse_file_dialog_result(r"C:\d||b.zip"),
        vec![r"C:\d\".to_string(), r"C:\d\b.zip".to_string()]
    );
}

#[test]
fn folder_picker_seed_without_backslash_is_empty() {
    assert_eq!(resolve_folder_picker_seed("", false, "a.zip", true), "");
    assert_eq!(resolve_folder_picker_seed(r"C:\x", false, r"C:\d\e\a.zip", false), "");
}

#[test]
fn install_mechanism_looks_at_the_last_three_characters_only() {
    assert_eq!(resolve_install_mechanism("zip"), InstallMechanism::UnpackArchive);
    assert_eq!(resolve_install_mechanism("7z"), InstallMechanism::CopyFiles);
    assert_eq!(resolve_install_mechanism(r"C:\x.Rar"), InstallMechanism::UnpackArchive);
    assert_eq!(resolve_install_mechanism(r"C:\x.tar.gz"), InstallMechanism::CopyFiles);
    assert_eq!(resolve_install_mechanism(""), InstallMechanism::CopyFiles);
}

#[test]
fn update_interval_index_and_value_round_trip_on_presets() {
    for days in [1i64, 7, 30, 365, 999_999] {
        let index = resolve_update_interval_display_index(days);
        assert!(index < 5);
        assert_eq!(resolve_update_interval_value(index, -5), days);
    }
    assert_eq!(resolve_update_interval_value(9, 42), 42);
}

#[test]
fn stats_keys_compare_exactly() {
    assert_eq!(classify_stats_key("Success"), StatsBucket::ArchiveType);
    assert_eq!(classify_stats_key("success "), StatsBucket::ArchiveType);
    assert_eq!(classify_stats_key(""), StatsBucket::ArchiveType);
}

#[test]
fn top_n_by_count_keeps_equal_counts_in_input_order() {
    let entries = vec![
        ("a".to_string(), 5),
        ("b".to_string(), 7),
        ("c".to_string(), 5),
        ("d".to_string(), 7),
        ("e".to_string(), -1),
    ];
    assert_eq!(
        top_n_by_count(entries.clone(), 3),
        vec![("b".to_string(), 7), ("d".to_string(), 7), ("a".to_string(), 5)]
    );
    let all = top_n_by_count(entries.clone(), 10);
    assert_eq!(all.len(), 5);
    assert_eq!(all[4], ("e".to_string(), -1));
    // Sorting an already sorted list changes nothing: the stable
    // descending order is unique.
    assert_eq!(top_n_by_count(all.clone(), 10), all);
    assert!(top_n_by_count(entries, 0).is_empty());
}

#[test]
fn tray_command_is_matched_by_item_id() {
    assert_eq!(
        tray_command_for_event("1", "1", "2", true),
        Some(TrayCommand::ToggleHideStatus(true))
    );
    assert_eq!(tray_command_for_event("2", "1", "2", true), Some(TrayCommand::Exit));
    assert_eq!(tray_command_for_event("3", "1", "2", false), None);
}

#[test]
fn stored_position_needs_both_coordinates() {
    let (x, y) = resolve_position(Some((-1, 200)), (225, 100), None, (1920, 1080));
    assert_eq!((x, y), (1920 - 230, 35));
    let taskbar = ScreenRect { x: 5, y: 5, width: 40, height: 1000 };
    // A taskbar at (5, 5) counts as top-docked: x equals y.
    assert_eq!(resolve_position(None, (225, 100), Some(taskbar), (1920, 1080)).1, 1005);
}

#[test]
fn truncation_keeps_text_at_the_limit() {
    assert_eq!(truncate_with_ellipsis("", 0), "");
    assert_eq!(truncate_with_ellipsis("ab", 0), " [...]");
    assert_eq!(truncate_with_ellipsis("abc", 3), "abc");
}

#[test]
fn try_resolve_position_refuses_overflow_only() {
    assert_eq!(
        try_resolve_position(None, (225, 100), None, (1920, 1080)),
        Some(resolve_position(None, (225, 100), None, (1920, 1080)))
    );
    assert_eq!(try_resolve_position(None, (i32::MAX, 100), None, (1920, 1080)), None);
    assert_eq!(try_resolve_position(Some((3, 4)), (i32::MAX, 100), None, (1920, 1080)), Some((3, 4)));
    let low = ScreenRect { x: 0, y: i32::MIN, width: 1, height: 1 };
    assert_eq!(try_resolve_position(None, (225, 100), Some(low), (1920, 1080)), None);
}

/// Without admin rights neither all-users checkbox is touched, whatever
/// the add-association box says.
#[test]
fn activate_non_admin_leaves_both_allusers_boxes_untouched() {
    use_activate(false, false, None, None);
    use_activate(false, true, None, None);
    use_activate(true, false, Some(true), Some(false));
    use_activate(true, true, Some(true), Some(true));
}

fn use_activate(is_admin: bool, add_assoc_checked: bool, allusers: Option<bool>, allusers2: Option<bool>) {
    let r = rusty_extract::gui::context_menu::resolve_context_menu_activate(
        true,
        is_admin,
        true,
        true,
        add_assoc_checked,
    );
    assert_eq!(r.allusers_checkbox_enabled, allusers);
    assert_eq!(r.allusers2_checkbox_enabled, allusers2);
    assert_eq!(r.add_input_enabled, add_assoc_checked);
}

#[test]
fn windows_10_is_told_from_11_by_build_number() {
    use_version(10, 19045, true);
    use_version(10, 21999, true);
    use_version(10, 22000, false);
    use_version(6, 9600, false);
}

fn use_version(major: u32, build: u32, expected: bool) {
    assert_eq!(
        rusty_extract::gui::theme::is_windows10_not_11_version(major, build),
        expected
    );
}

#[test]
fn exit_code_separates_success_from_other_statuses() {

    assert_eq!(exit_code(Status::Success), 0);
    assert_eq!(exit_code(Status::Failed), 1);
    assert_eq!(exit_code(Status::Syntax), 1);
}

#[test]
fn extension_list_round_trips_through_a_comma_join() {
    for raw in [" zip, rar ,7z", "", " , a,, b ", "x"] {
        let list = parse_extension_list(raw);
        for e in &list {
            assert!(!e.contains(','));
        }
        assert_eq!(parse_extension_list(&list.join(",")), list);
    }
}

#[test]
fn cascading_writes_have_three_per_checked_verb_after_four_parent_writes() {

    let verb = |k: &str| ShellVerb {
        key_name: k.to_string(),
        label: format!("{k} label"),
        command_suffix: format!(" /{k}"),
        multi_select_model: None,
    };
    let verbs = vec![verb("a"), verb("b"), verb("c")];
    let checked = vec![true, false, true];
    let w = build_cascading_mode_writes(r"C:\ue.exe", r"HKCU\x\", &verbs, &checked, "icon");
    assert_eq!(w.len(), 4 + 3 * 2);
    let parent = build_cascading_mode_writes(r"C:\ue.exe", r"HKCU\x\", &[], &[], "icon");
    assert_eq!(&w[..4], &parent[..]);
    assert_eq!(w[4 + 3].key, r"HKCU\x\uniextract\Shell\c");
    assert_eq!(w[4 + 3].value, "c label");
    assert_eq!(w[4 + 4].key, r"HKCU\x\uniextract\Shell\c\command");
    assert_eq!(w[4 + 4].value, r#""C:\ue.exe" "%1" /c"#);
    assert_eq!(w[4 + 5].value_name, "Icon");
}

#[test]
fn status_keys_classify_as_the_stats_switch_does() {
    assert_eq!(classify_stats_key(rusty_extract::gui::stats::status_ini_key(Status::Success)), StatsBucket::Success);
    for s in [Status::Batch, Status::Silent, Status::Syntax] {
        assert_eq!(classify_stats_key(rusty_extract::gui::stats::status_ini_key(s)), StatsBucket::Excluded);
    }
    for s in [Status::MoveFailed, Status::NoFreeSpace, Status::MissingPart, Status::TrayExit] {
        assert_eq!(classify_stats_key(rusty_extract::gui::stats::status_ini_key(s)), StatsBucket::ArchiveType);
    }
    for s in [Status::Failed, Status::Timeout, Status::UnknownExe, Status::Password] {
        assert_ne!(classify_stats_key(rusty_extract::gui::stats::status_ini_key(s)), StatsBucket::ArchiveType);
    }
}

#[test]
fn filetype_report_without_header_ignores_width() {
    use_report_without_header();
}

fn use_report_without_header() {
    let entries = vec![
        rusty_extract::filetype_report::ScannerResult { scanner: "TrID", type_text: "ZIP archive" },
        rusty_extract::filetype_report::ScannerResult { scanner: "Exeinfo", type_text: "not packed" },
    ];
    assert_eq!(
        rusty_extract::filetype_report::format_filetype_results(&entries, false, i64::MAX),
        "ZIP archive\r\n\r\nnot packed"
    );
}
