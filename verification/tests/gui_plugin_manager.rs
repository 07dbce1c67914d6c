use rusty_extract::gui::plugin_manager::{InstallMechanism, SelectCloseAction, decide_select_close_action, missing_required_files, resolve_copy_plan, resolve_install_mechanism, resolve_plugin_selection_display};
#[test]
fn install_mechanism_unpacks_7z_rar_and_zip() {
    assert_eq!(
        resolve_install_mechanism(r"C:\dl\arc_conv_r123.7z"),
        InstallMechanism::UnpackArchive
    );
    assert_eq!(
        resolve_install_mechanism(r"C:\dl\i5comp21.rar"),
        InstallMechanism::UnpackArchive
    );
    assert_eq!(
        resolve_install_mechanism(r"C:\dl\dgca_v2.zip"),
        InstallMechanism::UnpackArchive
    );
}

#[test]
fn install_mechanism_copies_anything_else() {
    assert_eq!(
        resolve_install_mechanism(r"C:\dl\iscab.exe"),
        InstallMechanism::CopyFiles
    );
    assert_eq!(
        resolve_install_mechanism(r"C:\dl\gentee.dll"),
        InstallMechanism::CopyFiles
    );
}

#[test]
fn install_mechanism_is_case_insensitive() {
    assert_eq!(
        resolve_install_mechanism(r"C:\dl\ARCHIVE.ZIP"),
        InstallMechanism::UnpackArchive
    );
    assert_eq!(
        resolve_install_mechanism(r"C:\dl\PLUGIN.7Z"),
        InstallMechanism::UnpackArchive
    );
}

#[test]
fn select_close_closes_with_no_selection() {
    assert_eq!(
        decide_select_close_action(false, false),
        SelectCloseAction::CloseDialog
    );
}

#[test]
fn select_close_closes_when_already_installed() {
    assert_eq!(
        decide_select_close_action(true, true),
        SelectCloseAction::CloseDialog
    );
}

#[test]
fn select_close_prompts_for_uninstalled_selection() {
    assert_eq!(
        decide_select_close_action(true, false),
        SelectCloseAction::PromptForFile
    );
}

#[test]
fn selection_display_shows_installed_when_compiled_and_installed() {
    let display = resolve_plugin_selection_display(true, true);
    assert!(!display.download_button_enabled);
    assert!(display.download_button_shows_installed);
    assert!(display.select_close_button_shows_finish);
}

/// The `@Compiled` gate means dev/script-mode always
/// shows "not installed", even if `already_installed` is true.
#[test]
fn selection_display_ignores_installed_state_when_not_compiled() {
    let display = resolve_plugin_selection_display(false, true);
    assert!(display.download_button_enabled);
    assert!(!display.download_button_shows_installed);
    assert!(!display.select_close_button_shows_finish);
}

#[test]
fn selection_display_shows_not_installed_when_never_installed() {
    let display = resolve_plugin_selection_display(true, false);
    assert!(display.download_button_enabled);
    assert!(!display.download_button_shows_installed);
}

#[test]
fn missing_required_files_none_when_all_present() {
    let required = vec!["ci-extractor.exe".to_string(), "gea.dll".to_string()];
    let selected = vec!["ci-extractor.exe".to_string(), "gea.dll".to_string()];
    assert!(missing_required_files(&required, &selected).is_empty());
}

#[test]
fn missing_required_files_reports_absent_entries() {
    let required = vec!["ci-extractor.exe".to_string(), "gea.dll".to_string()];
    let selected = vec!["ci-extractor.exe".to_string()];
    assert_eq!(
        missing_required_files(&required, &selected),
        vec!["gea.dll".to_string()]
    );
}

/// A wildcard entry is always treated as present.
#[test]
fn missing_required_files_skips_wildcard_entries() {
    let required = vec!["dgca_v*.zip".to_string()];
    assert!(missing_required_files(&required, &[]).is_empty());
}

#[test]
fn missing_required_files_is_case_insensitive() {
    let required = vec!["Gea.DLL".to_string()];
    let selected = vec!["gea.dll".to_string()];
    assert!(missing_required_files(&required, &selected).is_empty());
}

/// A single selected file is renamed to the plugin's
/// own `newfilename` on the way into `outdir`.
#[test]
fn copy_plan_renames_single_file() {
    let files = vec![r"C:\dl\bitrock-unpacker123.exe".to_string()];
    let plan = resolve_copy_plan(&files, r"C:\UniExtract\bin\", "bitrock.exe");
    assert_eq!(
        plan,
        vec![(
            r"C:\dl\bitrock-unpacker123.exe".to_string(),
            r"C:\UniExtract\bin\bitrock.exe".to_string()
        )]
    );
}

/// Multiple selected files keep their own names and all
/// land directly in `outdir`.
#[test]
fn copy_plan_keeps_names_for_multiple_files() {
    let files = vec![
        r"C:\dl\ci-extractor.exe".to_string(),
        r"C:\dl\gea.dll".to_string(),
        r"C:\dl\gentee.dll".to_string(),
    ];
    let plan = resolve_copy_plan(&files, r"C:\UniExtract\bin\", "");
    assert_eq!(
        plan,
        vec![
            (
                r"C:\dl\ci-extractor.exe".to_string(),
                r"C:\UniExtract\bin\".to_string()
            ),
            (
                r"C:\dl\gea.dll".to_string(),
                r"C:\UniExtract\bin\".to_string()
            ),
            (
                r"C:\dl\gentee.dll".to_string(),
                r"C:\UniExtract\bin\".to_string()
            ),
        ]
    );
}

#[test]
fn copy_plan_empty_files_is_empty_plan() {
    assert!(resolve_copy_plan(&[], "outdir", "new.exe").is_empty());
}
