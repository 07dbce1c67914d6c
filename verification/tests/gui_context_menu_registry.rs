use rusty_extract::gui::context_menu_registry::{RegistryWrite, ShellVerb, build_cascading_mode_writes, build_simple_mode_writes, resolve_removal_targets, should_teardown_file_assoc_before_rebuild};
const REG_ALL: &str = r"HKCR\*\shell\";
const REG_CURRENT: &str = r"HKCU\Software\Classes\*\shell\";

fn sample_verbs() -> Vec<ShellVerb> {
    vec![
        ShellVerb {
            key_name: "UniExtract.Extract".to_string(),
            label: "Extract with UniExtract".to_string(),
            command_suffix: String::new(),
            multi_select_model: None,
        },
        ShellVerb {
            key_name: "UniExtract.ExtractTo".to_string(),
            label: "Extract to folder".to_string(),
            command_suffix: " /sub".to_string(),
            multi_select_model: Some("Player".to_string()),
        },
    ]
}

#[test]
fn simple_mode_skips_unchecked_verbs() {
    let writes = build_simple_mode_writes(
        r"C:\UniExtract.exe",
        REG_ALL,
        &sample_verbs(),
        &[true, false],
        true,
        "icon.ico",
    );
    assert!(writes
        .iter()
        .all(|w| !w.key.contains("UniExtract.ExtractTo")));
}

#[test]
fn simple_mode_writes_label_command_and_icon() {
    let writes = build_simple_mode_writes(
        r"C:\UniExtract.exe",
        REG_ALL,
        &sample_verbs()[..1],
        &[true],
        true,
        "icon.ico",
    );
    assert_eq!(
        writes,
        vec![
            RegistryWrite {
                key: r"HKCR\*\shell\UniExtract.Extract".to_string(),
                value_name: String::new(),
                value: "Extract with UniExtract".to_string(),
            },
            RegistryWrite {
                key: r"HKCR\*\shell\UniExtract.Extract\command".to_string(),
                value_name: String::new(),
                value: r#""C:\UniExtract.exe" "%1""#.to_string(),
            },
            RegistryWrite {
                key: r"HKCR\*\shell\UniExtract.Extract".to_string(),
                value_name: "Icon".to_string(),
                value: "icon.ico".to_string(),
            },
        ]
    );
}

#[test]
fn simple_mode_writes_multi_select_model_when_present() {
    let writes = build_simple_mode_writes(
        r"C:\UniExtract.exe",
        REG_ALL,
        &sample_verbs()[1..],
        &[true],
        false,
        "icon.ico",
    );
    assert!(writes
        .iter()
        .any(|w| w.value_name == "MultiSelectModel" && w.value == "Player"));
}

/// On pre-Windows-7, the icon value is never written at
/// all in simple mode.
#[test]
fn simple_mode_skips_icon_before_win7() {
    let writes = build_simple_mode_writes(
        r"C:\UniExtract.exe",
        REG_ALL,
        &sample_verbs()[..1],
        &[true],
        false,
        "icon.ico",
    );
    assert!(!writes.iter().any(|w| w.value_name == "Icon"));
}

#[test]
fn cascading_mode_writes_parent_key_unconditionally() {
    let writes =
        build_cascading_mode_writes(r"C:\UniExtract.exe", REG_ALL, &[], &[], "icon.ico");
    assert_eq!(
        writes,
        vec![
            RegistryWrite {
                key: r"HKCR\*\shell\uniextract".to_string(),
                value_name: "MUIVerb".to_string(),
                value: "Universal Extractor".to_string(),
            },
            RegistryWrite {
                key: r"HKCR\*\shell\uniextract".to_string(),
                value_name: "Icon".to_string(),
                value: "icon.ico".to_string(),
            },
            RegistryWrite {
                key: r"HKCR\*\shell\uniextract".to_string(),
                value_name: "SubCommands".to_string(),
                value: String::new(),
            },
            RegistryWrite {
                key: r"HKCR\*\shell\uniextract".to_string(),
                value_name: "MultiSelectModel".to_string(),
                value: "Player".to_string(),
            },
        ]
    );
}

/// Cascading mode writes every checked verb's icon
/// unconditionally, no Windows-version gate.
#[test]
fn cascading_mode_writes_child_verb_with_icon() {
    let writes = build_cascading_mode_writes(
        r"C:\UniExtract.exe",
        REG_ALL,
        &sample_verbs()[..1],
        &[true],
        "icon.ico",
    );
    let child_writes: Vec<_> = writes.iter().filter(|w| w.key.contains("Shell")).collect();
    assert_eq!(child_writes.len(), 3);
    assert!(child_writes.iter().any(|w| w.value_name == "Icon"));
}

#[test]
fn removal_targets_cover_both_scopes_per_verb() {
    let targets = resolve_removal_targets(
        REG_ALL,
        REG_CURRENT,
        &["UniExtract.Extract".to_string()],
        false,
    );
    assert_eq!(
        targets,
        vec![
            r"HKCR\*\shell\UniExtract.Extract".to_string(),
            r"HKCU\Software\Classes\*\shell\UniExtract.Extract".to_string(),
        ]
    );
}

#[test]
fn removal_targets_include_cascading_parent_only_on_win7() {
    let targets = resolve_removal_targets(REG_ALL, REG_CURRENT, &[], true);
    assert_eq!(
        targets,
        vec![
            r"HKCR\*\shell\uniextract".to_string(),
            r"HKCU\Software\Classes\*\shell\uniextract".to_string(),
        ]
    );

    let targets_pre_win7 = resolve_removal_targets(REG_ALL, REG_CURRENT, &[], false);
    assert!(targets_pre_win7.is_empty());
}

#[test]
fn teardown_file_assoc_only_when_previously_enabled() {
    assert!(should_teardown_file_assoc_before_rebuild(true));
    assert!(!should_teardown_file_assoc_before_rebuild(false));
}
