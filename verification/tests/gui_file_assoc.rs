use rusty_extract::gui::file_assoc::{FileAssocWrite, RegistryValueKind, build_install_writes, parse_extension_list, resolve_file_assoc_apply_plan, resolve_registry_scope, should_remove_association, strip_leading_dot};
#[test]
fn strip_leading_dot_removes_one_leading_dot_only() {
    assert_eq!(strip_leading_dot(".zip"), "zip");
    assert_eq!(strip_leading_dot("zip"), "zip");
}

#[test]
fn parse_extension_list_trims_and_splits() {
    assert_eq!(
        parse_extension_list(" zip, rar ,7z"),
        vec!["zip".to_string(), "rar".to_string(), "7z".to_string()]
    );
}

#[test]
fn parse_extension_list_empty_string_is_empty_list() {
    assert!(parse_extension_list("").is_empty());
}

#[test]
fn registry_scope_matches_all_users_flag() {
    assert_eq!(resolve_registry_scope(true), "HKLM");
    assert_eq!(resolve_registry_scope(false), "HKCU");
}

#[test]
fn should_remove_association_only_when_progid_found() {
    assert!(should_remove_association(Some("UniExtract.zip")));
    assert!(!should_remove_association(None));
}

#[test]
fn install_writes_match_source_sequence_exactly() {
    let writes = build_install_writes(
        r"HKCU\SOFTWARE\Classes\",
        ".zip",
        "zip",
        "UniExtract zip",
        r"C:\UniExtract.exe",
    );
    assert_eq!(
        writes,
        vec![
            FileAssocWrite {
                key: r"HKCU\SOFTWARE\Classes\.zip".to_string(),
                value_name: String::new(),
                value: RegistryValueKind::Str("zip".to_string()),
            },
            FileAssocWrite {
                key: r"HKCU\SOFTWARE\Classes\zip\DefaultIcon\".to_string(),
                value_name: String::new(),
                value: RegistryValueKind::Str(r"C:\UniExtract.exe,0".to_string()),
            },
            FileAssocWrite {
                key: r"HKCU\SOFTWARE\Classes\zip\shell\open".to_string(),
                value_name: String::new(),
                value: RegistryValueKind::Str("UniExtract zip".to_string()),
            },
            FileAssocWrite {
                key: r"HKCU\SOFTWARE\Classes\zip\shell\open".to_string(),
                value_name: "Icon".to_string(),
                value: RegistryValueKind::ExpandStr(r"C:\UniExtract.exe,0".to_string()),
            },
            FileAssocWrite {
                key: r"HKCU\SOFTWARE\Classes\zip\shell\open\command\".to_string(),
                value_name: String::new(),
                value: RegistryValueKind::Str(r#""C:\UniExtract.exe" "%1""#.to_string()),
            },
            FileAssocWrite {
                key: r"HKCU\SOFTWARE\Classes\zip".to_string(),
                value_name: String::new(),
                value: RegistryValueKind::Str("UniExtract zip".to_string()),
            },
            FileAssocWrite {
                key: r"HKCU\SOFTWARE\Classes\zip".to_string(),
                value_name: "Icon".to_string(),
                value: RegistryValueKind::ExpandStr(r"C:\UniExtract.exe,0".to_string()),
            },
            FileAssocWrite {
                key: r"HKCU\SOFTWARE\Classes\zip\command".to_string(),
                value_name: String::new(),
                value: RegistryValueKind::Str(r#""C:\UniExtract.exe" "%1""#.to_string()),
            },
        ]
    );
}

/// Every call uninstalls the old list, disable stops
/// there.
#[test]
fn apply_plan_disable_only_uninstalls_and_leaves_install_none() {
    let plan = resolve_file_assoc_apply_plan(false, "zip,rar", "7z", true);
    assert_eq!(
        plan.extensions_to_uninstall,
        vec!["zip".to_string(), "rar".to_string()]
    );
    assert!(!plan.new_addassocenabled);
    assert_eq!(plan.install, None);
}

/// Enabling also produces a fresh install plan from the
/// *current* field/checkbox values, independent of the old list.
#[test]
fn apply_plan_enable_produces_install_plan_from_current_values() {
    let plan = resolve_file_assoc_apply_plan(true, "zip,rar", "7z, cab", false);
    assert_eq!(
        plan.extensions_to_uninstall,
        vec!["zip".to_string(), "rar".to_string()]
    );
    assert!(plan.new_addassocenabled);
    assert_eq!(
        plan.install,
        Some((vec!["7z".to_string(), "cab".to_string()], false))
    );
}
