use rusty_extract::method_select::{
    candidate, decide_method_selection, iscab_candidates, isexe_candidates, msi_candidates,
    msp_candidates, wise_candidates, MethodSelectionOutcome,
};
/// An active override
/// (`$sMethodSelectOverride > 0`) wins regardless of silent mode.
#[test]
fn override_wins_regardless_of_silent_mode() {
    assert_eq!(
        decide_method_selection(Some("2"), false),
        MethodSelectionOutcome::Overridden(2)
    );
    assert_eq!(
        decide_method_selection(Some("2"), true),
        MethodSelectionOutcome::Overridden(2)
    );
}

/// No override, silent mode
/// auto-picks choice `1`.
#[test]
fn silent_mode_without_override_auto_picks_first() {
    assert_eq!(
        decide_method_selection(None, true),
        MethodSelectionOutcome::AutoFirstCandidate
    );
}

/// No override, interactive mode
/// reaches the GUI dialog.
#[test]
fn interactive_mode_without_override_prompts() {
    assert_eq!(
        decide_method_selection(None, false),
        MethodSelectionOutcome::PromptInteractive
    );
}

/// An all-zero-digit override
/// (`"00"`) reproduces `$sMethodSelectOverride > 0` being false, the
/// same as no override at all.
#[test]
fn all_zero_override_is_treated_as_unset() {
    assert_eq!(
        decide_method_selection(Some("00"), true),
        MethodSelectionOutcome::AutoFirstCandidate
    );
    assert_eq!(
        decide_method_selection(Some("00"), false),
        MethodSelectionOutcome::PromptInteractive
    );
}

/// The five candidate lists match
/// the source verbatim, in order.
#[test]
fn candidate_lists_match_source() {
    assert_eq!(
        iscab_candidates(),
        &[
            candidate("METHOD_EXTRACTION_RADIO", "is6comp"),
            candidate("METHOD_EXTRACTION_RADIO", "is5comp"),
            candidate("METHOD_EXTRACTION_RADIO", "iscab"),
        ]
    );
    assert_eq!(
        isexe_candidates(),
        &[
            candidate("METHOD_EXTRACTION_RADIO", "isxunpack"),
            candidate("METHOD_SWITCH_RADIO", "InstallShield /b"),
            candidate("METHOD_NOT_INSTALLER_RADIO", "InstallShield"),
        ]
    );
    assert_eq!(
        msi_candidates(),
        &[
            candidate("METHOD_EXTRACTION_RADIO", "jsMSI Unpacker"),
            candidate("METHOD_EXTRACTION_RADIO", "MsiX"),
            candidate("METHOD_EXTRACTION_RADIO", "MSI TC Packer"),
            candidate("METHOD_ADMIN_RADIO", "MSI"),
        ]
    );
    assert_eq!(
        msp_candidates(),
        &[
            candidate("METHOD_EXTRACTION_RADIO", "7-Zip"),
            candidate("METHOD_EXTRACTION_RADIO", "MSI TC Packer"),
            candidate("METHOD_EXTRACTION_RADIO", "MsiX"),
        ]
    );
    assert_eq!(
        wise_candidates(),
        &[
            candidate("METHOD_UNPACKER_RADIO", "Wise UNpacker"),
            candidate("METHOD_SWITCH_RADIO", "Wise Installer /x"),
            candidate("METHOD_EXTRACTION_RADIO", "Wise MSI"),
            candidate("METHOD_EXTRACTION_RADIO", "Unzip"),
            candidate("METHOD_NOT_INSTALLER_RADIO", "Wise"),
        ]
    );
}
