use rusty_extract::method_select::wise_candidates;
use rusty_extract::extract::WindowMode;
use rusty_extract::extract::wise::{PrimaryOutcome, RIP_EXEINFO_KEY_SEQUENCE, WiseChoice, classify_primary_result, primary_invocation, sevenzip_fallback_invocation, success_bat_invocation, switch_invocation, unzip_invocation, wise_choice_from_number, wun_cleanup_patterns, wun_invocation};
#[test]
fn primary_invocation_matches_source() {
    let inv = primary_invocation(
        r"C:\bin\e_wise_w.exe",
        r"C:\downloads\setup.exe",
        r"C:\downloads\unpacked",
        r"C:\downloads",
    );
    assert_eq!(
        inv.args,
        vec![
            r"C:\downloads\setup.exe".to_string(),
            r"C:\downloads\unpacked".to_string(),
        ]
    );
    assert_eq!(inv.working_dir, r"C:\downloads");
    assert_eq!(inv.window, WindowMode::Minimized);
}

#[test]
fn primary_result_failed_routes_to_fallback() {
    assert_eq!(classify_primary_result(true), PrimaryOutcome::Fallback);
}

#[test]
fn primary_result_not_failed_routes_to_completion_bat() {
    assert_eq!(
        classify_primary_result(false),
        PrimaryOutcome::RunCompletionBat
    );
}

/// their `Switch` cases in order, and anything outside `1..=5` falls
/// through unmatched (no `Case Else`).
#[test]
fn choice_mapping_matches_source_switch() {
    assert_eq!(wise_choice_from_number(1), Some(WiseChoice::WunUnpacker));
    assert_eq!(
        wise_choice_from_number(2),
        Some(WiseChoice::InstallerSwitch)
    );
    assert_eq!(wise_choice_from_number(3), Some(WiseChoice::WiseMsi));
    assert_eq!(wise_choice_from_number(4), Some(WiseChoice::Unzip));
    assert_eq!(
        wise_choice_from_number(5),
        Some(WiseChoice::NotWiseInstaller)
    );
    assert_eq!(wise_choice_from_number(0), None);
    assert_eq!(wise_choice_from_number(6), None);
}

#[test]
fn wun_invocation_matches_source() {
    let inv = wun_invocation(
        r"C:\bin\wun.exe",
        "setup.exe",
        r"C:\downloads\temp7\",
        r"C:\downloads",
    );
    assert_eq!(
        inv.args,
        vec!["setup.exe".to_string(), r"C:\downloads\temp7\".to_string()]
    );
    assert_eq!(inv.working_dir, r"C:\downloads");
    assert_eq!(inv.window, WindowMode::Show);
}

#[test]
fn wun_cleanup_patterns_match_source() {
    assert_eq!(
        wun_cleanup_patterns(r"C:\downloads\temp7\"),
        [
            r"C:\downloads\temp7\INST0*".to_string(),
            r"C:\downloads\temp7\WISE0*".to_string(),
        ]
    );
}

#[test]
fn switch_invocation_matches_source() {
    let inv = switch_invocation(
        r"C:\downloads\setup.exe",
        r"C:\downloads\unpacked",
        r"C:\downloads",
    );
    assert_eq!(inv.program, r"C:\downloads\setup.exe");
    assert_eq!(
        inv.args,
        vec!["/x".to_string(), r"C:\downloads\unpacked".to_string()]
    );
    assert_eq!(inv.working_dir, r"C:\downloads");
    assert_eq!(inv.window, WindowMode::Show);
}

#[test]
fn rip_exeinfo_key_sequence_matches_source() {
    assert_eq!(RIP_EXEINFO_KEY_SEQUENCE, "{DOWN}{DOWN}{DOWN}");
}

#[test]
fn unzip_invocation_matches_source() {
    let inv = unzip_invocation(
        r"C:\bin\unzip.exe",
        r"C:\downloads\setup.exe",
        r"C:\downloads\unpacked",
    );
    assert_eq!(
        inv.args,
        vec!["-x".to_string(), r"C:\downloads\setup.exe".to_string()]
    );
    assert_eq!(inv.working_dir, r"C:\downloads\unpacked");
    assert_eq!(inv.window, WindowMode::Minimized);
}

#[test]
fn sevenzip_fallback_invocation_matches_source() {
    let inv = sevenzip_fallback_invocation(
        r"C:\bin\7z.exe",
        r"C:\downloads\setup.exe",
        r"C:\downloads\unpacked",
    );
    assert_eq!(
        inv.args,
        vec!["x".to_string(), r"C:\downloads\setup.exe".to_string()]
    );
    assert_eq!(inv.working_dir, r"C:\downloads\unpacked");
    assert_eq!(inv.window, WindowMode::Minimized);
}

#[test]
fn success_bat_invocation_matches_source() {
    let inv = success_bat_invocation(r"C:\downloads\unpacked");
    assert_eq!(inv.program, "00000000.BAT");
    assert!(inv.args.is_empty());
    assert_eq!(inv.working_dir, r"C:\downloads\unpacked");
    assert_eq!(inv.window, WindowMode::Hidden);
}

/// Choice 4's `unzip`→`7z` fallback
/// reuses `extract::sevenzip::classify_run_error`'s own status
/// vocabulary conceptually, but this call site only ever checks
/// `$success == $RESULT_FAILED` directly — no `@error`/`@extended`
/// classification happens here, matching the source's own bare `If`.
#[test]
fn wise_candidates_are_reused_from_method_select() {
    assert_eq!(wise_candidates().len(), 5);
}
