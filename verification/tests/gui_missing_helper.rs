use rusty_extract::gui::missing_helper::{DownloadClickAction, FfmpegInstallOutcome, HasPluginOutcome, decide_download_click_action, decide_has_plugin_outcome, is_valid_ffmpeg_binary, plugin_exists, resolve_ffmpeg_install_outcome, should_validate_selected_ffmpeg};
#[test]
fn plugin_exists_absolute_path_found_directly() {
    assert!(plugin_exists(false, true, false, false));
}

#[test]
fn plugin_exists_relative_path_checks_both_dirs() {
    assert!(plugin_exists(true, false, true, false));
    assert!(plugin_exists(true, false, false, true));
}

/// An absolute path that doesn't exist is never
/// resolved against bindir/archdir at all.
#[test]
fn plugin_exists_absolute_path_missing_ignores_relative_dirs() {
    assert!(!plugin_exists(false, false, true, true));
}

#[test]
fn plugin_exists_relative_path_missing_from_both_dirs_is_false() {
    assert!(!plugin_exists(true, false, false, false));
}

#[test]
fn has_plugin_outcome_found_wins_regardless_of_other_flags() {
    assert_eq!(
        decide_has_plugin_outcome(true, true, true),
        HasPluginOutcome::Found
    );
}

#[test]
fn has_plugin_outcome_return_fail_short_circuits_before_silent_check() {
    assert_eq!(
        decide_has_plugin_outcome(false, true, false),
        HasPluginOutcome::NotFoundReturnFalse
    );
}

#[test]
fn has_plugin_outcome_silent_mode_terminates() {
    assert_eq!(
        decide_has_plugin_outcome(false, false, true),
        HasPluginOutcome::NotFoundTerminateSilently
    );
}

#[test]
fn has_plugin_outcome_interactive_shows_dialog() {
    assert_eq!(
        decide_has_plugin_outcome(false, false, false),
        HasPluginOutcome::NotFoundShowDialog
    );
}

#[test]
fn download_click_requires_license_acceptance() {
    assert_eq!(
        decide_download_click_action(true),
        DownloadClickAction::Download
    );
    assert_eq!(
        decide_download_click_action(false),
        DownloadClickAction::ShowLicenseNotAcceptedWarning
    );
}

#[test]
fn validation_skipped_on_cancel_or_missing_path() {
    assert!(!should_validate_selected_ffmpeg(true, true));
    assert!(!should_validate_selected_ffmpeg(false, false));
    assert!(should_validate_selected_ffmpeg(false, true));
}

#[test]
fn ffmpeg_binary_valid_when_large_enough_and_labeled() {
    assert!(is_valid_ffmpeg_binary(
        1024 * 1024,
        "ffmpeg version 6.0 Copyright..."
    ));
}

#[test]
fn ffmpeg_binary_invalid_when_too_small() {
    assert!(!is_valid_ffmpeg_binary(
        1024 * 1024 - 1,
        "ffmpeg version 6.0"
    ));
}

#[test]
fn ffmpeg_binary_invalid_when_missing_version_string() {
    assert!(!is_valid_ffmpeg_binary(
        2 * 1024 * 1024,
        "not ffmpeg at all"
    ));
}

#[test]
fn ffmpeg_binary_version_check_is_case_insensitive() {
    assert!(is_valid_ffmpeg_binary(
        2 * 1024 * 1024,
        "FFmpeg Version 6.0"
    ));
}

#[test]
fn ffmpeg_install_prefers_hardlink() {
    assert_eq!(
        resolve_ffmpeg_install_outcome(true, true),
        FfmpegInstallOutcome::HardlinkSucceeded
    );
}

#[test]
fn ffmpeg_install_falls_back_to_copy() {
    assert_eq!(
        resolve_ffmpeg_install_outcome(false, true),
        FfmpegInstallOutcome::CopySucceeded
    );
}

#[test]
fn ffmpeg_install_both_failed() {
    assert_eq!(
        resolve_ffmpeg_install_outcome(false, false),
        FfmpegInstallOutcome::BothFailed
    );
}
