//! Missing-helper handling: `HasPlugin`'s existence check and
//! dispatch, and the FFmpeg download/select dialog's decisions.
use vstd::prelude::*;
use crate::text::{has_substring, lowercase, str_contains, to_lower};

verus! {

/// `HasPlugin`'s three-location check (UniExtract.au3:3738): the path
/// itself, or — for a relative path only — under `$bindir` or `$archdir`.
pub fn plugin_exists(
    is_relative_path: bool,
    absolute_exists: bool,
    bindir_relative_exists: bool,
    archdir_relative_exists: bool,
) -> (r: bool)
    ensures
        r == (absolute_exists || (is_relative_path && (bindir_relative_exists || archdir_relative_exists))),
{
    absolute_exists || (is_relative_path && (bindir_relative_exists || archdir_relative_exists))
}

/// What `HasPlugin` does once it knows whether the plugin exists.
#[derive(Debug, Clone, Copy, PartialEq, Eq, Structural)]
pub enum HasPluginOutcome {
    Found,
    /// Missing, `$returnFail`: return false without a dialog.
    NotFoundReturnFalse,
    /// Missing, silent: terminate with `Status::MissingExe`.
    NotFoundTerminateSilently,
    /// Missing, interactive: the select/download dialog.
    NotFoundShowDialog,
}

/// `HasPlugin`'s dispatch (UniExtract.au3:3738-3744).
pub fn decide_has_plugin_outcome(exists: bool, return_fail: bool, silent_mode: bool) -> (r: HasPluginOutcome)
    ensures
        r == (if exists {
            HasPluginOutcome::Found
        } else if return_fail {
            HasPluginOutcome::NotFoundReturnFalse
        } else if silent_mode {
            HasPluginOutcome::NotFoundTerminateSilently
        } else {
            HasPluginOutcome::NotFoundShowDialog
        }),
{
    if exists {
        HasPluginOutcome::Found
    } else if return_fail {
        HasPluginOutcome::NotFoundReturnFalse
    } else if silent_mode {
        HasPluginOutcome::NotFoundTerminateSilently
    } else {
        HasPluginOutcome::NotFoundShowDialog
    }
}

/// What the Download button does.
#[derive(Debug, Clone, Copy, PartialEq, Eq, Structural)]
pub enum DownloadClickAction {
    Download,
    ShowLicenseNotAcceptedWarning,
}

/// The license checkbox gates the download (UniExtract.au3:3840-3846).
pub fn decide_download_click_action(license_accepted: bool) -> (r: DownloadClickAction)
    ensures
        r == (if license_accepted {
            DownloadClickAction::Download
        } else {
            DownloadClickAction::ShowLicenseNotAcceptedWarning
        }),
{
    if license_accepted {
        DownloadClickAction::Download
    } else {
        DownloadClickAction::ShowLicenseNotAcceptedWarning
    }
}

/// A cancelled dialog or a missing path skips validation
/// (UniExtract.au3:3852).
pub fn should_validate_selected_ffmpeg(dialog_cancelled: bool, path_exists: bool) -> (r: bool)
    ensures
        r == (!dialog_cancelled && path_exists),
{
    !dialog_cancelled && path_exists
}

/// The FFmpeg validation heuristic (UniExtract.au3:3863): at least 1 MiB
/// and the output contains `ffmpeg version`, ignoring case.
pub fn is_valid_ffmpeg_binary(file_size_bytes: u64, captured_stdout: &str) -> (r: bool)
    ensures
        r == (file_size_bytes >= 1024 * 1024 && has_substring(lowercase(captured_stdout@), "ffmpeg version"@)),
{
    if file_size_bytes < 1024 * 1024 {
        return false;
    }
    let lower = to_lower(captured_stdout);
    str_contains(lower.as_str(), "ffmpeg version")
}

/// How installing a validated FFmpeg binary went: a hardlink is preferred,
/// a copy is the fallback.
#[derive(Debug, Clone, Copy, PartialEq, Eq, Structural)]
pub enum FfmpegInstallOutcome {
    HardlinkSucceeded,
    CopySucceeded,
    BothFailed,
}

/// The hardlink-then-copy dispatch (UniExtract.au3:3877-3883);
/// `copy_succeeded` only matters when the hardlink failed.
pub fn resolve_ffmpeg_install_outcome(hardlink_succeeded: bool, copy_succeeded: bool) -> (r: FfmpegInstallOutcome)
    ensures
        r == (if hardlink_succeeded {
            FfmpegInstallOutcome::HardlinkSucceeded
        } else if copy_succeeded {
            FfmpegInstallOutcome::CopySucceeded
        } else {
            FfmpegInstallOutcome::BothFailed
        }),
{
    if hardlink_succeeded {
        FfmpegInstallOutcome::HardlinkSucceeded
    } else if copy_succeeded {
        FfmpegInstallOutcome::CopySucceeded
    } else {
        FfmpegInstallOutcome::BothFailed
    }
}

} // verus!
