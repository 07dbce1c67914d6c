//! Free-space check: the decision core of `HasFreeSpace()`
//! (UniExtract.au3:3782-3808). Measuring the drive and the file,
//! the megabyte rounding (floating point) and the abort/retry/ignore
//! dialog are the caller's; this module decides what happens once it
//! knows whether there is enough space, and once it has the dialog's
//! answer.
use vstd::prelude::*;

verus! {

/// What `HasFreeSpace()` does once it knows whether there is enough space
/// (UniExtract.au3:3783,3798-3806).
#[derive(Debug, Clone, Copy, PartialEq, Eq, Structural)]
pub enum FreeSpaceOutcome {
    /// The check is disabled or there is enough space: extraction proceeds.
    Continue,
    /// Not enough space while silent: terminate with `Status::Failed` —
    /// `$STATUS_NOFREESPACE` only goes into the message slot.
    TerminateFailedSilently,
    /// Not enough space while interactive: show the abort/retry/ignore
    /// dialog.
    PromptInteractive,
}

/// The branch selection in `HasFreeSpace()` (UniExtract.au3:3783,3794,
/// 3798-3806).
pub fn decide_free_space_outcome(check_enabled: bool, has_enough: bool, silent_mode: bool) -> (r: FreeSpaceOutcome)
    ensures
        r == (if !check_enabled || has_enough {
            FreeSpaceOutcome::Continue
        } else if silent_mode {
            FreeSpaceOutcome::TerminateFailedSilently
        } else {
            FreeSpaceOutcome::PromptInteractive
        }),
{
    if !check_enabled || has_enough {
        FreeSpaceOutcome::Continue
    } else if silent_mode {
        FreeSpaceOutcome::TerminateFailedSilently
    } else {
        FreeSpaceOutcome::PromptInteractive
    }
}

/// The dialog's answer: Retry, Abort, or anything else (Ignore included),
/// which the source's `Switch` has no case for.
#[derive(Debug, Clone, Copy, PartialEq, Eq, Structural)]
pub enum PromptResponse {
    Retry,
    Abort,
    Other,
}

/// What `HasFreeSpace()` does with the dialog's answer
/// (UniExtract.au3:3800-3806).
#[derive(Debug, Clone, Copy, PartialEq, Eq, Structural)]
pub enum PromptAction {
    /// `Return HasFreeSpace($sPath, $fModifier)` — check again.
    RetryCheck,
    /// Remove the output directory if this run created it, then
    /// terminate silently.
    AbortAndTerminateSilently { remove_created_outdir: bool },
    /// No case matched: extraction continues despite the warning.
    ContinueWithoutAction,
}

/// `HasFreeSpace()`'s response `Switch` (UniExtract.au3:3800-3806).
/// `created_outdir_this_run` is `$createdir`.
pub fn decide_prompt_action(response: PromptResponse, created_outdir_this_run: bool) -> (r: PromptAction)
    ensures
        r == (match response {
            PromptResponse::Retry => PromptAction::RetryCheck,
            PromptResponse::Abort => PromptAction::AbortAndTerminateSilently {
                remove_created_outdir: created_outdir_this_run,
            },
            PromptResponse::Other => PromptAction::ContinueWithoutAction,
        }),
{
    match response {
        PromptResponse::Retry => PromptAction::RetryCheck,
        PromptResponse::Abort => PromptAction::AbortAndTerminateSilently {
            remove_created_outdir: created_outdir_this_run,
        },
        PromptResponse::Other => PromptAction::ContinueWithoutAction,
    }
}

} // verus!
