use rusty_extract::free_space::{
    decide_free_space_outcome, decide_prompt_action, FreeSpaceOutcome, PromptAction, PromptResponse,
};

/// The check being disabled always
/// continues, regardless of the measurement.
#[test]
fn disabled_check_always_continues() {
    assert_eq!(
        decide_free_space_outcome(false, false, true),
        FreeSpaceOutcome::Continue
    );
    assert_eq!(
        decide_free_space_outcome(false, false, false),
        FreeSpaceOutcome::Continue
    );
}

/// Enough space always continues,
/// regardless of silent mode.
#[test]
fn enough_space_always_continues() {
    assert_eq!(
        decide_free_space_outcome(true, true, true),
        FreeSpaceOutcome::Continue
    );
    assert_eq!(
        decide_free_space_outcome(true, true, false),
        FreeSpaceOutcome::Continue
    );
}

/// Not enough space in silent mode
/// terminates immediately.
#[test]
fn not_enough_space_silent_mode_terminates() {
    assert_eq!(
        decide_free_space_outcome(true, false, true),
        FreeSpaceOutcome::TerminateFailedSilently
    );
}

/// Not enough space interactively
/// hands off to the prompt.
#[test]
fn not_enough_space_interactive_prompts() {
    assert_eq!(
        decide_free_space_outcome(true, false, false),
        FreeSpaceOutcome::PromptInteractive
    );
}

#[test]
fn retry_response_re_runs_the_check() {
    assert_eq!(
        decide_prompt_action(PromptResponse::Retry, true),
        PromptAction::RetryCheck
    );
    assert_eq!(
        decide_prompt_action(PromptResponse::Retry, false),
        PromptAction::RetryCheck
    );
}

/// Abort only removes the output
/// directory if this run actually created it.
#[test]
fn abort_response_removes_outdir_only_if_created_this_run() {
    assert_eq!(
        decide_prompt_action(PromptResponse::Abort, true),
        PromptAction::AbortAndTerminateSilently {
            remove_created_outdir: true
        }
    );
    assert_eq!(
        decide_prompt_action(PromptResponse::Abort, false),
        PromptAction::AbortAndTerminateSilently {
            remove_created_outdir: false
        }
    );
}

/// The source's own `Switch` has
/// no `Case` for Ignore -- it falls through with no action,
/// silently continuing extraction despite insufficient space.
#[test]
fn ignore_response_takes_no_action_and_continues() {
    assert_eq!(
        decide_prompt_action(PromptResponse::Other, true),
        PromptAction::ContinueWithoutAction
    );
    assert_eq!(
        decide_prompt_action(PromptResponse::Other, false),
        PromptAction::ContinueWithoutAction
    );
}
