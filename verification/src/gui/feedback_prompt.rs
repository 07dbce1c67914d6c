//! Feedback-prompt gate: `GUI_Feedback_Prompt` (UniExtract.au3:6938-6977)
//! and the caller-side condition deciding whether to invoke it
//! (UniExtract.au3:4226), with the persisted never/ask/always preference.
use vstd::prelude::*;
use crate::text::{eq_ignore_ascii_case, str_eq_ignore_ascii_case};

verus! {

/// `$bOptAskForFeedback`'s three values (0/1/2).
#[derive(Debug, Clone, Copy, PartialEq, Eq, Structural)]
pub enum FeedbackPromptPref {
    Never,
    Ask,
    Always,
}

/// The caller-side trigger (UniExtract.au3:4226): exit codes 1, 3, 4 and
/// 12 only, and never for a `.dll` input (ASCII case ignored).
pub fn should_prompt_for_feedback_after_extraction(exit_code: i32, file_extension: &str) -> (r: bool)
    ensures
        r == ((exit_code == 1 || exit_code == 3 || exit_code == 4 || exit_code == 12) && !eq_ignore_ascii_case(
            file_extension@,
            "dll"@,
        )),
{
    (exit_code == 1 || exit_code == 3 || exit_code == 4 || exit_code == 12) && !str_eq_ignore_ascii_case(
        file_extension,
        "dll",
    )
}

/// What `GUI_Feedback_Prompt` does once invoked.
#[derive(Debug, Clone, Copy, PartialEq, Eq, Structural)]
pub enum FeedbackPromptAction {
    /// Preference `Never`, not an extraction, or silent: nothing.
    DoNothing,
    /// Preference `Always`: open the feedback form directly.
    OpenFeedbackDirectly,
    /// Preference `Ask`: show the yes/no/remember dialog.
    ShowYesNoPrompt,
}

/// `If Not ($bOptAskForFeedback And $extract) Or $silentmode Then Return`
/// followed by `If $bOptAskForFeedback == 2 Then Return GUI_Feedback()`
/// (UniExtract.au3:6939-6940).
pub fn resolve_feedback_prompt_action(pref: FeedbackPromptPref, was_extraction: bool, silent_mode: bool) -> (r: FeedbackPromptAction)
    ensures
        r == (if pref == FeedbackPromptPref::Never || !was_extraction || silent_mode {
            FeedbackPromptAction::DoNothing
        } else if pref == FeedbackPromptPref::Always {
            FeedbackPromptAction::OpenFeedbackDirectly
        } else {
            FeedbackPromptAction::ShowYesNoPrompt
        }),
{
    if pref == FeedbackPromptPref::Never || !was_extraction || silent_mode {
        FeedbackPromptAction::DoNothing
    } else if pref == FeedbackPromptPref::Always {
        FeedbackPromptAction::OpenFeedbackDirectly
    } else {
        FeedbackPromptAction::ShowYesNoPrompt
    }
}

/// "Yes" stores `Always` only when "remember" is checked
/// (UniExtract.au3:6959-6962); `None` keeps the stored preference.
pub fn resolve_yes_choice_pref_update(remember_checked: bool) -> (r: Option<FeedbackPromptPref>)
    ensures
        r == (if remember_checked { Some(FeedbackPromptPref::Always) } else { None }),
{
    if remember_checked {
        Some(FeedbackPromptPref::Always)
    } else {
        None
    }
}

/// "No" stores `Never` only when "remember" is checked
/// (UniExtract.au3:6967-6970).
pub fn resolve_no_choice_pref_update(remember_checked: bool) -> (r: Option<FeedbackPromptPref>)
    ensures
        r == (if remember_checked { Some(FeedbackPromptPref::Never) } else { None }),
{
    if remember_checked {
        Some(FeedbackPromptPref::Never)
    } else {
        None
    }
}

/// What happens when the yes/no dialog closes.
#[derive(Debug, Clone, Copy, PartialEq, Eq, Structural)]
pub enum PromptDialogOutcome {
    OpenFeedback,
    DoNothing,
}

/// "Yes" opens the feedback form; "No" and closing do nothing
/// (UniExtract.au3:6958-6971).
pub fn resolve_prompt_dialog_outcome(user_clicked_yes: bool) -> (r: PromptDialogOutcome)
    ensures
        r == (if user_clicked_yes { PromptDialogOutcome::OpenFeedback } else { PromptDialogOutcome::DoNothing }),
{
    if user_clicked_yes {
        PromptDialogOutcome::OpenFeedback
    } else {
        PromptDialogOutcome::DoNothing
    }
}

} // verus!
