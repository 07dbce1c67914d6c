//! Generic prompt and confirm dialogs: the decisions of `Prompt`
//! (UniExtract.au3:5980-5993) and `CustomPrompt`
//! (UniExtract.au3:5996-6033).
//!
//! `_IsChecked`, `_IsAnyChecked` and `_SetState`
//! (UniExtract.au3:6049-6071) test and set bits of Win32 control state;
//! checkboxes here are plain `bool` values, so they have no counterpart.
use vstd::prelude::*;

verus! {

/// `Prompt`'s `$return == 1 Or $return == 6` (UniExtract.au3:5986):
/// `IDOK` and `IDYES` are the only affirmative `MsgBox` answers.
pub fn is_affirmative_msgbox_response(raw_return: i32) -> (r: bool)
    ensures
        r == (raw_return == 1 || raw_return == 6),
{
    raw_return == 1 || raw_return == 6
}

/// What `Prompt` resolves to (UniExtract.au3:5981-5992).
#[derive(Debug, Clone, Copy, PartialEq, Eq, Structural)]
pub enum PromptOutcome {
    /// Silent mode affirmed, or the user answered OK/Yes.
    Affirmed,
    /// The user declined and `$bTerminate` is false.
    Declined,
    /// The user declined and `$bTerminate` is true
    /// (UniExtract.au3:5989-5991): remove the output directory only if
    /// this run created it, then terminate silently.
    DeclinedAndTerminate { remove_created_outdir: bool },
}

/// `Prompt`'s dispatch (UniExtract.au3:5981-5992). Silent mode affirms
/// before any dialog is shown, so `user_affirmed` does not matter then.
pub fn decide_prompt_outcome(
    silent_mode: bool,
    user_affirmed: bool,
    terminate_on_decline: bool,
    created_outdir_this_run: bool,
) -> (r: PromptOutcome)
    ensures
        r == (if silent_mode || user_affirmed {
            PromptOutcome::Affirmed
        } else if terminate_on_decline {
            PromptOutcome::DeclinedAndTerminate { remove_created_outdir: created_outdir_this_run }
        } else {
            PromptOutcome::Declined
        }),
{
    if silent_mode || user_affirmed {
        PromptOutcome::Affirmed
    } else if terminate_on_decline {
        PromptOutcome::DeclinedAndTerminate { remove_created_outdir: created_outdir_this_run }
    } else {
        PromptOutcome::Declined
    }
}

/// `$eCustomPromptSetting` (`$PROMPT_ASK`, `$PROMPT_ALWAYS`,
/// `$PROMPT_NEVER`): one stored setting shared by every `CustomPrompt`
/// call. `Ask` shows the dialog; the other two are sticky answers.
#[derive(Debug, Clone, Copy, PartialEq, Eq, Structural)]
pub enum CustomPromptSetting {
    Ask,
    Always,
    Never,
}

impl Default for CustomPromptSetting {
    fn default() -> (r: Self)
        ensures
            r == CustomPromptSetting::Ask,
    {
        CustomPromptSetting::Ask
    }
}

/// An answer `CustomPrompt` gives without showing its dialog
/// (UniExtract.au3:5997-5999).
#[derive(Debug, Clone, Copy, PartialEq, Eq, Structural)]
pub enum CustomPromptShortCircuit {
    Affirmed,
    Declined,
}

/// `CustomPrompt`'s short-circuit (UniExtract.au3:5997-5999): a sticky
/// `Always`/`Never` wins before silent mode is looked at; with `Ask`,
/// silent mode affirms and otherwise the dialog must be shown (`None`).
pub fn decide_custom_prompt_short_circuit(setting: CustomPromptSetting, silent_mode: bool) -> (r: Option<CustomPromptShortCircuit>)
    ensures
        r == (match setting {
            CustomPromptSetting::Always => Some(CustomPromptShortCircuit::Affirmed),
            CustomPromptSetting::Never => Some(CustomPromptShortCircuit::Declined),
            CustomPromptSetting::Ask => if silent_mode {
                Some(CustomPromptShortCircuit::Affirmed)
            } else {
                None
            },
        }),
{
    match setting {
        CustomPromptSetting::Always => Some(CustomPromptShortCircuit::Affirmed),
        CustomPromptSetting::Never => Some(CustomPromptShortCircuit::Declined),
        CustomPromptSetting::Ask => if silent_mode {
            Some(CustomPromptShortCircuit::Affirmed)
        } else {
            None
        },
    }
}

/// The button that closed the `CustomPrompt` dialog
/// (UniExtract.au3:6015-6026).
#[derive(Debug, Clone, Copy, PartialEq, Eq, Structural)]
pub enum CustomPromptButton {
    Yes,
    /// No, or the window closed (`$GUI_EVENT_CLOSE`), which the source
    /// handles as No.
    NoOrClosed,
    Always,
    Never,
}

/// The answer a button gives, and the new shared setting where the
/// button changes it (only `Always`/`Never` do).
#[derive(Debug, Clone, Copy, PartialEq, Eq, Structural)]
pub struct CustomPromptResult {
    pub affirmed: bool,
    pub new_setting: Option<CustomPromptSetting>,
}

/// `CustomPrompt`'s button dispatch (UniExtract.au3:6015-6026).
pub fn resolve_custom_prompt_button(button: CustomPromptButton) -> (r: CustomPromptResult)
    ensures
        r.affirmed == (button == CustomPromptButton::Yes || button == CustomPromptButton::Always),
        r.new_setting == (match button {
            CustomPromptButton::Always => Some(CustomPromptSetting::Always),
            CustomPromptButton::Never => Some(CustomPromptSetting::Never),
            _ => None,
        }),
{
    match button {
        CustomPromptButton::Yes => CustomPromptResult { affirmed: true, new_setting: None },
        CustomPromptButton::NoOrClosed => CustomPromptResult { affirmed: false, new_setting: None },
        CustomPromptButton::Always => CustomPromptResult {
            affirmed: true,
            new_setting: Some(CustomPromptSetting::Always),
        },
        CustomPromptButton::Never => CustomPromptResult {
            affirmed: false,
            new_setting: Some(CustomPromptSetting::Never),
        },
    }
}

} // verus!
