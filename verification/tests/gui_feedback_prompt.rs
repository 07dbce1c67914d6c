use rusty_extract::gui::feedback_prompt::{
    resolve_feedback_prompt_action, resolve_no_choice_pref_update,
    resolve_prompt_dialog_outcome, resolve_yes_choice_pref_update,
    should_prompt_for_feedback_after_extraction, FeedbackPromptAction, FeedbackPromptPref,
    PromptDialogOutcome,
};

#[test]
fn trigger_fires_only_for_specific_exit_codes() {
    for code in [1, 3, 4, 12] {
        assert!(should_prompt_for_feedback_after_extraction(code, "zip"));
    }
    for code in [0, 2, 5, 11, 13] {
        assert!(!should_prompt_for_feedback_after_extraction(code, "zip"));
    }
}

/// The verified quirk: a .dll input file is excluded regardless of
/// exit code, and the extension check is case-insensitive.
#[test]
fn trigger_excludes_dll_files_case_insensitively() {
    assert!(!should_prompt_for_feedback_after_extraction(1, "dll"));
    assert!(!should_prompt_for_feedback_after_extraction(1, "DLL"));
    assert!(should_prompt_for_feedback_after_extraction(1, "exe"));
}

#[test]
fn prompt_action_skipped_when_never_not_extraction_or_silent() {
    assert_eq!(
        resolve_feedback_prompt_action(FeedbackPromptPref::Never, true, false),
        FeedbackPromptAction::DoNothing
    );
    assert_eq!(
        resolve_feedback_prompt_action(FeedbackPromptPref::Always, false, false),
        FeedbackPromptAction::DoNothing
    );
    assert_eq!(
        resolve_feedback_prompt_action(FeedbackPromptPref::Always, true, true),
        FeedbackPromptAction::DoNothing
    );
}

#[test]
fn always_preference_opens_feedback_directly() {
    assert_eq!(
        resolve_feedback_prompt_action(FeedbackPromptPref::Always, true, false),
        FeedbackPromptAction::OpenFeedbackDirectly
    );
}

#[test]
fn ask_preference_shows_yes_no_prompt() {
    assert_eq!(
        resolve_feedback_prompt_action(FeedbackPromptPref::Ask, true, false),
        FeedbackPromptAction::ShowYesNoPrompt
    );
}

#[test]
fn yes_choice_only_persists_when_remember_is_checked() {
    assert_eq!(
        resolve_yes_choice_pref_update(true),
        Some(FeedbackPromptPref::Always)
    );
    assert_eq!(resolve_yes_choice_pref_update(false), None);
}

#[test]
fn no_choice_only_persists_when_remember_is_checked() {
    assert_eq!(
        resolve_no_choice_pref_update(true),
        Some(FeedbackPromptPref::Never)
    );
    assert_eq!(resolve_no_choice_pref_update(false), None);
}

#[test]
fn dialog_outcome_opens_feedback_only_on_yes() {
    assert_eq!(
        resolve_prompt_dialog_outcome(true),
        PromptDialogOutcome::OpenFeedback
    );
    assert_eq!(
        resolve_prompt_dialog_outcome(false),
        PromptDialogOutcome::DoNothing
    );
}
