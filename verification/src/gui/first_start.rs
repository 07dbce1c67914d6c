//! First-start wizard: which buttons show on which page, and the
//! missing-translation decision.
use vstd::prelude::*;

verus! {

/// The Prev button shows on every page after the first
/// (UniExtract.au3:7374-7375, 7386-7387).
pub fn prev_button_visible(page: usize) -> (r: bool)
    ensures
        r == (page > 1),
{
    page > 1
}

/// What the Next button currently is.
#[derive(Debug, Clone, Copy, PartialEq, Eq, Structural)]
pub enum NextButtonMode {
    /// Advances a page.
    Next,
    /// Closes the wizard.
    Finish,
}

/// Next becomes Finish on the last page (UniExtract.au3:7376-7391).
pub fn next_button_mode(page: usize, total_pages: usize) -> (r: NextButtonMode)
    ensures
        r == (if total_pages > 0 && page >= total_pages { NextButtonMode::Finish } else { NextButtonMode::Next }),
{
    if total_pages > 0 && page >= total_pages {
        NextButtonMode::Finish
    } else {
        NextButtonMode::Next
    }
}

/// The per-page action button (UniExtract.au3:7401-7415).
#[derive(Debug, Clone, Copy, PartialEq, Eq, Structural)]
pub enum ActionButton {
    /// Page 1 or beyond the third: no button.
    Hidden,
    /// Page 2: opens the preferences.
    Preferences,
    /// Page 3: opens the context-menu entries dialog.
    ContextMenuEntries,
}

/// `GUI_FirstStart_ShowPage`'s `Switch $page` (UniExtract.au3:7403-7415).
pub fn resolve_action_button(page: usize) -> (r: ActionButton)
    ensures
        r == (if page == 2 {
            ActionButton::Preferences
        } else if page == 3 {
            ActionButton::ContextMenuEntries
        } else {
            ActionButton::Hidden
        }),
{
    match page {
        2 => ActionButton::Preferences,
        3 => ActionButton::ContextMenuEntries,
        _ => ActionButton::Hidden,
    }
}

/// The decision after the missing-translation download prompt
/// (UniExtract.au3:7360-7364): the process exits either way; this only
/// says whether an update-and-restart is attempted first.
#[derive(Debug, Clone, Copy, PartialEq, Eq, Structural)]
pub struct MissingTranslationOutcome {
    pub trigger_update_and_restart: bool,
}

/// An update-and-restart is attempted only when the user accepted the
/// download.
pub fn decide_missing_translation_outcome(user_confirmed_download: bool) -> (r: MissingTranslationOutcome)
    ensures
        r.trigger_update_and_restart == user_confirmed_download,
{
    MissingTranslationOutcome { trigger_update_and_restart: user_confirmed_download }
}

} // verus!
