//! The update prompt: the changelog fallback of
//! `GUI_UpdatePrompt` (UniExtract.au3:7741-7775).
//!
//! The source fetches the changelog (`_INetGetSource($sUpdateURL &
//! "news")`) while building the dialog, blocking until it arrives;
//! whether the window that shows it fetches the same way or in the
//! background is that window's choice. The text shown must be the same
//! either way. The Yes/No answer is the plain boolean of `CustomPrompt`
//!.
use vstd::prelude::*;

verus! {

/// What the changelog box shows (UniExtract.au3:7758-7760): the fetched
/// text, or the translated `DOWNLOAD_FAILED` message.
#[derive(Debug, Clone, PartialEq, Eq)]
pub enum ChangelogFetchOutcome {
    Loaded(String),
    Failed,
}

/// `If @error Then $return = t('DOWNLOAD_FAILED', ...)`
/// (UniExtract.au3:7759); `None` is the fetch's `@error`.
pub fn resolve_changelog_text(fetch_result: Option<String>) -> (r: ChangelogFetchOutcome)
    ensures
        match fetch_result {
            Some(text) => r matches ChangelogFetchOutcome::Loaded(t) && t@ == text@,
            None => r matches ChangelogFetchOutcome::Failed,
        },
{
    match fetch_result {
        Some(text) => ChangelogFetchOutcome::Loaded(text),
        None => ChangelogFetchOutcome::Failed,
    }
}

} // verus!
