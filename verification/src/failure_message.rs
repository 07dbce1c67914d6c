//! Undifferentiated failure messaging: `terminate()`'s `Case
//! $STATUS_FAILED` branch shows the one key `EXTRACT_FAILED` whether the
//! run failed completely or partially. The prompt itself is GUI; this
//! module holds the key and the `Not $silentmode` gate in front of it.
use vstd::prelude::*;

verus! {

/// The single message key `Case $STATUS_FAILED` passes to `Prompt()`
/// (UniExtract.au3:4195), for every failed outcome.
pub const FAILURE_MESSAGE_KEY: &'static str = "EXTRACT_FAILED";

/// The `Not $silentmode` half of `If Not $silentmode And Prompt(...)`
/// (UniExtract.au3:4195): the failure prompt is only attempted when not
/// running silently.
pub fn failure_prompt_should_fire(silent_mode: bool) -> (r: bool)
    ensures
        r == !silent_mode,
{
    !silent_mode
}

} // verus!
