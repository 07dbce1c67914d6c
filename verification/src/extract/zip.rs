//! ZIP fallback extraction messaging.
use vstd::prelude::*;

verus! {

/// `If $arcdisp > -1 Then` (UniExtract.au3:3386): whether the
/// `EXTRACTING` tray message shows before the fallback runs.
pub fn should_show_extracting_message(arcdisp: i64) -> (r: bool)
    ensures
        r == (arcdisp > -1),
{
    arcdisp > -1
}

} // verus!
