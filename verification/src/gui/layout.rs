//! Main-window layout decisions that do not involve floating point.
use vstd::prelude::*;

verus! {

/// `$exStyle < 0? 0: $exStyle` (UniExtract.au3:5823): a negative (unset)
/// ex-style means no extra style bits.
pub fn resolve_ex_style(ex_style: i32) -> (r: i32)
    ensures
        r == (if ex_style < 0 { 0 } else { ex_style }),
{
    if ex_style < 0 {
        0
    } else {
        ex_style
    }
}

} // verus!
