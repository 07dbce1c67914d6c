//! unzoo — `.zoo` archives.
use vstd::prelude::*;
use crate::text::owned;
use super::{inv, make_invocation, Invocation, InvocationView, WindowMode};

verus! {

/// The invocation `Case $TYPE_ZOO` (UniExtract.au3:3390-3394) makes:
/// `<program> -x <filename_full>` (unquoted in the source), run in
/// `tempoutdir`, hidden.
pub fn invocation(program: &str, filename_full: &str, tempoutdir: &str) -> (r: Invocation)
    ensures
        r@ == inv(program@, seq!["-x"@, filename_full@], tempoutdir@, WindowMode::Hidden),
{
    let r = make_invocation(program, vec![owned("-x"), owned(filename_full)], tempoutdir, WindowMode::Hidden);
    assert(r@.args =~= seq!["-x"@, filename_full@]);
    r
}

} // verus!
