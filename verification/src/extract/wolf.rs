//! WolfDec — Wolf RPG Editor archives.
use vstd::prelude::*;
use crate::text::owned;
use super::{inv, make_invocation, Invocation, InvocationView, WindowMode};

verus! {

/// The invocation `Case $TYPE_WOLF` (UniExtract.au3:3377-3382) makes:
/// `<program> <file>`, run in `outdir` (the explicit working directory of
/// `_RunInTempOutdir`, not `tempoutdir`), minimized.
pub fn invocation(program: &str, file: &str, outdir: &str) -> (r: Invocation)
    ensures
        r@ == inv(program@, seq![file@], outdir@, WindowMode::Minimized),
{
    let r = make_invocation(program, vec![owned(file)], outdir, WindowMode::Minimized);
    assert(r@.args =~= seq![file@]);
    r
}

} // verus!
