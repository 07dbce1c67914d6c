//! dark (WiX Toolset) — WiX installers.
use vstd::prelude::*;
use crate::text::owned;
use super::{inv, make_invocation, Invocation, InvocationView, WindowMode};

verus! {

/// The invocation `Case $TYPE_WIX` (UniExtract.au3:3373-3375) makes:
/// `<program> -x <outdir> <file>`, run in `outdir`, minimized. The .NET
/// Framework check before it is a separate precondition.
pub fn invocation(program: &str, outdir: &str, file: &str) -> (r: Invocation)
    ensures
        r@ == inv(program@, seq!["-x"@, outdir@, file@], outdir@, WindowMode::Minimized),
{
    let r = make_invocation(program, vec![owned("-x"), owned(outdir), owned(file)], outdir, WindowMode::Minimized);
    assert(r@.args =~= seq!["-x"@, outdir@, file@]);
    r
}

} // verus!
