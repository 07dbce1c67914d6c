//! zpaq — `.zpaq` archives.
use vstd::prelude::*;
use crate::text::owned;
use super::{inv, make_invocation, Invocation, InvocationView, WindowMode};

verus! {

/// The invocation `Case $TYPE_ZPAQ` (UniExtract.au3:3396-3399) makes:
/// `<program> x <file> -to <outdir>`, run in `outdir`, shown.
pub fn invocation(program: &str, file: &str, outdir: &str) -> (r: Invocation)
    ensures
        r@ == inv(program@, seq!["x"@, file@, "-to"@, outdir@], outdir@, WindowMode::Show),
{
    let r = make_invocation(program, vec![owned("x"), owned(file), owned("-to"), owned(outdir)], outdir, WindowMode::Show);
    assert(r@.args =~= seq!["x"@, file@, "-to"@, outdir@]);
    r
}

} // verus!
