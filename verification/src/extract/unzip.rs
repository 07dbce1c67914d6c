//! Info-ZIP unzip — `.zip` fallback once 7-Zip failed.
use vstd::prelude::*;
use crate::text::owned;
use super::{inv, make_invocation, Invocation, InvocationView, WindowMode};

verus! {

/// The invocation `Case $TYPE_ZIP`'s fallback (UniExtract.au3:3384-3388)
/// makes: `<program> -x <file>`, run in `outdir`, minimized.
pub fn invocation(program: &str, file: &str, outdir: &str) -> (r: Invocation)
    ensures
        r@ == inv(program@, seq!["-x"@, file@], outdir@, WindowMode::Minimized),
{
    let r = make_invocation(program, vec![owned("-x"), owned(file)], outdir, WindowMode::Minimized);
    assert(r@.args =~= seq!["-x"@, file@]);
    r
}

} // verus!
