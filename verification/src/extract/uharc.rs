//! UHARC three-version fallback chain (`UNUHARC06.EXE`, `UHARC04.EXE`,
//! `UHARC02.EXE`) — `.uha` archives.
use vstd::prelude::*;
use crate::text::owned;
use super::{cat2, inv, make_invocation, Invocation, InvocationView, WindowMode};

verus! {

/// The shape all three attempts share: `x -t<outdir> <file>`, run in
/// `outdir`, minimized.
pub open spec fn uharc_spec(program: Seq<char>, outdir: Seq<char>, file: Seq<char>) -> InvocationView {
    inv(program, seq!["x"@, "-t"@ + outdir, file], outdir, WindowMode::Minimized)
}

/// The first attempt of `Case $TYPE_UHA` (UniExtract.au3:3154):
/// `<program> x -t<outdir> <file>`, in `outdir`, minimized (`_Run`'s
/// default show flag).
pub fn uharc_invocation(program: &str, outdir: &str, file: &str) -> (r: Invocation)
    ensures
        r@ == uharc_spec(program@, outdir@, file@),
{
    let args = vec![owned("x"), cat2("-t", outdir), owned(file)];
    let r = make_invocation(program, args, outdir, WindowMode::Minimized);
    assert(r@.args =~= uharc_spec(program@, outdir@, file@).args);
    r
}

/// The second attempt (UniExtract.au3:3156), made when the first did not
/// succeed: the same shape with an older binary.
pub fn uharc04_invocation(program: &str, outdir: &str, file: &str) -> (r: Invocation)
    ensures
        r@ == uharc_spec(program@, outdir@, file@),
{
    uharc_invocation(program, outdir, file)
}

/// The last attempt (UniExtract.au3:3158): `<program> x -t<outdir_short>
/// <file_short>`, in `outdir_short`, minimized. The 8.3 short names are
/// supplied by the caller (`FileGetShortName` is an OS call); they are
/// not quoted in the source since short names hold no spaces.
pub fn uharc02_invocation(program: &str, outdir_short: &str, file_short: &str) -> (r: Invocation)
    ensures
        r@ == uharc_spec(program@, outdir_short@, file_short@),
{
    let args = vec![owned("x"), cat2("-t", outdir_short), owned(file_short)];
    let r = make_invocation(program, args, outdir_short, WindowMode::Minimized);
    assert(r@.args =~= uharc_spec(program@, outdir_short@, file_short@).args);
    r
}

} // verus!
