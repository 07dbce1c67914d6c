//! uif2iso (`uif2iso.exe`) — MagicISO `.uif` images (stage one, to ISO).
use vstd::prelude::*;
use crate::text::owned;
use super::{cat3, inv, make_invocation, Invocation, InvocationView, WindowMode};

verus! {

/// The invocation `Case $TYPE_UIF` (UniExtract.au3:3161-3163) makes:
/// `<program> <file> <outdir>\<filename>`, run in the input's own
/// directory `file_dir`, shown normally (the source's explicit `True`
/// show flag).
pub fn invocation(program: &str, file: &str, outdir: &str, filename: &str, file_dir: &str) -> (r: Invocation)
    ensures
        r@ == inv(program@, seq![file@, outdir@ + "\\"@ + filename@], file_dir@, WindowMode::Show),
{
    let args = vec![owned(file), cat3(outdir, "\\", filename)];
    let r = make_invocation(program, args, file_dir, WindowMode::Show);
    assert(r@.args =~= seq![file@, outdir@ + "\\"@ + filename@]);
    r
}

} // verus!
