//! xor — XOR-decoding the overlay blob inside Ghost Installer packages.
use vstd::prelude::*;
use crate::text::owned;
use super::{cat4, inv, make_invocation, Invocation, InvocationView, WindowMode};

verus! {

/// The invocation UniExtract.au3:2598 makes from inside `Case
/// $TYPE_GHOST`: `<program> <overlay_file> <outdir>\<filename>.cab 0x8D`.
/// The call omits `_Run`'s optional arguments, so the working directory is
/// `outdir` and the window is minimized, both `_Run`'s defaults.
pub fn invocation(program: &str, overlay_file: &str, outdir: &str, filename: &str) -> (r: Invocation)
    ensures
        r@ == inv(
            program@,
            seq![overlay_file@, outdir@ + "\\"@ + filename@ + ".cab"@, "0x8D"@],
            outdir@,
            WindowMode::Minimized,
        ),
{
    let args = vec![owned(overlay_file), cat4(outdir, "\\", filename, ".cab"), owned("0x8D")];
    let r = make_invocation(program, args, outdir, WindowMode::Minimized);
    assert(r@.args =~= seq![overlay_file@, outdir@ + "\\"@ + filename@ + ".cab"@, "0x8D"@]);
    r
}

} // verus!
