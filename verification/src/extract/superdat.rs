//! SuperDAT Updater self-extraction (native switches).
use vstd::prelude::*;
use crate::text::owned;
use super::{cat2, inv, make_invocation, Invocation, InvocationView, WindowMode};

verus! {

/// Builds the invocation `Case $TYPE_SUPERDAT` (UniExtract.au3:3038-3043)
/// makes: the archive is itself the self-extracting updater, run as
/// `<file> /LOGFILE <outdir>\SuperDAT.log /e <outdir>` in `outdir`, with a
/// normally shown window (`ShellExecuteWait`'s default show flag).
pub fn invocation(file: &str, outdir: &str) -> (r: Invocation)
    ensures
        r@ == inv(
            file@,
            seq!["/LOGFILE"@, outdir@ + "\\SuperDAT.log"@, "/e"@, outdir@],
            outdir@,
            WindowMode::Show,
        ),
{
    let args = vec![owned("/LOGFILE"), cat2(outdir, "\\SuperDAT.log"), owned("/e"), owned(outdir)];
    let r = make_invocation(file, args, outdir, WindowMode::Show);
    assert(r@.args =~= seq!["/LOGFILE"@, outdir@ + "\\SuperDAT.log"@, "/e"@, outdir@]);
    r
}

} // verus!
