//! SQLite (`sqlite3.exe`) — SQLite database dump.
use vstd::prelude::*;
use crate::text::owned;
use super::{inv, make_invocation, Invocation, InvocationView, WindowMode};

verus! {

/// Builds the invocation `Case $TYPE_SQLITE` (UniExtract.au3:3032-3033)
/// makes to dump a database as SQL text: `<program> <file> .dump`, run in
/// `filedir` with the window hidden. The source's stray trailing quote
/// after `.dump` contributes nothing to the parsed argument, so the third
/// token is exactly `.dump`. Capturing the output into
/// `<outdir>\<filename>.sql` is the caller's job.
pub fn invocation(program: &str, file: &str, filedir: &str) -> (r: Invocation)
    ensures
        r@ == inv(program@, seq![file@, ".dump"@], filedir@, WindowMode::Hidden),
{
    let r = make_invocation(program, vec![owned(file), owned(".dump")], filedir, WindowMode::Hidden);
    assert(r@.args =~= seq![file@, ".dump"@]);
    r
}

} // verus!
