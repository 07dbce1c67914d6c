//! ThinApp/Thinstall (`Extractor.exe`) — virtualized executables, unwrapped
//! after relocating the input into a temp directory (the move itself, and
//! collecting the output back, are the caller's filesystem work).
use vstd::prelude::*;
use super::{cat2, inv, make_invocation, Invocation, InvocationView, WindowMode};

verus! {

/// The relocated input path `Case $TYPE_THINSTALL` computes
/// (UniExtract.au3:3107-3128): `<tempoutdir><filename_full>`.
pub fn relocated_file_path(tempoutdir: &str, filename_full: &str) -> (r: String)
    ensures
        r@ == tempoutdir@ + filename_full@,
{
    cat2(tempoutdir, filename_full)
}

/// The invocation on the relocated input: `<program>
/// <tempoutdir><filename_full>`, run in `tempoutdir`, hidden.
pub fn invocation(program: &str, tempoutdir: &str, filename_full: &str) -> (r: Invocation)
    ensures
        r@ == inv(program@, seq![tempoutdir@ + filename_full@], tempoutdir@, WindowMode::Hidden),
{
    let r = make_invocation(program, vec![relocated_file_path(tempoutdir, filename_full)], tempoutdir, WindowMode::Hidden);
    assert(r@.args =~= seq![tempoutdir@ + filename_full@]);
    r
}

} // verus!
