//! ttarchext (`ttarchext.exe`) — Telltale Games `.ttarch` archives.
use vstd::prelude::*;
use crate::text::{decimal, owned, u32_to_decimal};
use super::{inv, make_invocation, Invocation, InvocationView, WindowMode};

verus! {

/// The invocation `Case $TYPE_TTARCH`'s extraction step makes once a game
/// has been selected (UniExtract.au3:3147): `<program> -m <game_index>
/// <file> <outdir>`, with the index in decimal, run in `outdir`, hidden.
pub fn invocation(program: &str, game_index: u32, file: &str, outdir: &str) -> (r: Invocation)
    ensures
        r@ == inv(
            program@,
            seq!["-m"@, decimal(game_index as nat), file@, outdir@],
            outdir@,
            WindowMode::Hidden,
        ),
{
    let args = vec![owned("-m"), u32_to_decimal(game_index), owned(file), owned(outdir)];
    let r = make_invocation(program, args, outdir, WindowMode::Hidden);
    assert(r@.args =~= seq!["-m"@, decimal(game_index as nat), file@, outdir@]);
    r
}

} // verus!
