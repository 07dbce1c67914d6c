//! umodel (`umodel.exe`) — Unreal Engine packages.
use vstd::prelude::*;
use crate::text::owned;
use super::{cat3, inv, make_invocation, Invocation, InvocationView, WindowMode};

verus! {

/// The argument tokens of the Unreal invocation.
pub open spec fn unreal_args(file_dir: Seq<char>, outdir: Seq<char>) -> Seq<Seq<char>> {
    seq![
        "-export"@,
        "-all"@,
        "-sounds"@,
        "-3rdparty"@,
        "-path=\""@ + file_dir + "\""@,
        "-out=\""@ + outdir + "\""@,
        "*"@,
    ]
}

/// The invocation `Case $TYPE_UNREAL` (UniExtract.au3:3211-3214) makes:
/// `<program> -export -all -sounds -3rdparty -path="<file_dir>"
/// -out="<outdir>" *`, the quotes inside their tokens, run in `outdir`,
/// minimized.
pub fn invocation(program: &str, file_dir: &str, outdir: &str) -> (r: Invocation)
    ensures
        r@ == inv(program@, unreal_args(file_dir@, outdir@), outdir@, WindowMode::Minimized),
{
    let args = vec![
        owned("-export"),
        owned("-all"),
        owned("-sounds"),
        owned("-3rdparty"),
        cat3("-path=\"", file_dir, "\""),
        cat3("-out=\"", outdir, "\""),
        owned("*"),
    ];
    let r = make_invocation(program, args, outdir, WindowMode::Minimized);
    assert(r@.args =~= unreal_args(file_dir@, outdir@));
    r
}

} // verus!
