//! Visionaire Studio 3 (`vis3.exe`-style unpacker) — a two-step run: first
//! generate a names file, then extract using it when it is not empty.
use vstd::prelude::*;
use crate::text::owned;
use super::{cat3, inv, make_invocation, Invocation, InvocationView, WindowMode};

verus! {

/// The first step: `<program> <main_vis_file> /force
/// /generateNames=<outdir>\names.txt`, run in `outdir`, hidden.
pub fn generate_names_invocation(program: &str, main_vis_file: &str, outdir: &str) -> (r: Invocation)
    ensures
        r@ == inv(
            program@,
            seq![main_vis_file@, "/force"@, "/generateNames="@ + outdir@ + "\\names.txt"@],
            outdir@,
            WindowMode::Hidden,
        ),
{
    let args = vec![owned(main_vis_file), owned("/force"), cat3("/generateNames=", outdir, "\\names.txt")];
    let r = make_invocation(program, args, outdir, WindowMode::Hidden);
    assert(r@.args =~= seq![main_vis_file@, "/force"@, "/generateNames="@ + outdir@ + "\\names.txt"@]);
    r
}

/// The extraction step: `<program> <file> /force`, followed by
/// `/names=<outdir>\names.txt` only when the generated names file is not
/// empty (`names_file_size > 0`), run in `outdir`, hidden.
pub fn extract_invocation(program: &str, file: &str, outdir: &str, names_file_size: u64) -> (r: Invocation)
    ensures
        r@ == inv(
            program@,
            if names_file_size > 0 {
                seq![file@, "/force"@, "/names="@ + outdir@ + "\\names.txt"@]
            } else {
                seq![file@, "/force"@]
            },
            outdir@,
            WindowMode::Hidden,
        ),
{
    let mut args = vec![owned(file), owned("/force")];
    if names_file_size > 0 {
        args.push(cat3("/names=", outdir, "\\names.txt"));
    }
    let r = make_invocation(program, args, outdir, WindowMode::Hidden);
    if names_file_size > 0 {
        assert(r@.args =~= seq![file@, "/force"@, "/names="@ + outdir@ + "\\names.txt"@]);
    } else {
        assert(r@.args =~= seq![file@, "/force"@]);
    }
    r
}

} // verus!
