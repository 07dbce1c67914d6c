//! The command-line run: which extractor types it runs, and the
//! invocation and final output directory for one run. Reading the
//! arguments, preparing the directory on disk, running the helper and
//! reporting are the application's.
use vstd::prelude::*;
use crate::extract::table::{ace, format_spec, rgss, Ctx, FormatKind};
use crate::extract::{cat3, Invocation, InvocationView};
use crate::outdir::{reappend_trailing_backslash_after_extraction, strip_trailing_backslash_for_extraction};
use crate::text::str_equal;

verus! {

/// The usage text printed for a malformed command line.
pub const USAGE: &'static str = "usage: rusty_extract <extractor-type> <program> <file> [outdir]\n\n<extractor-type> is one of: rgss, ace (the only extractors this phase wires up)\n<program>        path to the helper binary to invoke\n<file>           the archive to extract\n[outdir]         output directory, or the token /sub (default: a\nsubfolder named after <file>) — /last is not yet\nsupported (no output-directory history in this phase)";

/// The output directory used when the command line names none.
pub const DEFAULT_OUTDIR_ARG: &'static str = "/sub";

/// The message for `/last`, which needs an output-directory history the
/// command line does not keep.
pub const LAST_UNSUPPORTED_MESSAGE: &'static str = "/last requires output-directory history, not yet wired up in this phase";

/// The path whose being a plain file makes a multi-extension `/sub`
/// folder name fall back to underscores: `filedir\stem`.
pub fn collision_candidate(filedir: &str, stem: &str) -> (r: String)
    ensures
        r@ == filedir@ + "\\"@ + stem@,
{
    cat3(filedir, "\\", stem)
}

/// The format the command line runs for an extractor type: `rgss` and
/// `ace` only.
pub open spec fn command_line_kind(extractor_type: Seq<char>) -> Option<FormatKind> {
    if extractor_type == "rgss"@ {
        Some(FormatKind::Rgss)
    } else if extractor_type == "ace"@ {
        Some(FormatKind::Ace)
    } else {
        None
    }
}

/// `outdir` without one trailing backslash, as `extract()` strips it
/// before running the helper.
pub open spec fn stripped_outdir(outdir: Seq<char>) -> Seq<char> {
    if outdir.len() > 0 && outdir.last() == '\\' {
        outdir.drop_last()
    } else {
        outdir
    }
}

/// The context a command-line run builds its invocation from: the
/// program, the file and the stripped output directory, every other
/// field empty.
pub open spec fn command_line_ctx(ctx: Ctx, program: Seq<char>, file: Seq<char>, outdir: Seq<char>) -> bool {
    &&& ctx.program@ == program
    &&& ctx.file@ == file
    &&& ctx.outdir@ == stripped_outdir(outdir)
    &&& ctx.file_dir@.len() == 0
    &&& ctx.tempoutdir@.len() == 0
    &&& ctx.filename@.len() == 0
    &&& ctx.filename_full@.len() == 0
    &&& ctx.dest_path@.len() == 0
    &&& ctx.script_dir@.len() == 0
    &&& ctx.password is None
    &&& !ctx.append_ext
    &&& ctx.game_index == 0
}

/// The message for an extractor type the command line does not run.
pub open spec fn unsupported_type_message(extractor_type: Seq<char>) -> Seq<char> {
    "'"@ + extractor_type + "' is not one of the extractors this phase wires up (rgss, ace)"@
}

/// Plans one command-line run for an already prepared `outdir` (which
/// ends with a backslash): the helper invocation, built with `outdir`'s
/// trailing backslash stripped, and the output directory reported
/// afterwards, with the backslash put back. An extractor type other than
/// `rgss` or `ace` is refused with a message naming it.
pub fn plan_extraction(extractor_type: &str, program: &str, file: &str, outdir: &str) -> (r: Result<(Invocation, String), String>)
    ensures
        match command_line_kind(extractor_type@) {
            Some(k) => match r {
                Ok((invocation, final_outdir)) => (exists|ctx: Ctx|
                    command_line_ctx(ctx, program@, file@, outdir@) && invocation@ == format_spec(k, ctx))
                    && final_outdir@ == stripped_outdir(outdir@) + "\\"@,
                Err(_) => false,
            },
            None => match r {
                Ok(_) => false,
                Err(m) => m@ == unsupported_type_message(extractor_type@),
            },
        },
{
    let is_rgss = str_equal(extractor_type, "rgss");
    let is_ace = str_equal(extractor_type, "ace");
    if !is_rgss && !is_ace {
        return Err(cat3("'", extractor_type, "' is not one of the extractors this phase wires up (rgss, ace)"));
    }
    let stripped = strip_trailing_backslash_for_extraction(outdir);
    let ctx = Ctx {
        program,
        file,
        outdir: stripped.as_str(),
        file_dir: "",
        tempoutdir: "",
        filename: "",
        filename_full: "",
        dest_path: "",
        script_dir: "",
        password: None,
        append_ext: false,
        game_index: 0,
    };
    proof {
        reveal_strlit("");
    }
    let invocation = if is_rgss {
        rgss(&ctx)
    } else {
        ace(&ctx)
    };
    let final_outdir = reappend_trailing_backslash_after_extraction(stripped.as_str());
    Ok((invocation, final_outdir))
}

} // verus!
