//! Table of the extractor formats that each run one helper binary with a
//! fixed argument pattern. One [`Ctx`] carries the inputs every builder may
//! read; one builder per format turns it into that format's
//! [`Invocation`]; [`formats`] ties each format name to its builder.
//!
//! `Ctx` fields are a shared transport: e.g. `filename` is a bare stem for
//! most formats but a full `name.ext` for `uif`, and `file` stands for the
//! overlay file of `xor`. Each builder's doc comment says what it reads.
use vstd::prelude::*;
use crate::text::{decimal, owned, str_equal, u32_to_decimal};
use super::{cat2, cat3, cat4, inv, make_invocation, Invocation, InvocationView, WindowMode};

verus! {

/// Shared inputs a format's invocation builder may read. Fields a format
/// does not use are left at their default (`""`, `None`, `false`, `0`).
#[derive(Debug, Clone, Copy, Default)]
pub struct Ctx<'a> {
    pub program: &'a str,
    pub file: &'a str,
    pub outdir: &'a str,
    pub file_dir: &'a str,
    pub tempoutdir: &'a str,
    pub filename: &'a str,
    pub filename_full: &'a str,
    pub dest_path: &'a str,
    pub script_dir: &'a str,
    pub password: Option<&'a str>,
    pub append_ext: bool,
    pub game_index: u32,
}

/// Which builder a table row runs.
#[derive(Debug, Clone, Copy, PartialEq, Eq, Structural)]
pub enum FormatKind {
    Ace,
    Ai,
    ArcConv,
    Aspack,
    Bcm,
    Bootimg,
    Chdman,
    Cic,
    Daa,
    Ei,
    Extsis,
    Fead,
    Freearc,
    Fsb,
    Garbro,
    Isxunpack,
    Isz,
    Jsmsix,
    Kgb,
    Lessmsi,
    Lzip,
    Lzop,
    Lzx,
    Mole,
    Msiexec,
    Msix,
    Nbh,
    Rar,
    Rgss,
    Rpa,
    Sfark,
    Sqlite,
    Superdat,
    Ttarch,
    Uharc,
    Uif,
    Unreal,
    Unzip,
    Upx,
    Wix,
    Wolf,
    Xor,
    Zoo,
    Zpaq,
    Mscf,
}

/// One table row: a format name, its AutoIt source-line provenance, and
/// the builder that turns a [`Ctx`] into that format's [`Invocation`].
#[derive(Debug, Clone, Copy)]
pub struct FormatEntry {
    pub name: &'static str,
    pub citation: &'static str,
    pub build: FormatKind,
}

/// The invocation each builder produces from `ctx`.
pub open spec fn format_spec(kind: FormatKind, ctx: Ctx) -> InvocationView {
    match kind {
        FormatKind::Ace => inv(ctx.program@, seq!["-x"@, "-v"@, "-d"@, ctx.outdir@, ctx.file@], ctx.outdir@, WindowMode::Hidden),
        FormatKind::Ai => inv(ctx.file@, seq!["/extract:"@ + ctx.outdir@], ctx.outdir@, WindowMode::Show),
        FormatKind::ArcConv => inv(ctx.program@, seq![ctx.file@], ctx.outdir@, WindowMode::Hidden),
        FormatKind::Aspack => inv(ctx.program@, seq![ctx.file@, ctx.dest_path@, "/NO_PROMPT"@], ctx.file_dir@, WindowMode::Minimized),
        FormatKind::Bcm => inv(ctx.program@, seq!["-d"@, ctx.file@, ctx.outdir@ + "\\"@ + ctx.filename@], ctx.file_dir@, WindowMode::Hidden),
        FormatKind::Bootimg => inv(ctx.program@, seq!["--unpack-bootimg"@], ctx.outdir@, WindowMode::Minimized),
        FormatKind::Chdman => inv(ctx.program@, seq!["extracthd"@, "-i"@, ctx.file@, "-o"@, ctx.outdir@ + "\\"@ + ctx.filename@ + ".img"@], ctx.outdir@, WindowMode::Minimized),
        FormatKind::Cic => inv(ctx.program@, seq!["-db"@, ctx.file@, ctx.outdir@], ctx.file_dir@, WindowMode::Hidden),
        FormatKind::Daa => inv(ctx.program@, seq![ctx.file@, ctx.outdir@ + "\\"@ + ctx.filename@ + ".iso"@], ctx.outdir@, WindowMode::Minimized),
        FormatKind::Ei => inv(ctx.file@, seq!["/batch"@, "/no-reg"@, "/no-postinstall"@, "/dest"@, ctx.outdir@], ctx.outdir@, WindowMode::Show),
        FormatKind::Extsis => inv(ctx.program@, seq!["-x"@, "-xcsd"@, ctx.file@, "-d"@, ctx.tempoutdir@], ctx.tempoutdir@, WindowMode::Minimized),
        FormatKind::Fead => inv(ctx.file@, seq!["/s"@, "-nos_ne"@, "-nos_o"@ + ctx.tempoutdir@ + "\\"@], ctx.file_dir@, WindowMode::Show),
        FormatKind::Freearc => inv(ctx.program@, seq!["x"@, "-dp\""@ + ctx.outdir@ + "\""@, ctx.file@], ctx.file_dir@, WindowMode::Hidden),
        FormatKind::Fsb => inv(ctx.program@, seq!["-o"@, "-1"@, "-A"@, "-d"@, ctx.outdir@, ctx.file@], ctx.file_dir@, WindowMode::Minimized),
        FormatKind::Garbro => inv(ctx.program@, seq!["x"@, "-ocu"@, "-if"@, "png"@, "-o"@, ctx.outdir@, ctx.file@], ctx.outdir@, WindowMode::Minimized),
        FormatKind::Isxunpack => inv(ctx.program@, seq![ctx.outdir@ + "\\"@ + ctx.filename_full@], ctx.outdir@, WindowMode::Show),
        FormatKind::Isz => inv(ctx.program@, seq![ctx.file@], ctx.tempoutdir@, WindowMode::Show),
        FormatKind::Jsmsix => inv(ctx.program@, seq![ctx.file@ + "|"@ + ctx.outdir@], ctx.file_dir@, WindowMode::Hidden),
        FormatKind::Kgb => inv(ctx.program@, seq![ctx.file@], ctx.outdir@, WindowMode::Minimized),
        FormatKind::Lessmsi => inv(ctx.program@, seq!["x"@, ctx.file@, ctx.outdir@ + "\\"@], ctx.outdir@, WindowMode::Hidden),
        FormatKind::Lzip => inv(ctx.program@, seq!["-d"@, "-k"@, "-v"@, "-v"@, ctx.file@], ctx.tempoutdir@, WindowMode::Show),
        FormatKind::Lzop => inv(ctx.program@, seq!["-d"@, "-p\""@ + ctx.outdir@ + "\""@, ctx.file@], ctx.file_dir@, WindowMode::Minimized),
        FormatKind::Lzx => inv(ctx.program@, seq!["-x"@, ctx.file@], ctx.outdir@, WindowMode::Minimized),
        FormatKind::Mole => inv(ctx.program@, seq!["/nogui"@, ctx.file@], ctx.outdir@, WindowMode::Hidden),
        FormatKind::Msiexec => inv("msiexec.exe"@, seq!["/a"@, ctx.file@, "/qb"@, "TARGETDIR="@ + ctx.outdir@], ctx.file_dir@, WindowMode::Show),
        FormatKind::Msix => inv(ctx.program@, if ctx.append_ext { seq![ctx.file@, "/out"@, ctx.outdir@, "/ext"@] } else { seq![ctx.file@, "/out"@, ctx.outdir@] }, ctx.file_dir@, WindowMode::Minimized),
        FormatKind::Nbh => inv(ctx.program@, seq![ctx.file@], ctx.outdir@, WindowMode::Show),
        FormatKind::Rar => inv(ctx.program@, match ctx.password { Some(p) => seq!["x"@, "-kb"@, "-p"@ + p@, ctx.file@], None => seq!["x"@, "-kb"@, ctx.file@] }, ctx.outdir@, WindowMode::Show),
        FormatKind::Rgss => inv(ctx.program@, seq!["-p"@, "-o="@ + ctx.outdir@, ctx.file@], ctx.outdir@, WindowMode::Hidden),
        FormatKind::Rpa => inv(ctx.program@, seq!["-m"@, "-v"@, "--continue-on-error"@, "-p"@, ctx.outdir@, ctx.file@], ctx.script_dir@, WindowMode::Show),
        FormatKind::Sfark => inv(ctx.program@, seq![ctx.file@, ctx.outdir@ + "\\"@ + ctx.filename@ + ".sf2"@], ctx.file_dir@, WindowMode::Show),
        FormatKind::Sqlite => inv(ctx.program@, seq![ctx.file@, ".dump"@], ctx.file_dir@, WindowMode::Hidden),
        FormatKind::Superdat => inv(ctx.file@, seq!["/LOGFILE"@, ctx.outdir@ + "\\SuperDAT.log"@, "/e"@, ctx.outdir@], ctx.outdir@, WindowMode::Show),
        FormatKind::Ttarch => inv(ctx.program@, seq!["-m"@, decimal(ctx.game_index as nat), ctx.file@, ctx.outdir@], ctx.outdir@, WindowMode::Hidden),
        FormatKind::Uharc => inv(ctx.program@, seq!["x"@, "-t"@ + ctx.outdir@, ctx.file@], ctx.outdir@, WindowMode::Minimized),
        FormatKind::Uif => inv(ctx.program@, seq![ctx.file@, ctx.outdir@ + "\\"@ + ctx.filename@], ctx.file_dir@, WindowMode::Show),
        FormatKind::Unreal => inv(ctx.program@, seq!["-export"@, "-all"@, "-sounds"@, "-3rdparty"@, "-path=\""@ + ctx.file_dir@ + "\""@, "-out=\""@ + ctx.outdir@ + "\""@, "*"@], ctx.outdir@, WindowMode::Minimized),
        FormatKind::Unzip => inv(ctx.program@, seq!["-x"@, ctx.file@], ctx.outdir@, WindowMode::Minimized),
        FormatKind::Upx => inv(ctx.program@, seq!["-d"@, "-k"@, ctx.file@], ctx.file_dir@, WindowMode::Minimized),
        FormatKind::Wix => inv(ctx.program@, seq!["-x"@, ctx.outdir@, ctx.file@], ctx.outdir@, WindowMode::Minimized),
        FormatKind::Wolf => inv(ctx.program@, seq![ctx.file@], ctx.outdir@, WindowMode::Minimized),
        FormatKind::Xor => inv(ctx.program@, seq![ctx.file@, ctx.outdir@ + "\\"@ + ctx.filename@ + ".cab"@, "0x8D"@], ctx.outdir@, WindowMode::Minimized),
        FormatKind::Zoo => inv(ctx.program@, seq!["-x"@, ctx.filename_full@], ctx.tempoutdir@, WindowMode::Hidden),
        FormatKind::Zpaq => inv(ctx.program@, seq!["x"@, ctx.file@, "-to"@, ctx.outdir@], ctx.outdir@, WindowMode::Show),
        FormatKind::Mscf => inv(ctx.program@, seq!["x"@, ctx.file@], ctx.tempoutdir@, WindowMode::Hidden),
    }
}

/// UniExtract.au3:2346-2349 — acefile: `-x -v -d <outdir> <file>`, in `outdir`, hidden.
pub fn ace(ctx: &Ctx) -> (r: Invocation)
    ensures
        r@ == format_spec(FormatKind::Ace, *ctx),
{
    let args = vec![owned("-x"), owned("-v"), owned("-d"), owned(ctx.outdir), owned(ctx.file)];
    let r = make_invocation(ctx.program, args, ctx.outdir, WindowMode::Hidden);
    assert(r@.args =~= format_spec(FormatKind::Ace, *ctx).args);
    r
}

/// UniExtract.au3:2385-2390 — Advanced Installer self-extraction: `<file> /extract:<outdir>`, the program is `file` itself, in `outdir`, shown.
pub fn ai(ctx: &Ctx) -> (r: Invocation)
    ensures
        r@ == format_spec(FormatKind::Ai, *ctx),
{
    let args = vec![cat2("/extract:", ctx.outdir)];
    let r = make_invocation(ctx.file, args, ctx.outdir, WindowMode::Show);
    assert(r@.args =~= format_spec(FormatKind::Ai, *ctx).args);
    r
}

/// UniExtract.au3:2394 — arc_conv: `<file>`, in `outdir`, hidden.
pub fn arc_conv(ctx: &Ctx) -> (r: Invocation)
    ensures
        r@ == format_spec(FormatKind::ArcConv, *ctx),
{
    let args = vec![owned(ctx.file)];
    let r = make_invocation(ctx.program, args, ctx.outdir, WindowMode::Hidden);
    assert(r@.args =~= format_spec(FormatKind::ArcConv, *ctx).args);
    r
}

/// UniExtract.au3:3624-3625 — AspackDie: `<file> <dest_path> /NO_PROMPT`, in `file_dir`, minimized.
pub fn aspack(ctx: &Ctx) -> (r: Invocation)
    ensures
        r@ == format_spec(FormatKind::Aspack, *ctx),
{
    let args = vec![owned(ctx.file), owned(ctx.dest_path), owned("/NO_PROMPT")];
    let r = make_invocation(ctx.program, args, ctx.file_dir, WindowMode::Minimized);
    assert(r@.args =~= format_spec(FormatKind::Aspack, *ctx).args);
    r
}

/// UniExtract.au3:2418-2419 — bcm: `-d <file> <outdir>\<filename>` (`filename` is the stem), in `file_dir`, hidden.
pub fn bcm(ctx: &Ctx) -> (r: Invocation)
    ensures
        r@ == format_spec(FormatKind::Bcm, *ctx),
{
    let args = vec![owned("-d"), owned(ctx.file), cat3(ctx.outdir, "\\", ctx.filename)];
    let r = make_invocation(ctx.program, args, ctx.file_dir, WindowMode::Hidden);
    assert(r@.args =~= format_spec(FormatKind::Bcm, *ctx).args);
    r
}

/// UniExtract.au3:2421-2429 — bootimg: `--unpack-bootimg` (it works on `boot.img` in its own working directory), in `outdir`, minimized.
pub fn bootimg(ctx: &Ctx) -> (r: Invocation)
    ensures
        r@ == format_spec(FormatKind::Bootimg, *ctx),
{
    let args = vec![owned("--unpack-bootimg")];
    let r = make_invocation(ctx.program, args, ctx.outdir, WindowMode::Minimized);
    assert(r@.args =~= format_spec(FormatKind::Bootimg, *ctx).args);
    r
}

/// UniExtract.au3:2441-2442 — chdman: `extracthd -i <file> -o <outdir>\<filename>.img` (`filename` is the stem), in `outdir`, minimized.
pub fn chdman(ctx: &Ctx) -> (r: Invocation)
    ensures
        r@ == format_spec(FormatKind::Chdman, *ctx),
{
    let args = vec![owned("extracthd"), owned("-i"), owned(ctx.file), owned("-o"), cat4(ctx.outdir, "\\", ctx.filename, ".img")];
    let r = make_invocation(ctx.program, args, ctx.outdir, WindowMode::Minimized);
    assert(r@.args =~= format_spec(FormatKind::Chdman, *ctx).args);
    r
}

/// UniExtract.au3:2472-2475 — cicdec: `-db <file> <outdir>`, in `file_dir`, hidden.
pub fn cic(ctx: &Ctx) -> (r: Invocation)
    ensures
        r@ == format_spec(FormatKind::Cic, *ctx),
{
    let args = vec![owned("-db"), owned(ctx.file), owned(ctx.outdir)];
    let r = make_invocation(ctx.program, args, ctx.file_dir, WindowMode::Hidden);
    assert(r@.args =~= format_spec(FormatKind::Cic, *ctx).args);
    r
}

/// UniExtract.au3:2505-2508 — daa2iso: `<file> <outdir>\<filename>.iso`, in `outdir`, minimized; no check for an existing target.
pub fn daa(ctx: &Ctx) -> (r: Invocation)
    ensures
        r@ == format_spec(FormatKind::Daa, *ctx),
{
    let args = vec![owned(ctx.file), cat4(ctx.outdir, "\\", ctx.filename, ".iso")];
    let r = make_invocation(ctx.program, args, ctx.outdir, WindowMode::Minimized);
    assert(r@.args =~= format_spec(FormatKind::Daa, *ctx).args);
    r
}

/// UniExtract.au3:2514-2516 — Excelsior Installer self-extraction: `<file> /batch /no-reg /no-postinstall /dest <outdir>`, the program is `file` itself, in `outdir`, shown.
pub fn ei(ctx: &Ctx) -> (r: Invocation)
    ensures
        r@ == format_spec(FormatKind::Ei, *ctx),
{
    let args = vec![owned("/batch"), owned("/no-reg"), owned("/no-postinstall"), owned("/dest"), owned(ctx.outdir)];
    let r = make_invocation(ctx.file, args, ctx.outdir, WindowMode::Show);
    assert(r@.args =~= format_spec(FormatKind::Ei, *ctx).args);
    r
}

/// UniExtract.au3:3026 — extsis: `-x -xcsd <file> -d <tempoutdir>`, in `tempoutdir`, minimized.
pub fn extsis(ctx: &Ctx) -> (r: Invocation)
    ensures
        r@ == format_spec(FormatKind::Extsis, *ctx),
{
    let args = vec![owned("-x"), owned("-xcsd"), owned(ctx.file), owned("-d"), owned(ctx.tempoutdir)];
    let r = make_invocation(ctx.program, args, ctx.tempoutdir, WindowMode::Minimized);
    assert(r@.args =~= format_spec(FormatKind::Extsis, *ctx).args);
    r
}

/// UniExtract.au3:2530-2536 — Netopsystems FEAD self-extraction: `<file> /s -nos_ne -nos_o<tempoutdir>\`, the program is `file` itself, in `file_dir`, shown.
pub fn fead(ctx: &Ctx) -> (r: Invocation)
    ensures
        r@ == format_spec(FormatKind::Fead, *ctx),
{
    let args = vec![owned("/s"), owned("-nos_ne"), cat3("-nos_o", ctx.tempoutdir, "\\")];
    let r = make_invocation(ctx.file, args, ctx.file_dir, WindowMode::Show);
    assert(r@.args =~= format_spec(FormatKind::Fead, *ctx).args);
    r
}

/// UniExtract.au3:2556-2557 — unarc (FreeArc): `x -dp"<outdir>" <file>` with the quotes inside the one token, in `file_dir`, hidden.
pub fn freearc(ctx: &Ctx) -> (r: Invocation)
    ensures
        r@ == format_spec(FormatKind::Freearc, *ctx),
{
    let args = vec![owned("x"), cat3("-dp\"", ctx.outdir, "\""), owned(ctx.file)];
    let r = make_invocation(ctx.program, args, ctx.file_dir, WindowMode::Hidden);
    assert(r@.args =~= format_spec(FormatKind::Freearc, *ctx).args);
    r
}

/// UniExtract.au3:2559-2562 — fsbext: `-o -1 -A -d <outdir> <file>`, in `file_dir`, minimized.
pub fn fsb(ctx: &Ctx) -> (r: Invocation)
    ensures
        r@ == format_spec(FormatKind::Fsb, *ctx),
{
    let args = vec![owned("-o"), owned("-1"), owned("-A"), owned("-d"), owned(ctx.outdir), owned(ctx.file)];
    let r = make_invocation(ctx.program, args, ctx.file_dir, WindowMode::Minimized);
    assert(r@.args =~= format_spec(FormatKind::Fsb, *ctx).args);
    r
}

/// UniExtract.au3:2565-2566 — GARbro.Console: `x -ocu -if png -o <outdir> <file>`, in `outdir`, minimized.
pub fn garbro(ctx: &Ctx) -> (r: Invocation)
    ensures
        r@ == format_spec(FormatKind::Garbro, *ctx),
{
    let args = vec![owned("x"), owned("-ocu"), owned("-if"), owned("png"), owned("-o"), owned(ctx.outdir), owned(ctx.file)];
    let r = make_invocation(ctx.program, args, ctx.outdir, WindowMode::Minimized);
    assert(r@.args =~= format_spec(FormatKind::Garbro, *ctx).args);
    r
}

/// UniExtract.au3:2711 — IsXunpack: `<outdir>\<filename_full>`, in `outdir`, shown.
pub fn isxunpack(ctx: &Ctx) -> (r: Invocation)
    ensures
        r@ == format_spec(FormatKind::Isxunpack, *ctx),
{
    let args = vec![cat3(ctx.outdir, "\\", ctx.filename_full)];
    let r = make_invocation(ctx.program, args, ctx.outdir, WindowMode::Show);
    assert(r@.args =~= format_spec(FormatKind::Isxunpack, *ctx).args);
    r
}

/// UniExtract.au3:2775-2778 — unisz: `<file>`, in `tempoutdir`, shown.
pub fn isz(ctx: &Ctx) -> (r: Invocation)
    ensures
        r@ == format_spec(FormatKind::Isz, *ctx),
{
    let args = vec![owned(ctx.file)];
    let r = make_invocation(ctx.program, args, ctx.tempoutdir, WindowMode::Show);
    assert(r@.args =~= format_spec(FormatKind::Isz, *ctx).args);
    r
}

/// UniExtract.au3:2858 — jsMSIx: `<file>|<outdir>` as one token, in `file_dir`, hidden.
pub fn jsmsix(ctx: &Ctx) -> (r: Invocation)
    ensures
        r@ == format_spec(FormatKind::Jsmsix, *ctx),
{
    let args = vec![cat3(ctx.file, "|", ctx.outdir)];
    let r = make_invocation(ctx.program, args, ctx.file_dir, WindowMode::Hidden);
    assert(r@.args =~= format_spec(FormatKind::Jsmsix, *ctx).args);
    r
}

/// UniExtract.au3:2780-2781 — kgb2_console: `<file>`, in `outdir`, minimized.
pub fn kgb(ctx: &Ctx) -> (r: Invocation)
    ensures
        r@ == format_spec(FormatKind::Kgb, *ctx),
{
    let args = vec![owned(ctx.file)];
    let r = make_invocation(ctx.program, args, ctx.outdir, WindowMode::Minimized);
    assert(r@.args =~= format_spec(FormatKind::Kgb, *ctx).args);
    r
}

/// UniExtract.au3:2843-2845 — lessmsi: `x <file> <outdir>\`, in `outdir`, hidden.
pub fn lessmsi(ctx: &Ctx) -> (r: Invocation)
    ensures
        r@ == format_spec(FormatKind::Lessmsi, *ctx),
{
    let args = vec![owned("x"), owned(ctx.file), cat2(ctx.outdir, "\\")];
    let r = make_invocation(ctx.program, args, ctx.outdir, WindowMode::Hidden);
    assert(r@.args =~= format_spec(FormatKind::Lessmsi, *ctx).args);
    r
}

/// UniExtract.au3:2783-2784 — lzip: `-d -k -v -v <file>`, in `tempoutdir`, shown.
pub fn lzip(ctx: &Ctx) -> (r: Invocation)
    ensures
        r@ == format_spec(FormatKind::Lzip, *ctx),
{
    let args = vec![owned("-d"), owned("-k"), owned("-v"), owned("-v"), owned(ctx.file)];
    let r = make_invocation(ctx.program, args, ctx.tempoutdir, WindowMode::Show);
    assert(r@.args =~= format_spec(FormatKind::Lzip, *ctx).args);
    r
}

/// UniExtract.au3:2786-2787 — lzop: `-d -p"<outdir>" <file>`, in `file_dir`, minimized.
pub fn lzop(ctx: &Ctx) -> (r: Invocation)
    ensures
        r@ == format_spec(FormatKind::Lzop, *ctx),
{
    let args = vec![owned("-d"), cat3("-p\"", ctx.outdir, "\""), owned(ctx.file)];
    let r = make_invocation(ctx.program, args, ctx.file_dir, WindowMode::Minimized);
    assert(r@.args =~= format_spec(FormatKind::Lzop, *ctx).args);
    r
}

/// UniExtract.au3:2789-2790 — unlzx: `-x <file>`, in `outdir`, minimized.
pub fn lzx(ctx: &Ctx) -> (r: Invocation)
    ensures
        r@ == format_spec(FormatKind::Lzx, *ctx),
{
    let args = vec![owned("-x"), owned(ctx.file)];
    let r = make_invocation(ctx.program, args, ctx.outdir, WindowMode::Minimized);
    assert(r@.args =~= format_spec(FormatKind::Lzx, *ctx).args);
    r
}

/// UniExtract.au3:2792-2811 — demoleition: `/nogui <file>`, in `outdir`, hidden.
pub fn mole(ctx: &Ctx) -> (r: Invocation)
    ensures
        r@ == format_spec(FormatKind::Mole, *ctx),
{
    let args = vec![owned("/nogui"), owned(ctx.file)];
    let r = make_invocation(ctx.program, args, ctx.outdir, WindowMode::Hidden);
    assert(r@.args =~= format_spec(FormatKind::Mole, *ctx).args);
    r
}

/// UniExtract.au3:2882-2883 — msiexec administrative install: `msiexec.exe /a <file> /qb TARGETDIR=<outdir>`, the program is the literal `msiexec.exe`, in `file_dir`, shown.
pub fn msiexec(ctx: &Ctx) -> (r: Invocation)
    ensures
        r@ == format_spec(FormatKind::Msiexec, *ctx),
{
    let args = vec![owned("/a"), owned(ctx.file), owned("/qb"), cat2("TARGETDIR=", ctx.outdir)];
    let r = make_invocation("msiexec.exe", args, ctx.file_dir, WindowMode::Show);
    assert(r@.args =~= format_spec(FormatKind::Msiexec, *ctx).args);
    r
}

/// UniExtract.au3:2862-2864,2887-2889,2907-2908 — MsiX: `<file> /out <outdir>` followed by `/ext` when `append_ext` is set, in `file_dir`, minimized.
pub fn msix(ctx: &Ctx) -> (r: Invocation)
    ensures
        r@ == format_spec(FormatKind::Msix, *ctx),
{
    let mut args = vec![owned(ctx.file), owned("/out"), owned(ctx.outdir)];
    if ctx.append_ext {
        args.push(owned("/ext"));
    }
    let r = make_invocation(ctx.program, args, ctx.file_dir, WindowMode::Minimized);
    assert(r@.args =~= format_spec(FormatKind::Msix, *ctx).args);
    r
}

/// UniExtract.au3:2952-2953 — NBHextract: `<file>`, in `outdir`, shown.
pub fn nbh(ctx: &Ctx) -> (r: Invocation)
    ensures
        r@ == format_spec(FormatKind::Nbh, *ctx),
{
    let args = vec![owned(ctx.file)];
    let r = make_invocation(ctx.program, args, ctx.outdir, WindowMode::Show);
    assert(r@.args =~= format_spec(FormatKind::Nbh, *ctx).args);
    r
}

/// UniExtract.au3:3005 — UnRAR: `x -kb`, then `-p<password>` as one token when a password is given, then `<file>`, in `outdir`, shown.
pub fn rar(ctx: &Ctx) -> (r: Invocation)
    ensures
        r@ == format_spec(FormatKind::Rar, *ctx),
{
    let mut args = vec![owned("x"), owned("-kb")];
    if let Some(password) = ctx.password {
        args.push(cat2("-p", password));
    }
    args.push(owned(ctx.file));
    let r = make_invocation(ctx.program, args, ctx.outdir, WindowMode::Show);
    assert(r@.args =~= format_spec(FormatKind::Rar, *ctx).args);
    r
}

/// UniExtract.au3:3009-3011 — RgssDecrypter: `-p -o=<outdir> <file>`, in `outdir`, hidden.
pub fn rgss(ctx: &Ctx) -> (r: Invocation)
    ensures
        r@ == format_spec(FormatKind::Rgss, *ctx),
{
    let args = vec![owned("-p"), cat2("-o=", ctx.outdir), owned(ctx.file)];
    let r = make_invocation(ctx.program, args, ctx.outdir, WindowMode::Hidden);
    assert(r@.args =~= format_spec(FormatKind::Rgss, *ctx).args);
    r
}

/// UniExtract.au3:3016-3017 — unrpa: `-m -v --continue-on-error -p <outdir> <file>`, in `script_dir`, shown.
pub fn rpa(ctx: &Ctx) -> (r: Invocation)
    ensures
        r@ == format_spec(FormatKind::Rpa, *ctx),
{
    let args = vec![owned("-m"), owned("-v"), owned("--continue-on-error"), owned("-p"), owned(ctx.outdir), owned(ctx.file)];
    let r = make_invocation(ctx.program, args, ctx.script_dir, WindowMode::Show);
    assert(r@.args =~= format_spec(FormatKind::Rpa, *ctx).args);
    r
}

/// UniExtract.au3:3019-3020 — sfarkxtc: `<file> <outdir>\<filename>.sf2` (`filename` is the stem), in `file_dir`, shown.
pub fn sfark(ctx: &Ctx) -> (r: Invocation)
    ensures
        r@ == format_spec(FormatKind::Sfark, *ctx),
{
    let args = vec![owned(ctx.file), cat4(ctx.outdir, "\\", ctx.filename, ".sf2")];
    let r = make_invocation(ctx.program, args, ctx.file_dir, WindowMode::Show);
    assert(r@.args =~= format_spec(FormatKind::Sfark, *ctx).args);
    r
}

/// UniExtract.au3:3032-3033 — sqlite3: `<file> .dump`, in `file_dir`, hidden.
pub fn sqlite(ctx: &Ctx) -> (r: Invocation)
    ensures
        r@ == format_spec(FormatKind::Sqlite, *ctx),
{
    let args = vec![owned(ctx.file), owned(".dump")];
    let r = make_invocation(ctx.program, args, ctx.file_dir, WindowMode::Hidden);
    assert(r@.args =~= format_spec(FormatKind::Sqlite, *ctx).args);
    r
}

/// UniExtract.au3:3038-3043 — SuperDAT Updater self-extraction: `<file> /LOGFILE <outdir>\SuperDAT.log /e <outdir>`, the program is `file` itself, in `outdir`, shown.
pub fn superdat(ctx: &Ctx) -> (r: Invocation)
    ensures
        r@ == format_spec(FormatKind::Superdat, *ctx),
{
    let args = vec![owned("/LOGFILE"), cat2(ctx.outdir, "\\SuperDAT.log"), owned("/e"), owned(ctx.outdir)];
    let r = make_invocation(ctx.file, args, ctx.outdir, WindowMode::Show);
    assert(r@.args =~= format_spec(FormatKind::Superdat, *ctx).args);
    r
}

/// UniExtract.au3:3147 — ttarchext: `-m <game_index> <file> <outdir>` with `game_index` in decimal, in `outdir`, hidden.
pub fn ttarch(ctx: &Ctx) -> (r: Invocation)
    ensures
        r@ == format_spec(FormatKind::Ttarch, *ctx),
{
    let args = vec![owned("-m"), u32_to_decimal(ctx.game_index), owned(ctx.file), owned(ctx.outdir)];
    let r = make_invocation(ctx.program, args, ctx.outdir, WindowMode::Hidden);
    assert(r@.args =~= format_spec(FormatKind::Ttarch, *ctx).args);
    r
}

/// UniExtract.au3:3154 — UHARC (all three attempts of the fallback chain): `x -t<outdir> <file>`, in `outdir`, minimized.
pub fn uharc(ctx: &Ctx) -> (r: Invocation)
    ensures
        r@ == format_spec(FormatKind::Uharc, *ctx),
{
    let args = vec![owned("x"), cat2("-t", ctx.outdir), owned(ctx.file)];
    let r = make_invocation(ctx.program, args, ctx.outdir, WindowMode::Minimized);
    assert(r@.args =~= format_spec(FormatKind::Uharc, *ctx).args);
    r
}

/// UniExtract.au3:3161-3163 — uif2iso: `<file> <outdir>\<filename>` (`filename` is a full `name.ext`), in `file_dir`, shown.
pub fn uif(ctx: &Ctx) -> (r: Invocation)
    ensures
        r@ == format_spec(FormatKind::Uif, *ctx),
{
    let args = vec![owned(ctx.file), cat3(ctx.outdir, "\\", ctx.filename)];
    let r = make_invocation(ctx.program, args, ctx.file_dir, WindowMode::Show);
    assert(r@.args =~= format_spec(FormatKind::Uif, *ctx).args);
    r
}

/// UniExtract.au3:3211-3214 — umodel: `-export -all -sounds -3rdparty -path="<file_dir>" -out="<outdir>" *`, in `outdir`, minimized.
pub fn unreal(ctx: &Ctx) -> (r: Invocation)
    ensures
        r@ == format_spec(FormatKind::Unreal, *ctx),
{
    let args = vec![owned("-export"), owned("-all"), owned("-sounds"), owned("-3rdparty"), cat3("-path=\"", ctx.file_dir, "\""), cat3("-out=\"", ctx.outdir, "\""), owned("*")];
    let r = make_invocation(ctx.program, args, ctx.outdir, WindowMode::Minimized);
    assert(r@.args =~= format_spec(FormatKind::Unreal, *ctx).args);
    r
}

/// UniExtract.au3:3384-3388 — Info-ZIP unzip: `-x <file>`, in `outdir`, minimized.
pub fn unzip(ctx: &Ctx) -> (r: Invocation)
    ensures
        r@ == format_spec(FormatKind::Unzip, *ctx),
{
    let args = vec![owned("-x"), owned(ctx.file)];
    let r = make_invocation(ctx.program, args, ctx.outdir, WindowMode::Minimized);
    assert(r@.args =~= format_spec(FormatKind::Unzip, *ctx).args);
    r
}

/// UniExtract.au3:3617-3623 — upx: `-d -k <file>`, in `file_dir`, minimized.
pub fn upx(ctx: &Ctx) -> (r: Invocation)
    ensures
        r@ == format_spec(FormatKind::Upx, *ctx),
{
    let args = vec![owned("-d"), owned("-k"), owned(ctx.file)];
    let r = make_invocation(ctx.program, args, ctx.file_dir, WindowMode::Minimized);
    assert(r@.args =~= format_spec(FormatKind::Upx, *ctx).args);
    r
}

/// UniExtract.au3:3373-3375 — dark (WiX Toolset): `-x <outdir> <file>`, in `outdir`, minimized.
pub fn wix(ctx: &Ctx) -> (r: Invocation)
    ensures
        r@ == format_spec(FormatKind::Wix, *ctx),
{
    let args = vec![owned("-x"), owned(ctx.outdir), owned(ctx.file)];
    let r = make_invocation(ctx.program, args, ctx.outdir, WindowMode::Minimized);
    assert(r@.args =~= format_spec(FormatKind::Wix, *ctx).args);
    r
}

/// UniExtract.au3:3377-3382 — WolfDec: `<file>`, in `outdir`, minimized.
pub fn wolf(ctx: &Ctx) -> (r: Invocation)
    ensures
        r@ == format_spec(FormatKind::Wolf, *ctx),
{
    let args = vec![owned(ctx.file)];
    let r = make_invocation(ctx.program, args, ctx.outdir, WindowMode::Minimized);
    assert(r@.args =~= format_spec(FormatKind::Wolf, *ctx).args);
    r
}

/// UniExtract.au3:2598 — xor (Ghost Installer helper): `<file> <outdir>\<filename>.cab 0x8D` with `file` the overlay file, in `outdir`, minimized.
pub fn xor(ctx: &Ctx) -> (r: Invocation)
    ensures
        r@ == format_spec(FormatKind::Xor, *ctx),
{
    let args = vec![owned(ctx.file), cat4(ctx.outdir, "\\", ctx.filename, ".cab"), owned("0x8D")];
    let r = make_invocation(ctx.program, args, ctx.outdir, WindowMode::Minimized);
    assert(r@.args =~= format_spec(FormatKind::Xor, *ctx).args);
    r
}

/// UniExtract.au3:3390-3394 — unzoo: `-x <filename_full>`, in `tempoutdir`, hidden.
pub fn zoo(ctx: &Ctx) -> (r: Invocation)
    ensures
        r@ == format_spec(FormatKind::Zoo, *ctx),
{
    let args = vec![owned("-x"), owned(ctx.filename_full)];
    let r = make_invocation(ctx.program, args, ctx.tempoutdir, WindowMode::Hidden);
    assert(r@.args =~= format_spec(FormatKind::Zoo, *ctx).args);
    r
}

/// UniExtract.au3:3396-3399 — zpaq: `x <file> -to <outdir>`, in `outdir`, shown.
pub fn zpaq(ctx: &Ctx) -> (r: Invocation)
    ensures
        r@ == format_spec(FormatKind::Zpaq, *ctx),
{
    let args = vec![owned("x"), owned(ctx.file), owned("-to"), owned(ctx.outdir)];
    let r = make_invocation(ctx.program, args, ctx.outdir, WindowMode::Show);
    assert(r@.args =~= format_spec(FormatKind::Zpaq, *ctx).args);
    r
}

/// UniExtract.au3:2827 — 7-Zip on one cabinet inside `$TYPE_MSCF`: `x <file>` with `file` the cabinet, in `tempoutdir`, hidden.
pub fn mscf(ctx: &Ctx) -> (r: Invocation)
    ensures
        r@ == format_spec(FormatKind::Mscf, *ctx),
{
    let args = vec![owned("x"), owned(ctx.file)];
    let r = make_invocation(ctx.program, args, ctx.tempoutdir, WindowMode::Hidden);
    assert(r@.args =~= format_spec(FormatKind::Mscf, *ctx).args);
    r
}

impl FormatKind {
    /// Runs this builder against `ctx`.
    pub fn apply(&self, ctx: &Ctx) -> (r: Invocation)
        ensures
            r@ == format_spec(*self, *ctx),
    {
        match self {
            FormatKind::Ace => ace(ctx),
            FormatKind::Ai => ai(ctx),
            FormatKind::ArcConv => arc_conv(ctx),
            FormatKind::Aspack => aspack(ctx),
            FormatKind::Bcm => bcm(ctx),
            FormatKind::Bootimg => bootimg(ctx),
            FormatKind::Chdman => chdman(ctx),
            FormatKind::Cic => cic(ctx),
            FormatKind::Daa => daa(ctx),
            FormatKind::Ei => ei(ctx),
            FormatKind::Extsis => extsis(ctx),
            FormatKind::Fead => fead(ctx),
            FormatKind::Freearc => freearc(ctx),
            FormatKind::Fsb => fsb(ctx),
            FormatKind::Garbro => garbro(ctx),
            FormatKind::Isxunpack => isxunpack(ctx),
            FormatKind::Isz => isz(ctx),
            FormatKind::Jsmsix => jsmsix(ctx),
            FormatKind::Kgb => kgb(ctx),
            FormatKind::Lessmsi => lessmsi(ctx),
            FormatKind::Lzip => lzip(ctx),
            FormatKind::Lzop => lzop(ctx),
            FormatKind::Lzx => lzx(ctx),
            FormatKind::Mole => mole(ctx),
            FormatKind::Msiexec => msiexec(ctx),
            FormatKind::Msix => msix(ctx),
            FormatKind::Nbh => nbh(ctx),
            FormatKind::Rar => rar(ctx),
            FormatKind::Rgss => rgss(ctx),
            FormatKind::Rpa => rpa(ctx),
            FormatKind::Sfark => sfark(ctx),
            FormatKind::Sqlite => sqlite(ctx),
            FormatKind::Superdat => superdat(ctx),
            FormatKind::Ttarch => ttarch(ctx),
            FormatKind::Uharc => uharc(ctx),
            FormatKind::Uif => uif(ctx),
            FormatKind::Unreal => unreal(ctx),
            FormatKind::Unzip => unzip(ctx),
            FormatKind::Upx => upx(ctx),
            FormatKind::Wix => wix(ctx),
            FormatKind::Wolf => wolf(ctx),
            FormatKind::Xor => xor(ctx),
            FormatKind::Zoo => zoo(ctx),
            FormatKind::Zpaq => zpaq(ctx),
            FormatKind::Mscf => mscf(ctx),
        }
    }
}

/// The format table: each row's name and builder, in table order.
pub open spec fn format_table() -> Seq<(Seq<char>, FormatKind)> {
    seq![
        ("ace"@, FormatKind::Ace),
        ("ai"@, FormatKind::Ai),
        ("arc_conv"@, FormatKind::ArcConv),
        ("aspack"@, FormatKind::Aspack),
        ("bcm"@, FormatKind::Bcm),
        ("bootimg"@, FormatKind::Bootimg),
        ("chdman"@, FormatKind::Chdman),
        ("cic"@, FormatKind::Cic),
        ("daa"@, FormatKind::Daa),
        ("ei"@, FormatKind::Ei),
        ("extsis"@, FormatKind::Extsis),
        ("fead"@, FormatKind::Fead),
        ("freearc"@, FormatKind::Freearc),
        ("fsb"@, FormatKind::Fsb),
        ("garbro"@, FormatKind::Garbro),
        ("isxunpack"@, FormatKind::Isxunpack),
        ("isz"@, FormatKind::Isz),
        ("jsmsix"@, FormatKind::Jsmsix),
        ("kgb"@, FormatKind::Kgb),
        ("lessmsi"@, FormatKind::Lessmsi),
        ("lzip"@, FormatKind::Lzip),
        ("lzop"@, FormatKind::Lzop),
        ("lzx"@, FormatKind::Lzx),
        ("mole"@, FormatKind::Mole),
        ("msiexec"@, FormatKind::Msiexec),
        ("msix"@, FormatKind::Msix),
        ("nbh"@, FormatKind::Nbh),
        ("rar"@, FormatKind::Rar),
        ("rgss"@, FormatKind::Rgss),
        ("rpa"@, FormatKind::Rpa),
        ("sfark"@, FormatKind::Sfark),
        ("sqlite"@, FormatKind::Sqlite),
        ("superdat"@, FormatKind::Superdat),
        ("ttarch"@, FormatKind::Ttarch),
        ("uharc"@, FormatKind::Uharc),
        ("uharc04"@, FormatKind::Uharc),
        ("uharc02"@, FormatKind::Uharc),
        ("uif"@, FormatKind::Uif),
        ("unreal"@, FormatKind::Unreal),
        ("unzip"@, FormatKind::Unzip),
        ("upx"@, FormatKind::Upx),
        ("wix"@, FormatKind::Wix),
        ("wolf"@, FormatKind::Wolf),
        ("xor"@, FormatKind::Xor),
        ("zoo"@, FormatKind::Zoo),
        ("zpaq"@, FormatKind::Zpaq),
        ("mscf"@, FormatKind::Mscf),
    ]
}

/// The provenance of each table row, in table order.
pub open spec fn format_citations() -> Seq<Seq<char>> {
    seq![
        "C057 UniExtract.au3:2346-2349"@,
        "C115 UniExtract.au3:2385-2390"@,
        "C113 UniExtract.au3:2394"@,
        "C058 UniExtract.au3:3624-3625"@,
        "C062 UniExtract.au3:2418-2419"@,
        "C063 UniExtract.au3:2421-2429"@,
        "C065 UniExtract.au3:2441-2442"@,
        "C067 UniExtract.au3:2472-2475"@,
        "C146 UniExtract.au3:2505-2508"@,
        "C116 UniExtract.au3:2514-2516"@,
        "C096 UniExtract.au3:3026"@,
        "C117 UniExtract.au3:2530-2536"@,
        "C071 UniExtract.au3:2556-2557"@,
        "C072 UniExtract.au3:2559-2562"@,
        "C068 UniExtract.au3:2565-2566"@,
        "C076 UniExtract.au3:2711"@,
        "C078 UniExtract.au3:2775-2778"@,
        "C085 UniExtract.au3:2858"@,
        "C079 UniExtract.au3:2780-2781"@,
        "C084 UniExtract.au3:2843-2845"@,
        "C080 UniExtract.au3:2783-2784"@,
        "C081 UniExtract.au3:2786-2787"@,
        "C082 UniExtract.au3:2789-2790"@,
        "C083 UniExtract.au3:2792-2811"@,
        "C087 UniExtract.au3:2882-2883"@,
        "C086 UniExtract.au3:2862-2864,2887-2889,2907-2908"@,
        "C088 UniExtract.au3:2952-2953"@,
        "C092 UniExtract.au3:3005"@,
        "C093 UniExtract.au3:3009-3011"@,
        "C094 UniExtract.au3:3016-3017"@,
        "C095 UniExtract.au3:3019-3020"@,
        "C097 UniExtract.au3:3032-3033"@,
        "C118 UniExtract.au3:3038-3043"@,
        "C100 UniExtract.au3:3147"@,
        "C101 UniExtract.au3:3154"@,
        "C101 UniExtract.au3:3156"@,
        "C101 UniExtract.au3:3158"@,
        "C102 UniExtract.au3:3161-3163"@,
        "C103 UniExtract.au3:3211-3214"@,
        "C109 UniExtract.au3:3384-3388"@,
        "C112 UniExtract.au3:3617-3623"@,
        "C107 UniExtract.au3:3373-3375"@,
        "C108 UniExtract.au3:3377-3382"@,
        "C070 UniExtract.au3:2598"@,
        "C110 UniExtract.au3:3390-3394"@,
        "C111 UniExtract.au3:3396-3399"@,
        "C120 UniExtract.au3:2827"@,
    ]
}

/// The builder of the first row named `name` in `t`, if any.
pub open spec fn lookup(t: Seq<(Seq<char>, FormatKind)>, name: Seq<char>) -> Option<FormatKind>
    decreases t.len(),
{
    if t.len() == 0 {
        None
    } else if t[0].0 == name {
        Some(t[0].1)
    } else {
        lookup(t.drop_first(), name)
    }
}

/// The single-invocation extractor formats, one row per format (`uharc`'s
/// three-attempt fallback chain shares one builder across three rows).
pub fn formats() -> (r: Vec<FormatEntry>)
    ensures
        r@.map_values(|e: FormatEntry| (e.name@, e.build)) == format_table(),
        r@.map_values(|e: FormatEntry| e.citation@) == format_citations(),
{
    let r = vec![
        FormatEntry { name: "ace", citation: "C057 UniExtract.au3:2346-2349", build: FormatKind::Ace },
        FormatEntry { name: "ai", citation: "C115 UniExtract.au3:2385-2390", build: FormatKind::Ai },
        FormatEntry { name: "arc_conv", citation: "C113 UniExtract.au3:2394", build: FormatKind::ArcConv },
        FormatEntry { name: "aspack", citation: "C058 UniExtract.au3:3624-3625", build: FormatKind::Aspack },
        FormatEntry { name: "bcm", citation: "C062 UniExtract.au3:2418-2419", build: FormatKind::Bcm },
        FormatEntry { name: "bootimg", citation: "C063 UniExtract.au3:2421-2429", build: FormatKind::Bootimg },
        FormatEntry { name: "chdman", citation: "C065 UniExtract.au3:2441-2442", build: FormatKind::Chdman },
        FormatEntry { name: "cic", citation: "C067 UniExtract.au3:2472-2475", build: FormatKind::Cic },
        FormatEntry { name: "daa", citation: "C146 UniExtract.au3:2505-2508", build: FormatKind::Daa },
        FormatEntry { name: "ei", citation: "C116 UniExtract.au3:2514-2516", build: FormatKind::Ei },
        FormatEntry { name: "extsis", citation: "C096 UniExtract.au3:3026", build: FormatKind::Extsis },
        FormatEntry { name: "fead", citation: "C117 UniExtract.au3:2530-2536", build: FormatKind::Fead },
        FormatEntry { name: "freearc", citation: "C071 UniExtract.au3:2556-2557", build: FormatKind::Freearc },
        FormatEntry { name: "fsb", citation: "C072 UniExtract.au3:2559-2562", build: FormatKind::Fsb },
        FormatEntry { name: "garbro", citation: "C068 UniExtract.au3:2565-2566", build: FormatKind::Garbro },
        FormatEntry { name: "isxunpack", citation: "C076 UniExtract.au3:2711", build: FormatKind::Isxunpack },
        FormatEntry { name: "isz", citation: "C078 UniExtract.au3:2775-2778", build: FormatKind::Isz },
        FormatEntry { name: "jsmsix", citation: "C085 UniExtract.au3:2858", build: FormatKind::Jsmsix },
        FormatEntry { name: "kgb", citation: "C079 UniExtract.au3:2780-2781", build: FormatKind::Kgb },
        FormatEntry { name: "lessmsi", citation: "C084 UniExtract.au3:2843-2845", build: FormatKind::Lessmsi },
        FormatEntry { name: "lzip", citation: "C080 UniExtract.au3:2783-2784", build: FormatKind::Lzip },
        FormatEntry { name: "lzop", citation: "C081 UniExtract.au3:2786-2787", build: FormatKind::Lzop },
        FormatEntry { name: "lzx", citation: "C082 UniExtract.au3:2789-2790", build: FormatKind::Lzx },
        FormatEntry { name: "mole", citation: "C083 UniExtract.au3:2792-2811", build: FormatKind::Mole },
        FormatEntry { name: "msiexec", citation: "C087 UniExtract.au3:2882-2883", build: FormatKind::Msiexec },
        FormatEntry { name: "msix", citation: "C086 UniExtract.au3:2862-2864,2887-2889,2907-2908", build: FormatKind::Msix },
        FormatEntry { name: "nbh", citation: "C088 UniExtract.au3:2952-2953", build: FormatKind::Nbh },
        FormatEntry { name: "rar", citation: "C092 UniExtract.au3:3005", build: FormatKind::Rar },
        FormatEntry { name: "rgss", citation: "C093 UniExtract.au3:3009-3011", build: FormatKind::Rgss },
        FormatEntry { name: "rpa", citation: "C094 UniExtract.au3:3016-3017", build: FormatKind::Rpa },
        FormatEntry { name: "sfark", citation: "C095 UniExtract.au3:3019-3020", build: FormatKind::Sfark },
        FormatEntry { name: "sqlite", citation: "C097 UniExtract.au3:3032-3033", build: FormatKind::Sqlite },
        FormatEntry { name: "superdat", citation: "C118 UniExtract.au3:3038-3043", build: FormatKind::Superdat },
        FormatEntry { name: "ttarch", citation: "C100 UniExtract.au3:3147", build: FormatKind::Ttarch },
        FormatEntry { name: "uharc", citation: "C101 UniExtract.au3:3154", build: FormatKind::Uharc },
        FormatEntry { name: "uharc04", citation: "C101 UniExtract.au3:3156", build: FormatKind::Uharc },
        FormatEntry { name: "uharc02", citation: "C101 UniExtract.au3:3158", build: FormatKind::Uharc },
        FormatEntry { name: "uif", citation: "C102 UniExtract.au3:3161-3163", build: FormatKind::Uif },
        FormatEntry { name: "unreal", citation: "C103 UniExtract.au3:3211-3214", build: FormatKind::Unreal },
        FormatEntry { name: "unzip", citation: "C109 UniExtract.au3:3384-3388", build: FormatKind::Unzip },
        FormatEntry { name: "upx", citation: "C112 UniExtract.au3:3617-3623", build: FormatKind::Upx },
        FormatEntry { name: "wix", citation: "C107 UniExtract.au3:3373-3375", build: FormatKind::Wix },
        FormatEntry { name: "wolf", citation: "C108 UniExtract.au3:3377-3382", build: FormatKind::Wolf },
        FormatEntry { name: "xor", citation: "C070 UniExtract.au3:2598", build: FormatKind::Xor },
        FormatEntry { name: "zoo", citation: "C110 UniExtract.au3:3390-3394", build: FormatKind::Zoo },
        FormatEntry { name: "zpaq", citation: "C111 UniExtract.au3:3396-3399", build: FormatKind::Zpaq },
        FormatEntry { name: "mscf", citation: "C120 UniExtract.au3:2827", build: FormatKind::Mscf },
    ];
    assert(r@.map_values(|e: FormatEntry| (e.name@, e.build)) =~= format_table());
    assert(r@.map_values(|e: FormatEntry| e.citation@) =~= format_citations());
    r
}

/// Looks up `name` in [`formats`] and runs the first matching row's
/// builder against `ctx`; `None` for a name that is not in the table.
pub fn build(name: &str, ctx: &Ctx) -> (r: Option<Invocation>)
    ensures
        match lookup(format_table(), name@) {
            Some(k) => r is Some && r->0@ == format_spec(k, *ctx),
            None => r is None,
        },
{
    let table = formats();
    let ghost t = format_table();
    let mut i: usize = 0;
    assert(t.skip(0) =~= t);
    while i < table.len()
        invariant
            i <= table.len(),
            table@.map_values(|e: FormatEntry| (e.name@, e.build)) == t,
            t == format_table(),
            lookup(t, name@) == lookup(t.skip(i as int), name@),
        decreases table.len() - i,
    {
        let entry = table[i];
        proof {
            assert(t.skip(i as int)[0] == (entry.name@, entry.build));
            assert(t.skip(i as int).drop_first() =~= t.skip(i + 1));
        }
        if str_equal(entry.name, name) {
            return Some(entry.build.apply(ctx));
        }
        i += 1;
    }
    None
}

/// No two rows of the format table share a name, so [`build`] reaches
/// every row's builder by that row's name.
pub proof fn lemma_format_names_distinct()
    ensures
        forall|i: int, j: int|
            0 <= i < j < format_table().len() ==> format_table()[i].0 != format_table()[j].0,
{
    reveal_strlit("ace");
    reveal_strlit("ai");
    reveal_strlit("arc_conv");
    reveal_strlit("aspack");
    reveal_strlit("bcm");
    reveal_strlit("bootimg");
    reveal_strlit("chdman");
    reveal_strlit("cic");
    reveal_strlit("daa");
    reveal_strlit("ei");
    reveal_strlit("extsis");
    reveal_strlit("fead");
    reveal_strlit("freearc");
    reveal_strlit("fsb");
    reveal_strlit("garbro");
    reveal_strlit("isxunpack");
    reveal_strlit("isz");
    reveal_strlit("jsmsix");
    reveal_strlit("kgb");
    reveal_strlit("lessmsi");
    reveal_strlit("lzip");
    reveal_strlit("lzop");
    reveal_strlit("lzx");
    reveal_strlit("mole");
    reveal_strlit("msiexec");
    reveal_strlit("msix");
    reveal_strlit("nbh");
    reveal_strlit("rar");
    reveal_strlit("rgss");
    reveal_strlit("rpa");
    reveal_strlit("sfark");
    reveal_strlit("sqlite");
    reveal_strlit("superdat");
    reveal_strlit("ttarch");
    reveal_strlit("uharc");
    reveal_strlit("uharc04");
    reveal_strlit("uharc02");
    reveal_strlit("uif");
    reveal_strlit("unreal");
    reveal_strlit("unzip");
    reveal_strlit("upx");
    reveal_strlit("wix");
    reveal_strlit("wolf");
    reveal_strlit("xor");
    reveal_strlit("zoo");
    reveal_strlit("zpaq");
    reveal_strlit("mscf");
    assert("ace"@ =~= seq!['a', 'c', 'e']);
    assert("ai"@ =~= seq!['a', 'i']);
    assert("arc_conv"@ =~= seq!['a', 'r', 'c', '_', 'c', 'o', 'n', 'v']);
    assert("aspack"@ =~= seq!['a', 's', 'p', 'a', 'c', 'k']);
    assert("bcm"@ =~= seq!['b', 'c', 'm']);
    assert("bootimg"@ =~= seq!['b', 'o', 'o', 't', 'i', 'm', 'g']);
    assert("chdman"@ =~= seq!['c', 'h', 'd', 'm', 'a', 'n']);
    assert("cic"@ =~= seq!['c', 'i', 'c']);
    assert("daa"@ =~= seq!['d', 'a', 'a']);
    assert("ei"@ =~= seq!['e', 'i']);
    assert("extsis"@ =~= seq!['e', 'x', 't', 's', 'i', 's']);
    assert("fead"@ =~= seq!['f', 'e', 'a', 'd']);
    assert("freearc"@ =~= seq!['f', 'r', 'e', 'e', 'a', 'r', 'c']);
    assert("fsb"@ =~= seq!['f', 's', 'b']);
    assert("garbro"@ =~= seq!['g', 'a', 'r', 'b', 'r', 'o']);
    assert("isxunpack"@ =~= seq!['i', 's', 'x', 'u', 'n', 'p', 'a', 'c', 'k']);
    assert("isz"@ =~= seq!['i', 's', 'z']);
    assert("jsmsix"@ =~= seq!['j', 's', 'm', 's', 'i', 'x']);
    assert("kgb"@ =~= seq!['k', 'g', 'b']);
    assert("lessmsi"@ =~= seq!['l', 'e', 's', 's', 'm', 's', 'i']);
    assert("lzip"@ =~= seq!['l', 'z', 'i', 'p']);
    assert("lzop"@ =~= seq!['l', 'z', 'o', 'p']);
    assert("lzx"@ =~= seq!['l', 'z', 'x']);
    assert("mole"@ =~= seq!['m', 'o', 'l', 'e']);
    assert("msiexec"@ =~= seq!['m', 's', 'i', 'e', 'x', 'e', 'c']);
    assert("msix"@ =~= seq!['m', 's', 'i', 'x']);
    assert("nbh"@ =~= seq!['n', 'b', 'h']);
    assert("rar"@ =~= seq!['r', 'a', 'r']);
    assert("rgss"@ =~= seq!['r', 'g', 's', 's']);
    assert("rpa"@ =~= seq!['r', 'p', 'a']);
    assert("sfark"@ =~= seq!['s', 'f', 'a', 'r', 'k']);
    assert("sqlite"@ =~= seq!['s', 'q', 'l', 'i', 't', 'e']);
    assert("superdat"@ =~= seq!['s', 'u', 'p', 'e', 'r', 'd', 'a', 't']);
    assert("ttarch"@ =~= seq!['t', 't', 'a', 'r', 'c', 'h']);
    assert("uharc"@ =~= seq!['u', 'h', 'a', 'r', 'c']);
    assert("uharc04"@ =~= seq!['u', 'h', 'a', 'r', 'c', '0', '4']);
    assert("uharc02"@ =~= seq!['u', 'h', 'a', 'r', 'c', '0', '2']);
    assert("uif"@ =~= seq!['u', 'i', 'f']);
    assert("unreal"@ =~= seq!['u', 'n', 'r', 'e', 'a', 'l']);
    assert("unzip"@ =~= seq!['u', 'n', 'z', 'i', 'p']);
    assert("upx"@ =~= seq!['u', 'p', 'x']);
    assert("wix"@ =~= seq!['w', 'i', 'x']);
    assert("wolf"@ =~= seq!['w', 'o', 'l', 'f']);
    assert("xor"@ =~= seq!['x', 'o', 'r']);
    assert("zoo"@ =~= seq!['z', 'o', 'o']);
    assert("zpaq"@ =~= seq!['z', 'p', 'a', 'q']);
    assert("mscf"@ =~= seq!['m', 's', 'c', 'f']);
}

proof fn lemma_lookup_first_match(t: Seq<(Seq<char>, FormatKind)>, i: int)
    requires
        0 <= i < t.len(),
        forall|m: int| 0 <= m < i ==> #[trigger] t[m].0 != t[i].0,
    ensures
        lookup(t, t[i].0) == Some(t[i].1),
    decreases i,
{
    if i > 0 {
        let r = t.drop_first();
        assert forall|m: int| 0 <= m < i - 1 implies #[trigger] r[m].0 != r[i - 1].0 by {
            assert(r[m] == t[m + 1] && r[i - 1] == t[i]);
        }
        lemma_lookup_first_match(r, i - 1);
        assert(r[i - 1] == t[i]);
    }
}

/// [`build`] runs each row's own builder when given that row's name:
/// the lookup by name finds every row of the table.
pub proof fn lemma_build_finds_every_row()
    ensures
        forall|i: int|
            0 <= i < format_table().len() ==> #[trigger] lookup(format_table(), format_table()[i].0)
                == Some(format_table()[i].1),
{
    lemma_format_names_distinct();
    let t = format_table();
    assert forall|i: int| 0 <= i < t.len() implies #[trigger] lookup(t, t[i].0) == Some(t[i].1) by {
        lemma_lookup_first_match(t, i);
    }
}

} // verus!
