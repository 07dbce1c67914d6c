//! Wise installers: the primary unpacker run, the classification of its
//! result, the numbered fallback choices, and each fallback's invocation.
use vstd::prelude::*;
use crate::text::owned;
use super::{cat2, inv, make_invocation, Invocation, InvocationView, WindowMode};

verus! {

/// The primary attempt (E_WISE): `<program> <file> <outdir>`, run in
/// `filedir`, minimized.
pub fn primary_invocation(program: &str, file: &str, outdir: &str, filedir: &str) -> (r: Invocation)
    ensures
        r@ == inv(program@, seq![file@, outdir@], filedir@, WindowMode::Minimized),
{
    let r = make_invocation(program, vec![owned(file), owned(outdir)], filedir, WindowMode::Minimized);
    assert(r@.args =~= seq![file@, outdir@]);
    r
}

/// What happens after the primary attempt.
#[derive(Debug, Clone, Copy, PartialEq, Eq, Structural)]
pub enum PrimaryOutcome {
    /// Route to the (method-selection mediated) disambiguation choice.
    Fallback,
    /// The primary run was not a failure: run the completion BAT.
    RunCompletionBat,
}

/// A failed primary run falls back to the method choice; otherwise the
/// completion BAT runs.
pub fn classify_primary_result(primary_run_failed: bool) -> (r: PrimaryOutcome)
    ensures
        r == (if primary_run_failed { PrimaryOutcome::Fallback } else { PrimaryOutcome::RunCompletionBat }),
{
    if primary_run_failed {
        PrimaryOutcome::Fallback
    } else {
        PrimaryOutcome::RunCompletionBat
    }
}

/// The five numbered fallback choices, in the order the method-selection
/// dialog lists them.
#[derive(Debug, Clone, Copy, PartialEq, Eq, Structural)]
pub enum WiseChoice {
    /// Choice 1: extract with WUN.
    WunUnpacker,
    /// Choice 2: extract using the `/x` switch.
    InstallerSwitch,
    /// Choice 3: rip the MSI via Exeinfo PE (GUI automation).
    WiseMsi,
    /// Choice 4: extract using unzip, falling back to 7-Zip.
    Unzip,
    /// Choice 5: not a Wise installer at all.
    NotWiseInstaller,
}

/// The choice with 1-based number `choice`, if it is one of the five.
pub open spec fn wise_choice_spec(choice: u32) -> Option<WiseChoice> {
    if choice == 1 {
        Some(WiseChoice::WunUnpacker)
    } else if choice == 2 {
        Some(WiseChoice::InstallerSwitch)
    } else if choice == 3 {
        Some(WiseChoice::WiseMsi)
    } else if choice == 4 {
        Some(WiseChoice::Unzip)
    } else if choice == 5 {
        Some(WiseChoice::NotWiseInstaller)
    } else {
        None
    }
}

/// Maps the 1-based choice number to its choice; anything outside `1..=5`
/// is `None`.
pub fn wise_choice_from_number(choice: u32) -> (r: Option<WiseChoice>)
    ensures
        r == wise_choice_spec(choice),
{
    match choice {
        1 => Some(WiseChoice::WunUnpacker),
        2 => Some(WiseChoice::InstallerSwitch),
        3 => Some(WiseChoice::WiseMsi),
        4 => Some(WiseChoice::Unzip),
        5 => Some(WiseChoice::NotWiseInstaller),
        _ => None,
    }
}

/// Choice 1: WUN, `<program> <filename> <tempoutdir>`, run in `filedir`,
/// shown.
pub fn wun_invocation(program: &str, filename: &str, tempoutdir: &str, filedir: &str) -> (r: Invocation)
    ensures
        r@ == inv(program@, seq![filename@, tempoutdir@], filedir@, WindowMode::Show),
{
    let r = make_invocation(program, vec![owned(filename), owned(tempoutdir)], filedir, WindowMode::Show);
    assert(r@.args =~= seq![filename@, tempoutdir@]);
    r
}

/// The two wildcard patterns WUN's leftover files are deleted by:
/// `<tempoutdir>INST0*` and `<tempoutdir>WISE0*`.
pub fn wun_cleanup_patterns(tempoutdir: &str) -> (r: [String; 2])
    ensures
        r@[0]@ == tempoutdir@ + "INST0*"@,
        r@[1]@ == tempoutdir@ + "WISE0*"@,
{
    [cat2(tempoutdir, "INST0*"), cat2(tempoutdir, "WISE0*")]
}

/// Choice 2: the installer's own switch, `<file> /x <outdir>` with the
/// installer itself as the program, run in `filedir`, shown.
pub fn switch_invocation(file: &str, outdir: &str, filedir: &str) -> (r: Invocation)
    ensures
        r@ == inv(file@, seq!["/x"@, outdir@], filedir@, WindowMode::Show),
{
    let r = make_invocation(file, vec![owned("/x"), owned(outdir)], filedir, WindowMode::Show);
    assert(r@.args =~= seq!["/x"@, outdir@]);
    r
}

/// The key sequence sent to Exeinfo PE's menu for choice 3.
pub const RIP_EXEINFO_KEY_SEQUENCE: &'static str = "{DOWN}{DOWN}{DOWN}";

/// Choice 4: unzip, `<program> -x <file>`, run in `outdir`, minimized.
pub fn unzip_invocation(program: &str, file: &str, outdir: &str) -> (r: Invocation)
    ensures
        r@ == inv(program@, seq!["-x"@, file@], outdir@, WindowMode::Minimized),
{
    let r = make_invocation(program, vec![owned("-x"), owned(file)], outdir, WindowMode::Minimized);
    assert(r@.args =~= seq!["-x"@, file@]);
    r
}

/// Choice 4's 7-Zip fallback: `<program> x <file>`, run in `outdir`,
/// minimized.
pub fn sevenzip_fallback_invocation(program: &str, file: &str, outdir: &str) -> (r: Invocation)
    ensures
        r@ == inv(program@, seq!["x"@, file@], outdir@, WindowMode::Minimized),
{
    let r = make_invocation(program, vec![owned("x"), owned(file)], outdir, WindowMode::Minimized);
    assert(r@.args =~= seq!["x"@, file@]);
    r
}

/// The completion BAT: `00000000.BAT` with no arguments, run in `outdir`,
/// hidden.
pub fn success_bat_invocation(outdir: &str) -> (r: Invocation)
    ensures
        r@ == inv("00000000.BAT"@, Seq::empty(), outdir@, WindowMode::Hidden),
{
    let r = make_invocation("00000000.BAT", Vec::new(), outdir, WindowMode::Hidden);
    assert(r@.args =~= Seq::<Seq<char>>::empty());
    r
}

} // verus!
