//! Extractor invocations: how each helper binary is run for one format —
//! the program, its argument tokens, the working directory and the window
//! mode. Building an invocation never runs anything; running it is the
//! caller's job.
use vstd::prelude::*;
use crate::text::{owned, views};

pub mod sqlite;
pub mod superdat;
pub mod table;
pub mod thinapp;
pub mod ttarch;
pub mod uharc;
pub mod uif;
pub mod unity;
pub mod unreal;
pub mod unzip;
pub mod upx;
pub mod visionaire3;
pub mod wise;
pub mod wix;
pub mod wolf;
pub mod xor;
pub mod zip;
pub mod zoo;
pub mod zpaq;

verus! {

/// How the helper's window is shown: AutoIt's `@SW_HIDE`,
/// `@SW_MINIMIZE` and `@SW_SHOW` (the latter also for an explicit `True`
/// show flag).
#[derive(Debug, Clone, Copy, PartialEq, Eq, Structural)]
pub enum WindowMode {
    Hidden,
    Minimized,
    Show,
}

/// One helper-binary run: the program, its already-split argument tokens,
/// the working directory and the window mode.
#[derive(Debug, Clone, PartialEq, Eq)]
pub struct Invocation {
    pub program: String,
    pub args: Vec<String>,
    pub working_dir: String,
    pub window: WindowMode,
}

/// The mathematical value of an [`Invocation`].
pub struct InvocationView {
    pub program: Seq<char>,
    pub args: Seq<Seq<char>>,
    pub working_dir: Seq<char>,
    pub window: WindowMode,
}

impl View for Invocation {
    type V = InvocationView;

    open spec fn view(&self) -> InvocationView {
        InvocationView {
            program: self.program@,
            args: views(self.args@),
            working_dir: self.working_dir@,
            window: self.window,
        }
    }
}

/// Shorthand for building an [`InvocationView`].
pub open spec fn inv(
    program: Seq<char>,
    args: Seq<Seq<char>>,
    working_dir: Seq<char>,
    window: WindowMode,
) -> InvocationView {
    InvocationView { program, args, working_dir, window }
}

/// Assembles an [`Invocation`] from its parts.
pub fn make_invocation(program: &str, args: Vec<String>, working_dir: &str, window: WindowMode) -> (r: Invocation)
    ensures
        r@ == inv(program@, views(args@), working_dir@, window),
{
    Invocation { program: owned(program), args, working_dir: owned(working_dir), window }
}

/// `a` followed by `b`.
pub fn cat2(a: &str, b: &str) -> (r: String)
    ensures
        r@ == a@ + b@,
{
    let mut r = owned(a);
    r.append(b);
    r
}

/// `a`, `b` and `c`, concatenated.
pub fn cat3(a: &str, b: &str, c: &str) -> (r: String)
    ensures
        r@ == a@ + b@ + c@,
{
    let mut r = owned(a);
    r.append(b);
    r.append(c);
    r
}

/// `a`, `b`, `c` and `d`, concatenated.
pub fn cat4(a: &str, b: &str, c: &str, d: &str) -> (r: String)
    ensures
        r@ == a@ + b@ + c@ + d@,
{
    let mut r = owned(a);
    r.append(b);
    r.append(c);
    r.append(d);
    r
}

} // verus!
