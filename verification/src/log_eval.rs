//! Extraction output-log evaluation: the "already exists"/"Overwrite"
//! branch of `EvaluateLog()` (UniExtract.au3:4819-4823).
use vstd::prelude::*;
use crate::extract::cat3;
use crate::text::{has_substring, str_contains};

verus! {

/// A log mentioning `already exists.` or `Overwrite` (case-sensitive
/// substrings) counts as success: an overwritten file leaves the output
/// folder's size unchanged, so the size check must be skipped. The
/// caller applies this only after every higher-priority classification
/// of the `ElseIf` chain has been ruled out.
pub fn is_overwrite_success_message(log: &str) -> (r: bool)
    ensures
        r == (has_substring(log@, "already exists."@) || has_substring(log@, "Overwrite"@)),
{
    str_contains(log, "already exists.") || str_contains(log, "Overwrite")
}

/// A log counts as showing an overwrite: it holds `already exists.` or
/// `Overwrite`.
pub open spec fn shows_overwrite(log: Seq<char>) -> bool {
    has_substring(log, "already exists."@) || has_substring(log, "Overwrite"@)
}

/// The command-line run's verdict on one helper run: it succeeded when
/// the helper exited with status 0, or when its combined output
/// (`stdout`, a line break, `stderr`) shows an overwrite.
pub fn extraction_succeeded(exit_status: Option<i32>, stdout: &str, stderr: &str) -> (r: bool)
    ensures
        r == (exit_status == Some(0i32) || shows_overwrite(stdout@ + "\n"@ + stderr@)),
{
    let combined = cat3(stdout, "\n", stderr);
    let ok = match exit_status {
        Some(code) => code == 0,
        None => false,
    };
    ok || is_overwrite_success_message(combined.as_str())
}

} // verus!
