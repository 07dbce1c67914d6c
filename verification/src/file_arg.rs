//! Positional file-argument resolution: the file-argument half of
//! `ParseCommandLine()` (UniExtract.au3:625-628) — `$file =
//! _PathFull($cmdline[1])`, then `If Not FileExists($file) Then
//! terminate($STATUS_INVALIDFILE, $file)`.
//!
//! `_PathFull`'s own `.`/`..` collapsing is not reproduced: a relative
//! argument is joined onto `cwd` as plain text.
use vstd::prelude::*;
use crate::status::Status;
use crate::text::{chars_of, starts_with};
use crate::extract::cat3;
use crate::text::owned;

verus! {

/// `path` is drive-absolute: its UTF-8 byte at index 1 is `:`. In UTF-8
/// that holds exactly when the first character is ASCII (one byte) and
/// the second is `:`.
pub open spec fn drive_absolute(path: Seq<char>) -> bool {
    path.len() >= 2 && (path[0] as u32) < 0x80 && path[1] == ':'
}

/// `path` is a UNC path: it starts with two backslashes.
pub open spec fn unc(path: Seq<char>) -> bool {
    "\\\\"@.is_prefix_of(path)
}

/// Executable form of [`drive_absolute`].
pub fn is_drive_absolute(path: &str) -> (r: bool)
    ensures
        r == drive_absolute(path@),
{
    let v = chars_of(path);
    v.len() >= 2 && (v[0] as u32) < 0x80 && v[1] == ':'
}

/// Executable form of [`unc`].
pub fn is_unc(path: &str) -> (r: bool)
    ensures
        r == unc(path@),
{
    starts_with(path, "\\\\")
}

/// The full path `arg` denotes when the working directory is `cwd`.
pub open spec fn resolved_argument(arg: Seq<char>, cwd: Seq<char>) -> Seq<char> {
    if drive_absolute(arg) || unc(arg) {
        arg
    } else {
        cwd + "\\"@ + arg
    }
}

/// resolves `arg` (`$cmdline[1]`) to a full path — drive-absolute
/// (`X:...`) and UNC (`\\...`) paths pass through unchanged; anything else
/// is joined onto `cwd` with a backslash.
pub fn resolve_file_argument_path(arg: &str, cwd: &str) -> (r: String)
    ensures
        r@ == resolved_argument(arg@, cwd@),
{
    if is_drive_absolute(arg) || is_unc(arg) {
        owned(arg)
    } else {
        cat3(cwd, "\\", arg)
    }
}

/// the `FileExists($file)` validation (UniExtract.au3:628): a
/// missing file ends the run with `Status::InvalidFile`.
pub fn validate_file_argument(exists: bool) -> (r: Result<(), Status>)
    ensures
        r == (if exists { Ok(()) } else { Err::<(), Status>(Status::InvalidFile) }),
{
    if exists {
        Ok(())
    } else {
        Err(Status::InvalidFile)
    }
}

} // verus!
