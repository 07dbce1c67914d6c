//! The run's final status, the value `terminate()` receives.
use vstd::prelude::*;

verus! {

/// UniExtract's `$STATUS_*` outcomes. `FileInfo` carries whether the
/// scan-only run was silent and whether a file type was identified.
#[derive(Debug, Clone, Copy, PartialEq, Eq, Structural)]
pub enum Status {
    Syntax,
    FileInfo { silent_mode: bool, filetype_identified: bool },
    UnknownExe,
    UnknownExt,
    InvalidFile,
    InvalidDir,
    NotPacked,
    Batch,
    NotSupported,
    MissingExe,
    Timeout,
    Password,
    MissingDef,
    MoveFailed,
    NoFreeSpace,
    MissingPart,
    Failed,
    Success,
    Silent,
    TrayExit,
}

/// The process exit status the command line ends with: `0` for
/// `Success`, `1` for every other status.
pub fn exit_code(status: Status) -> (r: i32)
    ensures
        r == (if status == Status::Success { 0i32 } else { 1i32 }),
{
    match status {
        Status::Success => 0,
        _ => 1,
    }
}

} // verus!
