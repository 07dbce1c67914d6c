//! Per-extractor timeout handling. There is no global timeout in
//! the source's dispatch; `$TYPE_ARC_CONV`'s case is the explicit one: a
//! `WinWait` that returns a zero window handle timed out, and that case
//! terminates with `$STATUS_TIMEOUT`. The wait itself is GUI automation
//! the caller performs.
use vstd::prelude::*;
use crate::status::Status;

verus! {

/// `$TYPE_ARC_CONV`'s timeout check (UniExtract.au3:2399): `WinWait`
/// returning `0` means the window never appeared.
pub fn arc_conv_wait_timed_out(window_handle: i64) -> (r: bool)
    ensures
        r == (window_handle == 0),
{
    window_handle == 0
}

/// What `$TYPE_ARC_CONV` does with the wait's result: terminate with
/// `Status::Timeout` on a timeout, otherwise carry on.
pub fn arc_conv_timeout_outcome(window_handle: i64) -> (r: Option<Status>)
    ensures
        r == (if window_handle == 0 { Some(Status::Timeout) } else { None }),
{
    if arc_conv_wait_timed_out(window_handle) {
        Some(Status::Timeout)
    } else {
        None
    }
}

} // verus!
