//! Preference values shared by several dialogs, and the relative-path
//! resolution preference paths go through.
use vstd::prelude::*;
use crate::file_arg::{resolve_file_argument_path, resolved_argument};

verus! {

/// The delete-source-file preference: `$OPTION_KEEP` (0),
/// `$OPTION_DELETE` (1) and `$OPTION_ASK` (2).
#[derive(Debug, Clone, Copy, PartialEq, Eq, Structural)]
pub enum DeleteSourceFileOption {
    Keep,
    Delete,
    Ask,
}

/// The option with stored number `n`, if it is one of the three.
pub open spec fn delete_option_spec(n: int) -> Option<DeleteSourceFileOption> {
    if n == 0 {
        Some(DeleteSourceFileOption::Keep)
    } else if n == 1 {
        Some(DeleteSourceFileOption::Delete)
    } else if n == 2 {
        Some(DeleteSourceFileOption::Ask)
    } else {
        None
    }
}

/// Maps the stored number of the delete-source-file preference to its
/// option; `None` for no value or a number outside `0..=2`.
pub fn parse_delete_source_file_option(value: Option<i64>) -> (r: Option<DeleteSourceFileOption>)
    ensures
        r == (match value {
            Some(n) => delete_option_spec(n as int),
            None => None,
        }),
{
    match value {
        Some(0) => Some(DeleteSourceFileOption::Keep),
        Some(1) => Some(DeleteSourceFileOption::Delete),
        Some(2) => Some(DeleteSourceFileOption::Ask),
        _ => None,
    }
}

/// `_PathFull(path, base)` for the common case: a drive-absolute or UNC
/// `path` stands as it is; anything else is joined onto `base` with a
/// backslash. `.`/`..` segments are not collapsed.
pub fn resolve_relative_path(path: &str, base: &str) -> (r: String)
    ensures
        r@ == resolved_argument(path@, base@),
{
    resolve_file_argument_path(path, base)
}

} // verus!
