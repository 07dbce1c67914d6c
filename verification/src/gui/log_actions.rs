//! Log menu actions: opening the last log, refreshing the log
//! item, creating the password list.
use vstd::prelude::*;

verus! {

/// `If @error Or $aFiles[0] < 1 Then Return` (UniExtract.au3:7946).
pub fn should_open_a_log(directory_read_succeeded: bool, file_count: usize) -> (r: bool)
    ensures
        r == (directory_read_succeeded && file_count >= 1),
{
    directory_read_succeeded && file_count >= 1
}

/// The "most recent" log is the last of the listing
/// (UniExtract.au3:7948-7949) — filename order, not modification time.
pub fn resolve_most_recent_log(sorted_log_files: &[String]) -> (r: Option<&String>)
    ensures
        match r {
            Some(f) => sorted_log_files@.len() > 0 && f == sorted_log_files@.last(),
            None => sorted_log_files@.len() == 0,
        },
{
    if sorted_log_files.len() == 0 {
        None
    } else {
        Some(&sorted_log_files[sorted_log_files.len() - 1])
    }
}

/// The log-size menu item is refreshed only while the main window exists
/// (UniExtract.au3:7976).
pub fn should_update_log_menu_item(main_window_exists: bool) -> (r: bool)
    ensures
        r == main_window_exists,
{
    main_window_exists
}

/// The password list is created empty only when it does not exist
/// (UniExtract.au3:8065-8068).
pub fn should_create_password_file(file_exists: bool) -> (r: bool)
    ensures
        r == !file_exists,
{
    !file_exists
}

} // verus!
