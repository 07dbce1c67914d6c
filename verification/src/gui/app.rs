//! The main window's decisions: the state its radio pair
//! presents, what the tray status popup shows, and how the
//! output-directory field follows the file field. Drawing the window and
//! the OS queries it makes are the application's.
use vstd::prelude::*;
use crate::gui::file_input::should_auto_fill_output_dir;
use crate::gui::tray_status_box::{should_show_status_box, should_suppress_for_fullscreen, truncate_with_ellipsis, truncated};
use crate::text::owned;

verus! {

/// The Extract / Scan-only radio pair of the main window
/// (UniExtract.au3:5850 region).
#[derive(Debug, Clone, Copy, PartialEq, Eq, Structural)]
pub enum ExtractionMode {
    Extract,
    ScanOnly,
}

/// The tray status popup's width (UniExtract.au3:4274, `$iWidth`).
pub const STATUS_BOX_WIDTH: i32 = 225;

/// The tray status popup's height (UniExtract.au3:4274, `$iHeight`).
pub const STATUS_BOX_HEIGHT: i32 = 100;

/// The filename label's limit, in characters (UniExtract.au3:4282).
pub const STATUS_FILENAME_MAX_CHARS: usize = 28;

/// The message label's limit, in characters (UniExtract.au3:4283).
pub const STATUS_MESSAGE_MAX_CHARS: usize = 56;

/// The two lines a shown status popup holds.
#[derive(Debug, Clone, PartialEq, Eq)]
pub struct StatusBoxText {
    pub filename: String,
    pub message: String,
}

/// `_CreateTrayMessageBox` (UniExtract.au3:4261-4321) after closing any
/// open popup: no popup when the status box is switched off or when it
/// is suppressed over a fullscreen window; else the filename cut to 28
/// characters and the message cut to 56.
pub fn status_box_text(
    filename: &str,
    message: &str,
    no_status_box: bool,
    hide_if_fullscreen: bool,
    active_window_size: (i32, i32),
    desktop_size: (i32, i32),
) -> (r: Option<StatusBoxText>)
    ensures
        match r {
            Some(t) => !no_status_box && !(hide_if_fullscreen && active_window_size.0 == desktop_size.0
                && active_window_size.1 == desktop_size.1) && t.filename@ == truncated(
                filename@,
                STATUS_FILENAME_MAX_CHARS as nat,
            ) && t.message@ == truncated(message@, STATUS_MESSAGE_MAX_CHARS as nat),
            None => no_status_box || (hide_if_fullscreen && active_window_size.0 == desktop_size.0
                && active_window_size.1 == desktop_size.1),
        },
{
    if !should_show_status_box(no_status_box) {
        return None;
    }
    if should_suppress_for_fullscreen(hide_if_fullscreen, active_window_size, desktop_size) {
        return None;
    }
    Some(
        StatusBoxText {
            filename: truncate_with_ellipsis(filename, STATUS_FILENAME_MAX_CHARS),
            message: truncate_with_ellipsis(message, STATUS_MESSAGE_MAX_CHARS),
        },
    )
}

/// The output-directory field after a file is picked or dropped
/// (`GUI_Drop_Parse`, UniExtract.au3:6735-6753): replaced by the file's
/// `$initoutdir` when it is blank or not locked, else kept.
pub fn output_dir_after_drop(output_dir: &str, lock_output_directory: bool, initoutdir: &str) -> (r: String)
    ensures
        r@ == (if output_dir@.len() == 0 || !lock_output_directory {
            initoutdir@
        } else {
            output_dir@
        }),
{
    if should_auto_fill_output_dir(output_dir.is_empty(), lock_output_directory) {
        owned(initoutdir)
    } else {
        owned(output_dir)
    }
}

/// The output-directory field after the file field is typed in
/// (`GUI_OnFileInputChanged`, UniExtract.au3:6555-6560): filled with the
/// file's `$initoutdir` only when blank.
pub fn output_dir_after_file_edit(output_dir: &str, initoutdir: &str) -> (r: String)
    ensures
        r@ == (if output_dir@.len() == 0 {
            initoutdir@
        } else {
            output_dir@
        }),
{
    if output_dir.is_empty() {
        owned(initoutdir)
    } else {
        owned(output_dir)
    }
}

} // verus!
