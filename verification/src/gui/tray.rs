//! System tray icon decisions: `Tray_Create`, `Tray_ShowHide`
//! and `Tray_Exit` (UniExtract.au3:8149-8197).
use vstd::prelude::*;

verus! {

/// The "Hide status" menu item's initial check (UniExtract.au3:8151): it
/// mirrors `$bOptNoStatusBox` itself, checked exactly when the status
/// box is hidden.
pub fn hide_status_item_checked(no_status_box_preference: bool) -> (r: bool)
    ensures
        r == no_status_box_preference,
{
    no_status_box_preference
}

/// `Tray_Create`'s icon-hide gate (UniExtract.au3:8160,
/// `Opt("TrayIconHide", 1)`): only the icon's visibility; the menu is
/// built either way.
pub fn should_hide_icon(no_tray_icon_preference: bool) -> (r: bool)
    ensures
        r == no_tray_icon_preference,
{
    no_tray_icon_preference
}

/// What `Tray_ShowHide` (UniExtract.au3:8164-8172) does to the helper
/// process's console window (not to the tray icon or the main window).
#[derive(Debug, Clone, Copy, PartialEq, Eq, Structural)]
pub enum ConsoleVisibilityAction {
    /// Hide the console (it was visible).
    Hide,
    /// Show and activate the console (it was hidden).
    ShowAndActivate,
    /// The helper process no longer exists; nothing to do.
    NoOp,
}

/// `Tray_ShowHide`'s decision: nothing when the helper is gone, else a
/// toggle of the console's visibility (`WinGetState` bit 2).
pub fn decide_console_visibility_action(helper_process_exists: bool, console_currently_visible: bool) -> (r: ConsoleVisibilityAction)
    ensures
        r == (if !helper_process_exists {
            ConsoleVisibilityAction::NoOp
        } else if console_currently_visible {
            ConsoleVisibilityAction::Hide
        } else {
            ConsoleVisibilityAction::ShowAndActivate
        }),
{
    if !helper_process_exists {
        ConsoleVisibilityAction::NoOp
    } else if console_currently_visible {
        ConsoleVisibilityAction::Hide
    } else {
        ConsoleVisibilityAction::ShowAndActivate
    }
}

/// `Tray_Exit`'s status log (UniExtract.au3:8193-8195):
/// `SaveLog($STATUS_TRAYEXIT)` only when the main window was never
/// created.
pub fn should_log_tray_exit(main_window_was_created: bool) -> (r: bool)
    ensures
        r == !main_window_was_created,
{
    !main_window_was_created
}

} // verus!
