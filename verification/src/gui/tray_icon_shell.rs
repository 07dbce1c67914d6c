//! Commands the tray menu produces.
use vstd::prelude::*;
use crate::text::str_equal;

verus! {

/// A click on the tray menu: toggling "Hide status" (with its new checked
/// state) or "Exit".
#[derive(Debug, Clone, Copy, PartialEq, Eq, Structural)]
pub enum TrayCommand {
    ToggleHideStatus(bool),
    Exit,
}

/// The command a tray-menu click names, matched by the clicked item's
/// id: the "Hide status" item reports its new checked state, the "Exit"
/// item exits, any other id is ignored.
pub fn tray_command_for_event(event_id: &str, hide_status_id: &str, exit_id: &str, hide_status_checked: bool) -> (r: Option<TrayCommand>)
    ensures
        r == (if event_id@ == hide_status_id@ {
            Some(TrayCommand::ToggleHideStatus(hide_status_checked))
        } else if event_id@ == exit_id@ {
            Some(TrayCommand::Exit)
        } else {
            None
        }),
{
    if str_equal(event_id, hide_status_id) {
        Some(TrayCommand::ToggleHideStatus(hide_status_checked))
    } else if str_equal(event_id, exit_id) {
        Some(TrayCommand::Exit)
    } else {
        None
    }
}

} // verus!
