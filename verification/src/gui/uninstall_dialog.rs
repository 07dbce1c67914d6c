//! The uninstall confirmation dialog, `GUI_Uninstall`
//! (UniExtract.au3:7427-7458): two checkboxes with fixed initial states
//! and a message loop with one way out. The caller passes the two
//! checkbox states on unchanged (UniExtract.au3:7451-7457).
use vstd::prelude::*;

verus! {

/// The "remove logs" checkbox starts checked
/// (`GUICtrlSetState(-1, $GUI_CHECKED)`, UniExtract.au3:7435-7436).
pub const REMOVE_LOGS_DEFAULT_CHECKED: bool = true;

/// The "remove user data" checkbox starts unchecked
/// (UniExtract.au3:7437).
pub const REMOVE_USER_DATA_DEFAULT_CHECKED: bool = false;

/// The message loop's one exit (UniExtract.au3:7447-7449): `If
/// GUIGetMsg() == $idOk Then ExitLoop`.
pub fn should_exit_dialog_loop(clicked_uninstall_button: bool) -> (r: bool)
    ensures
        r == clicked_uninstall_button,
{
    clicked_uninstall_button
}

/// Whether the dialog can be left other than by "Uninstall". The source
/// greys out the system Close button and has no Cancel
/// (UniExtract.au3:7441-7442, `_GUICtrlMenu_EnableMenuItem($hMenu,
/// $SC_CLOSE, $MF_GRAYED, False)`); a window that keeps that must also
/// ignore Esc. Allowing a way back is a deliberate departure, and the
/// window that shows this dialog has to pick one of the two.
#[derive(Debug, Clone, Copy, PartialEq, Eq, Structural)]
pub enum DialogEscapeHatch {
    /// As the source: no Close, no Cancel, no Esc — "Uninstall" only.
    NoneMatchingSource,
    /// Cancel, Esc and the window's Close button back out.
    AllowCancel,
}

} // verus!
