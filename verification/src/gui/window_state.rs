//! Window position persistence: the guard of `GUI_SavePosition`
//! (UniExtract.au3:6988-6998), over the `storeguiposition`, `posx`,
//! `posy`, `GuiWidth` and `GuiHeight` preferences.
use vstd::prelude::*;

verus! {

/// `GUI_SavePosition`'s guard (UniExtract.au3:6990): save only when the
/// main window exists and "remember window size/position" is on. A
/// failed `WinGetPos` counts as a window that does not exist.
pub fn should_save_position(main_window_exists: bool, remember_position: bool) -> (r: bool)
    ensures
        r == (main_window_exists && remember_position),
{
    main_window_exists && remember_position
}

} // verus!
