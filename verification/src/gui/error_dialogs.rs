//! Error dialogs with feedback and scan integration: decisions
//! inside `GUI_Error_WithFeedbackButton` (UniExtract.au3:7648-7681),
//! `GUI_Error_UnknownExt` (7684-7738) and `_GUI_FileScan` (7611-7645).
use vstd::prelude::*;

verus! {

/// Neither error dialog shows in silent runs (UniExtract.au3:7649,7685).
pub fn should_show_error_dialog(silent_mode: bool) -> (r: bool)
    ensures
        r == !silent_mode,
{
    !silent_mode
}

/// What the Copy button copies: the whole scan text, or the selection.
#[derive(Debug, Clone, Copy, PartialEq, Eq, Structural)]
pub enum CopyTarget {
    All,
    Selection,
}

/// `$iLen < 1 ? $sFileType : StringMid(...)` (UniExtract.au3:7639,7726):
/// nothing selected copies everything.
pub fn resolve_copy_target(selection_len: i32) -> (r: CopyTarget)
    ensures
        r == (if selection_len < 1 { CopyTarget::All } else { CopyTarget::Selection }),
{
    if selection_len < 1 {
        CopyTarget::All
    } else {
        CopyTarget::Selection
    }
}

/// The scan edit box gets a vertical scrollbar past its own line
/// threshold (13 in `_GUI_FileScan`, 7 in `GUI_Error_UnknownExt`).
pub fn needs_vertical_scrollbar(line_count: usize, threshold: usize) -> (r: bool)
    ensures
        r == (line_count > threshold),
{
    line_count > threshold
}

/// The unknown-type dialog's size and whether it shows a scan section.
#[derive(Debug, Clone, Copy, PartialEq, Eq, Structural)]
pub struct UnknownExtLayout {
    pub height: u32,
    pub show_scan_section: bool,
}

/// `$iHeight = $bHasResult? 290: 190` and the conditional scan section
/// (UniExtract.au3:7691-7711).
pub fn resolve_unknown_ext_layout(has_scan_result: bool) -> (r: UnknownExtLayout)
    ensures
        r.height == (if has_scan_result { 290u32 } else { 190u32 }),
        r.show_scan_section == has_scan_result,
{
    UnknownExtLayout {
        height: if has_scan_result {
            290
        } else {
            190
        },
        show_scan_section: has_scan_result,
    }
}

} // verus!
