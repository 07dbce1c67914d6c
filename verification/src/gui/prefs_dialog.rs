//! Preferences dialog and the instant-apply tray toggles: the
//! decisions inside `GUI_Prefs_OK` (UniExtract.au3:6482-6552),
//! `GUI_ScanOnly` (UniExtract.au3:6309-6327), `GUI_Silent`
//! (UniExtract.au3:6330-6340), `GUI_KeepOpen` (UniExtract.au3:6343-6353)
//! and `GUI_Topmost` (UniExtract.au3:6356-6369).
//!
//! The plain checkbox-to-preference mirrors of `GUI_Prefs_OK` carry no
//! rule and have no function here.
use vstd::prelude::*;
use crate::prefs::DeleteSourceFileOption;

verus! {

/// `WS_EX_TOPMOST`, the extended style `GUI_Topmost` applies
/// (UniExtract.au3:6362).
pub const WS_EX_TOPMOST: i32 = 0x0000_0008;

/// What toggling the "remember history" checkbox does
/// (UniExtract.au3:6485-6497). `Disable` also deletes both stored history
/// keys (`IniDelete($prefs, $HISTORY_FILE)`, `IniDelete($prefs,
/// $HISTORY_DIR)`).
#[derive(Debug, Clone, Copy, PartialEq, Eq, Structural)]
pub enum HistoryToggleOutcome {
    /// The checkbox already matches `current_history`.
    NoChange,
    /// Was off, now checked: `$history = 1`, redraw the main window.
    Enable,
    /// Was on, now unchecked: `$history = 0`, delete both keys, redraw.
    Disable,
}

/// The `$historyopt` branch of `GUI_Prefs_OK` (UniExtract.au3:6485-6497).
pub fn decide_history_toggle_outcome(checked: bool, current_history: bool) -> (r: HistoryToggleOutcome)
    ensures
        r == (if checked && !current_history {
            HistoryToggleOutcome::Enable
        } else if !checked && current_history {
            HistoryToggleOutcome::Disable
        } else {
            HistoryToggleOutcome::NoChange
        }),
{
    match (checked, current_history) {
        (true, false) => HistoryToggleOutcome::Enable,
        (false, true) => HistoryToggleOutcome::Disable,
        _ => HistoryToggleOutcome::NoChange,
    }
}

/// The update-interval presets, in combo order: 1, 7, 30, 365 and
/// 999999 days.
pub open spec fn update_presets() -> Seq<i64> {
    seq![1i64, 7i64, 30i64, 365i64, 999_999i64]
}

/// The combo entry showing a stored interval (UniExtract.au3:6450-6461):
/// the preset's own index, or `5` ("Custom") for any other value.
pub fn resolve_update_interval_display_index(stored_days: i64) -> (r: usize)
    ensures
        r <= 5,
        r < 5 ==> update_presets()[r as int] == stored_days,
        r == 5 ==> !update_presets().contains(stored_days),
{
    let r: usize = match stored_days {
        1 => 0,
        7 => 1,
        30 => 2,
        365 => 3,
        999_999 => 4,
        _ => 5,
    };
    proof {
        if r == 5 {
            assert forall|k: int| 0 <= k < 5 implies update_presets()[k] != stored_days by {}
        }
    }
    r
}

/// The interval stored for a combo entry (UniExtract.au3:6505-6507,
/// `[1, 7, 30, 365, 999999, $iOptUpdateInterval]`): a preset's value, or
/// the previous value for "Custom" (index 5) or any other index.
pub fn resolve_update_interval_value(selected_index: usize, previous_value: i64) -> (r: i64)
    ensures
        r == (if selected_index < 5 {
            update_presets()[selected_index as int]
        } else {
            previous_value
        }),
{
    match selected_index {
        0 => 1,
        1 => 7,
        2 => 30,
        3 => 365,
        4 => 999_999,
        _ => previous_value,
    }
}

/// Which statistics call a change of the "send anonymous statistics"
/// checkbox makes (UniExtract.au3:6527-6532).
#[derive(Debug, Clone, Copy, PartialEq, Eq, Structural)]
pub enum SendStatsCommand {
    Enable,
    Disable,
}

/// The `$bOptSendStats <> $tmp` gate (UniExtract.au3:6527-6532): no call
/// when the checkbox did not change.
pub fn decide_send_stats_command(previous_enabled: bool, new_enabled: bool) -> (r: Option<SendStatsCommand>)
    ensures
        r == (if previous_enabled == new_enabled {
            None
        } else if new_enabled {
            Some(SendStatsCommand::Enable)
        } else {
            Some(SendStatsCommand::Disable)
        }),
{
    if previous_enabled == new_enabled {
        None
    } else if new_enabled {
        Some(SendStatsCommand::Enable)
    } else {
        Some(SendStatsCommand::Disable)
    }
}

/// The nightly-updates gate (UniExtract.au3:6534-6537): `CheckUpdate()`
/// runs only when the checkbox changed.
pub fn should_check_update_after_nightly_toggle(previous_nightly: bool, new_nightly: bool) -> (r: bool)
    ensures
        r == (previous_nightly != new_nightly),
{
    previous_nightly != new_nightly
}

/// The delete-source-file radio group's read loop
/// (UniExtract.au3:6539-6541): Keep, Delete and Ask are read in that
/// order and the last checked one wins; `None` when none is checked.
pub fn resolve_checked_delete_source_file_radio(checked: [bool; 3]) -> (r: Option<DeleteSourceFileOption>)
    ensures
        r == (if checked@[2] {
            Some(DeleteSourceFileOption::Ask)
        } else if checked@[1] {
            Some(DeleteSourceFileOption::Delete)
        } else if checked@[0] {
            Some(DeleteSourceFileOption::Keep)
        } else {
            None
        }),
{
    let mut result: Option<DeleteSourceFileOption> = None;
    let mut i: usize = 0;
    while i < 3
        invariant
            i <= 3,
            result == (if i > 2 && checked@[2] {
                Some(DeleteSourceFileOption::Ask)
            } else if i > 1 && checked@[1] {
                Some(DeleteSourceFileOption::Delete)
            } else if i > 0 && checked@[0] {
                Some(DeleteSourceFileOption::Keep)
            } else {
                None
            }),
        decreases 3 - i,
    {
        if checked[i] {
            result = crate::prefs::parse_delete_source_file_option(Some(i as i64));
        }
        i += 1;
    }
    result
}

/// `GUI_ScanOnly`'s save parameter (UniExtract.au3:6309,6326): the
/// startup call passes `False` to apply the stored preference without
/// saving it again; a click passes nothing and always saves.
pub fn should_persist_scan_only_pref(explicit_save_arg: Option<bool>) -> (r: bool)
    ensures
        r == (match explicit_save_arg {
            Some(b) => b,
            None => true,
        }),
{
    match explicit_save_arg {
        Some(b) => b,
        None => true,
    }
}

/// `GUI_Topmost`'s extended style (UniExtract.au3:6357-6363):
/// `WS_EX_TOPMOST` when checked, else none.
pub fn resolve_topmost_ex_style(checked: bool) -> (r: i32)
    ensures
        r == (if checked {
            WS_EX_TOPMOST
        } else {
            0
        }),
{
    if checked {
        WS_EX_TOPMOST
    } else {
        0
    }
}

} // verus!
