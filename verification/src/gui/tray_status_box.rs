//! The tray status popup: `_CreateTrayMessageBox` and
//! `_DeleteTrayMessageBox` (UniExtract.au3:4261-4342) — whether to show
//! it, where to put it, and what text it holds.
use vstd::prelude::*;
use crate::text::{chars_of, owned, string_from_range};

verus! {

/// The `$bOptNoStatusBox` gate (UniExtract.au3:4264). The source closes
/// any open popup before this test, whether or not a new one is shown.
pub fn should_show_status_box(no_status_box: bool) -> (r: bool)
    ensures
        r == !no_status_box,
{
    !no_status_box
}

/// The fullscreen suppression (UniExtract.au3:4267-4270): when enabled,
/// no popup while the active window has exactly the desktop's size.
pub fn should_suppress_for_fullscreen(
    hide_if_fullscreen: bool,
    active_window_size: (i32, i32),
    desktop_size: (i32, i32),
) -> (r: bool)
    ensures
        r == (hide_if_fullscreen && active_window_size.0 == desktop_size.0 && active_window_size.1
            == desktop_size.1),
{
    hide_if_fullscreen && active_window_size.0 == desktop_size.0 && active_window_size.1
        == desktop_size.1
}

/// `text` cut to its first `max_chars` characters followed by ` [...]`
/// when it is longer, else `text` itself.
pub open spec fn truncated(text: Seq<char>, max_chars: nat) -> Seq<char> {
    if text.len() > max_chars {
        text.take(max_chars as int) + " [...]"@
    } else {
        text
    }
}

/// The truncation rules (UniExtract.au3:4282-4283): the filename label
/// is cut at 28 characters and the message at 56, by characters (not
/// bytes), with ` [...]` appended when cut.
pub fn truncate_with_ellipsis(text: &str, max_chars: usize) -> (r: String)
    ensures
        r@ == truncated(text@, max_chars as nat),
{
    let v = chars_of(text);
    if v.len() > max_chars {
        let mut r = string_from_range(&v, 0, max_chars);
        r.append(" [...]");
        assert(v@.subrange(0, max_chars as int) =~= text@.take(max_chars as int));
        r
    } else {
        owned(text)
    }
}

/// A screen rectangle, as `WinGetPos` returns it.
#[derive(Debug, Clone, Copy, PartialEq, Eq, Structural)]
pub struct ScreenRect {
    pub x: i32,
    pub y: i32,
    pub width: i32,
    pub height: i32,
}

/// The gap between the popup and the taskbar or the screen edge.
pub const BETWEEN: i32 = 5;

/// A stored `statusposx`/`statusposy` pair that is used as it is: both
/// values above `-1`.
pub open spec fn stored_wins(stored_position: Option<(i32, i32)>) -> bool {
    match stored_position {
        Some((x, y)) => x > -1 && y > -1,
        None => false,
    }
}

/// The stored pair, as integers.
pub open spec fn stored_pair(stored_position: Option<(i32, i32)>) -> (int, int) {
    match stored_position {
        Some((x, y)) => (x as int, y as int),
        None => (0, 0),
    }
}

/// The taskbar rectangle: the one found, or, when `WinGetPos` fails, a
/// 30-pixel bar across the top of the desktop.
pub open spec fn taskbar_or_default(taskbar_rect: Option<ScreenRect>, desktop_width: i32) -> ScreenRect {
    match taskbar_rect {
        Some(r) => r,
        None => ScreenRect { x: 0, y: 0, width: desktop_width, height: 30 },
    }
}

/// The vertical offset before the range check: below a top-docked
/// taskbar (detected by its x and y being equal), else above it.
pub open spec fn candidate_space(taskbar: ScreenRect, popup_height: i32) -> int {
    if taskbar.x == taskbar.y {
        taskbar.height + BETWEEN
    } else {
        taskbar.y - popup_height - BETWEEN
    }
}

/// The popup's position (UniExtract.au3:4272-4313).
pub open spec fn popup_position(
    stored_position: Option<(i32, i32)>,
    popup_size: (i32, i32),
    taskbar_rect: Option<ScreenRect>,
    desktop_size: (i32, i32),
) -> (int, int) {
    if stored_wins(stored_position) {
        stored_pair(stored_position)
    } else {
        let space = candidate_space(taskbar_or_default(taskbar_rect, desktop_size.0), popup_size.1);
        let y = if space < 0 || space > desktop_size.1 {
            desktop_size.1 - popup_size.1 - BETWEEN
        } else {
            space
        };
        (desktop_size.0 - (popup_size.0 + BETWEEN), y)
    }
}

/// `v` fits in an `i32`.
pub open spec fn fits_i32(v: int) -> bool {
    i32::MIN <= v <= i32::MAX
}

/// Every intermediate value [`resolve_position`] computes fits in an
/// `i32` (the source's arithmetic overflows otherwise).
pub open spec fn position_in_range(
    stored_position: Option<(i32, i32)>,
    popup_size: (i32, i32),
    taskbar_rect: Option<ScreenRect>,
    desktop_size: (i32, i32),
) -> bool {
    let tb = taskbar_or_default(taskbar_rect, desktop_size.0);
    stored_wins(stored_position) || {
        &&& fits_i32(popup_size.0 + BETWEEN)
        &&& fits_i32(desktop_size.0 - (popup_size.0 + BETWEEN))
        &&& (tb.x == tb.y ==> fits_i32(tb.height + BETWEEN))
        &&& (tb.x != tb.y ==> fits_i32(tb.y - popup_size.1) && fits_i32(
            tb.y - popup_size.1 - BETWEEN,
        ))
        &&& fits_i32(desktop_size.1 - popup_size.1)
        &&& fits_i32(desktop_size.1 - popup_size.1 - BETWEEN)
    }
}

/// The popup's position (UniExtract.au3:4272-4313): a stored position
/// with both values above `-1` wins; otherwise the popup sits at the
/// right edge, below a top-docked taskbar or above any other, and when
/// that offset is negative or beyond the desktop's height, at the bottom
/// right of the screen.
pub fn resolve_position(
    stored_position: Option<(i32, i32)>,
    popup_size: (i32, i32),
    taskbar_rect: Option<ScreenRect>,
    desktop_size: (i32, i32),
) -> (r: (i32, i32))
    requires
        position_in_range(stored_position, popup_size, taskbar_rect, desktop_size),
    ensures
        (r.0 as int, r.1 as int) == popup_position(stored_position, popup_size, taskbar_rect, desktop_size),
{
    let (popup_width, popup_height) = popup_size;
    let (desktop_width, desktop_height) = desktop_size;
    if let Some((x, y)) = stored_position {
        if x > -1 && y > -1 {
            return (x, y);
        }
    }
    let taskbar = match taskbar_rect {
        Some(r) => r,
        None => ScreenRect { x: 0, y: 0, width: desktop_width, height: 30 },
    };
    let mut space = if taskbar.x == taskbar.y {
        taskbar.height + BETWEEN
    } else {
        taskbar.y - popup_height - BETWEEN
    };
    if space < 0 || space > desktop_height {
        space = desktop_height - popup_height - BETWEEN;
    }
    let x = desktop_width - (popup_width + BETWEEN);
    (x, space)
}

/// `v` as an `i32`, when it fits.
fn fit_i32(v: i64) -> (r: Option<i32>)
    ensures
        match r {
            Some(x) => fits_i32(v as int) && x == v,
            None => !fits_i32(v as int),
        },
{
    if i32::MIN as i64 <= v && v <= i32::MAX as i64 {
        Some(v as i32)
    } else {
        None
    }
}

/// [`resolve_position`] for every input: `None` exactly where one of its
/// `i32` computations overflows.
pub fn try_resolve_position(
    stored_position: Option<(i32, i32)>,
    popup_size: (i32, i32),
    taskbar_rect: Option<ScreenRect>,
    desktop_size: (i32, i32),
) -> (r: Option<(i32, i32)>)
    ensures
        match r {
            Some(p) => position_in_range(stored_position, popup_size, taskbar_rect, desktop_size)
                && (p.0 as int, p.1 as int) == popup_position(
                stored_position,
                popup_size,
                taskbar_rect,
                desktop_size,
            ),
            None => !position_in_range(stored_position, popup_size, taskbar_rect, desktop_size),
        },
{
    if let Some((x, y)) = stored_position {
        if x > -1 && y > -1 {
            return Some(resolve_position(stored_position, popup_size, taskbar_rect, desktop_size));
        }
    }
    let (popup_width, popup_height) = popup_size;
    let (desktop_width, desktop_height) = desktop_size;
    let tb = match taskbar_rect {
        Some(r) => r,
        None => ScreenRect { x: 0, y: 0, width: desktop_width, height: 30 },
    };
    let ok_width = fit_i32(popup_width as i64 + 5).is_some() && fit_i32(
        desktop_width as i64 - (popup_width as i64 + 5),
    ).is_some();
    let ok_taskbar = if tb.x == tb.y {
        fit_i32(tb.height as i64 + 5).is_some()
    } else {
        fit_i32(tb.y as i64 - popup_height as i64).is_some() && fit_i32(
            tb.y as i64 - popup_height as i64 - 5,
        ).is_some()
    };
    let ok_desktop = fit_i32(desktop_height as i64 - popup_height as i64).is_some() && fit_i32(
        desktop_height as i64 - popup_height as i64 - 5,
    ).is_some();
    if ok_width && ok_taskbar && ok_desktop {
        Some(resolve_position(stored_position, popup_size, taskbar_rect, desktop_size))
    } else {
        None
    }
}

} // verus!
