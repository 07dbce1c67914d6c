use rusty_extract::gui::tray_status_box::{ScreenRect, resolve_position, should_show_status_box, should_suppress_for_fullscreen, truncate_with_ellipsis};
#[test]
fn shows_unless_no_status_box_is_set() {
    assert!(should_show_status_box(false));
    assert!(!should_show_status_box(true));
}

#[test]
fn fullscreen_suppression_requires_exact_size_match() {
    assert!(should_suppress_for_fullscreen(
        true,
        (1920, 1080),
        (1920, 1080)
    ));
    assert!(!should_suppress_for_fullscreen(
        true,
        (1918, 1080),
        (1920, 1080)
    ));
    assert!(!should_suppress_for_fullscreen(
        false,
        (1920, 1080),
        (1920, 1080)
    ));
}

#[test]
fn truncates_by_character_count_with_ellipsis_suffix() {
    assert_eq!(truncate_with_ellipsis("short", 28), "short");
    let exactly_28 = "a".repeat(28);
    assert_eq!(truncate_with_ellipsis(&exactly_28, 28), exactly_28);
    let long = "a".repeat(30);
    assert_eq!(
        truncate_with_ellipsis(&long, 28),
        format!("{} [...]", "a".repeat(28))
    );
}

/// Truncation counts characters,
/// not bytes -- a multi-byte character must not be split.
#[test]
fn truncation_counts_characters_not_bytes() {
    let text = "é".repeat(30);
    let result = truncate_with_ellipsis(&text, 28);
    assert_eq!(result.chars().count(), 28 + " [...]".chars().count());
    assert!(result.starts_with(&"é".repeat(28)));
}

#[test]
fn stored_position_wins_outright() {
    assert_eq!(
        resolve_position(Some((100, 200)), (225, 100), None, (1920, 1080)),
        (100, 200)
    );
}

/// A top-docked taskbar (x == y ==
/// 0) places the popup just below it.
#[test]
fn top_docked_taskbar_places_popup_below_it() {
    let taskbar = ScreenRect {
        x: 0,
        y: 0,
        width: 1920,
        height: 40,
    };
    let (x, y) = resolve_position(None, (225, 100), Some(taskbar), (1920, 1080));
    assert_eq!(x, 1920 - (225 + 5));
    assert_eq!(y, 40 + 5);
}

/// A bottom-docked taskbar (x != y)
/// places the popup just above it.
#[test]
fn bottom_docked_taskbar_places_popup_above_it() {
    let taskbar = ScreenRect {
        x: 0,
        y: 1040,
        width: 1920,
        height: 40,
    };
    let (_, y) = resolve_position(None, (225, 100), Some(taskbar), (1920, 1080));
    assert_eq!(y, 1040 - 100 - 5);
}

/// An out-of-range computed space
/// falls back to the bottom-right corner of the screen.
#[test]
fn out_of_range_space_falls_back_to_bottom_right() {
    let bogus_taskbar = ScreenRect {
        x: 0,
        y: 2000,
        width: 1920,
        height: 40,
    };
    let (_, y) = resolve_position(None, (225, 100), Some(bogus_taskbar), (1920, 1080));
    assert_eq!(y, 1080 - 100 - 5);
}

#[test]
fn missing_taskbar_defaults_to_a_synthetic_top_docked_rect() {
    let (_, y) = resolve_position(None, (225, 100), None, (1920, 1080));
    assert_eq!(y, 30 + 5);
}
