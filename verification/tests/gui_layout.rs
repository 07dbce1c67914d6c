use rusty_extract::gui::layout::{resolve_ex_style};
#[test]
fn ex_style_sentinel_negative_one_resolves_to_zero() {
    assert_eq!(resolve_ex_style(-1), 0);
}

#[test]
fn ex_style_non_negative_passes_through_unchanged() {
    assert_eq!(resolve_ex_style(0), 0);
    assert_eq!(resolve_ex_style(0x00080000), 0x00080000);
}
