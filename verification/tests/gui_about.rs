use rusty_extract::gui::about::{resolve_about_logo_filename};
#[test]
fn logo_filename_swaps_for_high_contrast() {
    assert_eq!(resolve_about_logo_filename(true), "BioruebeWhite.png");
    assert_eq!(resolve_about_logo_filename(false), "Bioruebe.png");
}
