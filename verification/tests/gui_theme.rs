use rusty_extract::gui::theme::{APPS_USE_LIGHT_THEME_VALUE, PERSONALIZE_KEY, apps_use_light_theme, is_high_contrast, should_use_white_background};
use rusty_extract::automation::GuiAutomation;
use rusty_extract::gui::theme::light_theme_from_dword;
use std::collections::HashMap;

/// A registry held in memory: `(key, value name)` to `REG_DWORD`.
struct FakeGuiAutomation {
    dwords: HashMap<(String, String), u32>,
}

impl FakeGuiAutomation {
    fn new() -> Self {
        FakeGuiAutomation { dwords: HashMap::new() }
    }

    fn set_reg_dword(&mut self, key: &str, value_name: &str, value: u32) {
        self.dwords.insert((key.to_string(), value_name.to_string()), value);
    }
}

impl GuiAutomation for FakeGuiAutomation {
    fn reg_read_dword(&mut self, key: &str, value_name: &str) -> Option<u32> {
        self.dwords.get(&(key.to_string(), value_name.to_string())).copied()
    }
}

#[test]
fn apps_use_light_theme_reads_the_registry_value() {
    let mut fake = FakeGuiAutomation::new();
    fake.set_reg_dword(PERSONALIZE_KEY, APPS_USE_LIGHT_THEME_VALUE, 0);
    assert!(!apps_use_light_theme(&mut fake));

    fake.set_reg_dword(PERSONALIZE_KEY, APPS_USE_LIGHT_THEME_VALUE, 1);
    assert!(apps_use_light_theme(&mut fake));
}

/// An unset/unreadable value fails
/// open to light, not dark.
#[test]
fn apps_use_light_theme_fails_open_to_light_when_unset() {
    let mut fake = FakeGuiAutomation::new();
    assert!(apps_use_light_theme(&mut fake));
}

#[test]
fn high_contrast_bit_test() {
    assert!(!is_high_contrast(None));
    assert!(!is_high_contrast(Some(0)));
    assert!(is_high_contrast(Some(0x0000_0001)));
    assert!(is_high_contrast(Some(0x0000_0001 | 0x0000_0002)));
}

/// All three conditions must hold;
/// any one failing keeps the OS default background.
#[test]
fn white_background_requires_all_three_conditions() {
    assert!(should_use_white_background(true, false, true));
    assert!(!should_use_white_background(false, false, true));
    assert!(!should_use_white_background(true, true, true));
    assert!(!should_use_white_background(true, false, false));
}

#[test]
fn light_theme_from_dword_fails_open_and_reads_zero_as_dark() {
    assert!(light_theme_from_dword(None));
    assert!(!light_theme_from_dword(Some(0)));
    assert!(light_theme_from_dword(Some(1)));
    assert!(light_theme_from_dword(Some(7)));
}

#[test]
fn apps_use_light_theme_ignores_other_values() {
    let mut fake = FakeGuiAutomation::new();
    fake.set_reg_dword(PERSONALIZE_KEY, "SystemUsesLightTheme", 0);
    assert!(apps_use_light_theme(&mut fake));
}
