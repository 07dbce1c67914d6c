//! Light/dark theme and high-contrast detection:
//! `_AppsUseLightTheme` and `_IsHighContrastMode`
//! (UniExtract.au3:6139-6178), and `_GuiSetColor`'s white-background
//! decision (UniExtract.au3:6186-6191).
use vstd::prelude::*;
use crate::automation::GuiAutomation;

verus! {

/// The registry key holding the theme preference.
pub const PERSONALIZE_KEY: &'static str = "HKCU\\Software\\Microsoft\\Windows\\CurrentVersion\\Themes\\Personalize";

/// The `REG_DWORD` value telling whether applications use the light
/// theme.
pub const APPS_USE_LIGHT_THEME_VALUE: &'static str = "AppsUseLightTheme";

/// `HCF_HIGHCONTRASTON`, the high-contrast bit of `SPI_GETHIGHCONTRAST`'s
/// flags.
pub const HCF_HIGHCONTRASTON: u32 = 0x0000_0001;

/// Light unless the value reads as zero; a missing value or a read
/// error means light.
pub open spec fn light_theme(value: Option<u32>) -> bool {
    match value {
        Some(v) => v != 0,
        None => true,
    }
}

/// What `_AppsUseLightTheme` (UniExtract.au3:6169-6175) makes of the
/// `AppsUseLightTheme` value, as [`light_theme`] says.
pub fn light_theme_from_dword(value: Option<u32>) -> (r: bool)
    ensures
        r == light_theme(value),
{
    match value {
        Some(v) => v != 0,
        None => true,
    }
}

/// `_AppsUseLightTheme` (UniExtract.au3:6169-6175): reads the
/// `AppsUseLightTheme` value under [`PERSONALIZE_KEY`] and decides on it
/// as [`light_theme`] says. Which value comes back is the registry's, as
/// the automation's [`GuiAutomation::dword_read_gives`] allows.
pub fn apps_use_light_theme<A: GuiAutomation>(automation: &mut A) -> (r: bool)
    ensures
        exists|value: Option<u32>|
            old(automation).dword_read_gives(PERSONALIZE_KEY@, APPS_USE_LIGHT_THEME_VALUE@, value)
                && r == light_theme(value),
{
    let value = automation.reg_read_dword(PERSONALIZE_KEY, APPS_USE_LIGHT_THEME_VALUE);
    light_theme_from_dword(value)
}

/// `_IsHighContrastMode`'s bit test (UniExtract.au3:6139-6165) of the
/// `SPI_GETHIGHCONTRAST` flags; `None` (the call failed) means not high
/// contrast.
pub fn is_high_contrast(flags: Option<u32>) -> (r: bool)
    ensures
        r == (match flags {
            Some(f) => f & HCF_HIGHCONTRASTON != 0,
            None => false,
        }),
{
    match flags {
        Some(f) => f & HCF_HIGHCONTRASTON != 0,
        None => false,
    }
}

/// Whether a Windows version is Windows 10 and not 11: major version 10
/// with a build below 22000 (Windows 11 still reports major version 10).
pub fn is_windows10_not_11_version(major_version: u32, build_number: u32) -> (r: bool)
    ensures
        r == (major_version == 10 && build_number < 22000),
{
    major_version == 10 && build_number < 22000
}

/// `_GuiSetColor`'s white-background gate (UniExtract.au3:6186-6191):
/// Windows 10 (not 11), not high contrast, and the light theme. Dark
/// mode keeps the system's default background.
pub fn should_use_white_background(is_windows10_not_11: bool, high_contrast: bool, light_theme: bool) -> (r: bool)
    ensures
        r == (is_windows10_not_11 && !high_contrast && light_theme),
{
    is_windows10_not_11 && !high_contrast && light_theme
}

} // verus!
