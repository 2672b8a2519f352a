use markeron::{
    colorref_is_light, main_tray_glyph, shell_chrome_icon_png, tray_icon_png_for_shell_light,
    windows_high_contrast_shell_is_light, windows_system_shell_is_light, RegistryValue, TrayGlyph,
    TrayHost,
};

#[test]
fn tray_png_dark_shell_uses_light_glyph() {
    let bytes = tray_icon_png_for_shell_light(false);
    assert_eq!(bytes, TrayGlyph::Light);
    assert_eq!(bytes.asset_path(), "../icons/icon-light.png");
}

#[test]
fn tray_png_light_shell_uses_dark_glyph() {
    let bytes = tray_icon_png_for_shell_light(true);
    assert_eq!(bytes, TrayGlyph::Dark);
    assert_eq!(bytes.asset_path(), "../icons/icon.png");
}

#[test]
fn colorref_mid_grey_and_extremes() {
    assert!(colorref_is_light(0x00ff_ffff)); // white
    assert!(!colorref_is_light(0x0000_0000)); // black
    assert!(colorref_is_light(0x00c0_c0c0)); // light grey
    assert!(!colorref_is_light(0x0040_4040)); // dark grey
}

#[test]
fn colorref_grey_threshold_at_128() {
    assert!(colorref_is_light(0x0080_8080));
    assert!(!colorref_is_light(0x007f_7f7f));
}

#[test]
fn colorref_channel_weights() {
    // pure green: 255 * 587 = 149685
    assert!(colorref_is_light(0x0000_ff00));
    // pure red: 255 * 299 = 76245
    assert!(!colorref_is_light(0x0000_00ff));
    // pure blue: 255 * 114 = 29070
    assert!(!colorref_is_light(0x00ff_0000));
    // red + blue: 105315
    assert!(!colorref_is_light(0x00ff_00ff));
    // the high byte is ignored
    assert!(colorref_is_light(0xffff_ffff));
    assert!(!colorref_is_light(0xff00_0000));
}

#[test]
fn high_contrast_needs_success_and_flag() {
    assert_eq!(windows_high_contrast_shell_is_light(0, 1, 0x00ff_ffff), None);
    assert_eq!(windows_high_contrast_shell_is_light(1, 0, 0x00ff_ffff), None);
    assert_eq!(windows_high_contrast_shell_is_light(1, 2, 0x00ff_ffff), None);
    assert_eq!(windows_high_contrast_shell_is_light(1, 1, 0x00ff_ffff), Some(true));
    assert_eq!(windows_high_contrast_shell_is_light(1, 3, 0x0000_0000), Some(false));
}

#[test]
fn shell_lightness_prefers_high_contrast() {
    assert!(windows_system_shell_is_light(Some(true), RegistryValue::Dword(0)));
    assert!(!windows_system_shell_is_light(Some(false), RegistryValue::Dword(1)));
}

#[test]
fn shell_lightness_from_registry() {
    assert!(windows_system_shell_is_light(None, RegistryValue::Dword(1)));
    assert!(!windows_system_shell_is_light(None, RegistryValue::Dword(0)));
    assert!(!windows_system_shell_is_light(None, RegistryValue::KeyUnavailable));
    assert!(!windows_system_shell_is_light(None, RegistryValue::ValueUnavailable));
}

#[test]
fn shell_chrome_glyph_contrasts_with_shell() {
    assert_eq!(shell_chrome_icon_png(None, RegistryValue::Dword(1)), TrayGlyph::Dark);
    assert_eq!(shell_chrome_icon_png(None, RegistryValue::Dword(0)), TrayGlyph::Light);
    assert_eq!(shell_chrome_icon_png(None, RegistryValue::KeyUnavailable), TrayGlyph::Light);
    assert_eq!(shell_chrome_icon_png(Some(true), RegistryValue::Dword(0)), TrayGlyph::Dark);
}

#[test]
fn main_tray_glyph_per_platform() {
    assert_eq!(main_tray_glyph(TrayHost::MacOs), TrayGlyph::Dark);
    assert_eq!(main_tray_glyph(TrayHost::Windows { shell_is_light: false }), TrayGlyph::Light);
    assert_eq!(main_tray_glyph(TrayHost::Windows { shell_is_light: true }), TrayGlyph::Dark);
}
