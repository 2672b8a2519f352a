use vstd::prelude::*;

use crate::theme::RegistryValue;

verus! {

/// The `HCF_HIGHCONTRASTON` bit of `HIGHCONTRASTW::dwFlags`.
pub const HCF_HIGHCONTRASTON: u32 = 1;

/// Red channel of a Win32 `COLORREF` (`0x00BBGGRR`).
pub open spec fn colorref_red(color: u32) -> int {
    color as int % 256
}

/// Green channel of a Win32 `COLORREF`.
pub open spec fn colorref_green(color: u32) -> int {
    (color as int / 256) % 256
}

/// Blue channel of a Win32 `COLORREF`.
pub open spec fn colorref_blue(color: u32) -> int {
    (color as int / 65536) % 256
}

/// Rec. 601 luma scaled by 1000: `299 r + 587 g + 114 b`.
pub open spec fn rec601_luma(r: int, g: int, b: int) -> int {
    299 * r + 587 * g + 114 * b
}

/// A colour counts as light when its luma reaches mid-grey (`128 * 1000`).
pub open spec fn luma_is_light(r: int, g: int, b: int) -> bool {
    rec601_luma(r, g, b) >= 128000
}

pub open spec fn colorref_is_light_spec(color: u32) -> bool {
    luma_is_light(colorref_red(color), colorref_green(color), colorref_blue(color))
}

/// Whether a `COLORREF` is light by Rec. 601 luma against a mid-grey threshold.
pub fn colorref_is_light(color: u32) -> (light: bool)
    ensures
        light == colorref_is_light_spec(color),
        light == (299 * (color as int % 256) + 587 * ((color as int / 256) % 256) + 114 * ((
        color as int / 65536) % 256) >= 128000),
{
    assert((color & 0xff) == color % 256) by (bit_vector);
    assert(((color >> 8) & 0xff) == (color / 256) % 256) by (bit_vector);
    assert(((color >> 16) & 0xff) == (color / 65536) % 256) by (bit_vector);
    let r: u32 = color & 0xff;
    let g: u32 = (color >> 8) & 0xff;
    let b: u32 = (color >> 16) & 0xff;
    (r * 299 + g * 587 + b * 114) >= 128_000
}

/// The verdict on a `COLORREF` built from red, green and blue bytes
/// (`0x00BBGGRR`) is Rec. 601 luma against mid-grey on exactly those channels:
/// red is the low byte, blue the third.
pub proof fn lemma_colorref_verdict_by_channels(r: u32, g: u32, b: u32)
    requires
        r < 256,
        g < 256,
        b < 256,
    ensures
        colorref_is_light_spec((r + 256 * g + 65536 * b) as u32) == (299 * r + 587 * g + 114 * b
            >= 128000),
{
    let c: u32 = (r + 256 * g + 65536 * b) as u32;
    assert(c as int == r + 256 * g + 65536 * b);
    assert(c as int % 256 == r);
    assert((c as int / 256) % 256 == g);
    assert((c as int / 65536) % 256 == b);
}

/// For every colour the verdict is `299 r + 587 g + 114 b >= 128000` with red
/// the low byte, green the second and blue the third.
pub proof fn lemma_colorref_verdict_formula(color: u32)
    ensures
        colorref_is_light_spec(color) == (299 * (color as int % 256) + 587 * ((color as int / 256)
            % 256) + 114 * ((color as int / 65536) % 256) >= 128000),
{
}

/// Red (the low byte) weighs more than blue (the third byte): moving a full
/// channel from blue to red never turns a light colour dark, and with green at
/// 128 or more a full red is light while a full blue is not.
pub proof fn lemma_red_outweighs_blue(g: u32)
    requires
        g < 256,
    ensures
        colorref_is_light_spec((65536 * 255 + 256 * g) as u32) ==> colorref_is_light_spec(
            (255 + 256 * g) as u32,
        ),
        128 <= g < 136 ==> colorref_is_light_spec((255 + 256 * g) as u32)
            && !colorref_is_light_spec((65536 * 255 + 256 * g) as u32),
{
    lemma_colorref_verdict_by_channels(255, g, 0);
    lemma_colorref_verdict_by_channels(0, g, 255);
}

/// With high contrast on, its verdict alone decides, whatever the registry
/// holds; without it, only a non-zero `SystemUsesLightTheme` makes the shell light.
pub proof fn lemma_high_contrast_decides_shell(high_contrast: bool, registry: RegistryValue)
    ensures
        shell_light_spec(Some(high_contrast), registry) == high_contrast,
        shell_light_spec(None, registry) <==> ((registry matches RegistryValue::Dword(v) && v != 0)),
        !shell_light_spec(None, RegistryValue::KeyUnavailable),
        !shell_light_spec(None, RegistryValue::ValueUnavailable),
{
}

/// High contrast counts as on exactly when the query succeeded and the
/// `HCF_HIGHCONTRASTON` bit (bit 0) is set, whatever the other flag bits are;
/// then the menu colour's lightness decides.
pub proof fn lemma_high_contrast_only_bit_zero(query_ok: i32, flags: u32, menu_color: u32)
    ensures
        query_ok != 0 && flags % 2 == 1 ==> high_contrast_spec(query_ok, flags, menu_color)
            == Some(colorref_is_light_spec(menu_color)),
        query_ok == 0 || flags % 2 == 0 ==> high_contrast_spec(query_ok, flags, menu_color)
            is None,
        high_contrast_spec(query_ok, flags, menu_color) == high_contrast_spec(
            query_ok,
            flags % 2,
            menu_color,
        ),
{
    assert((flags & 1) == 0 <==> flags % 2 == 0) by (bit_vector);
    let f2: u32 = flags % 2;
    assert((f2 & 1) == 0 <==> f2 % 2 == 0) by (bit_vector);
}

/// A grey (`r == g == b == v`) is light exactly from `v == 128` up: the
/// threshold sits at mid-grey.
pub proof fn lemma_grey_threshold_is_mid_grey(v: int)
    requires
        0 <= v < 256,
    ensures
        luma_is_light(v, v, v) <==> v >= 128,
{
}

/// Raising any channel never turns a light colour dark.
pub proof fn lemma_light_is_monotone(c1: u32, c2: u32)
    requires
        colorref_red(c1) <= colorref_red(c2),
        colorref_green(c1) <= colorref_green(c2),
        colorref_blue(c1) <= colorref_blue(c2),
        colorref_is_light_spec(c1),
    ensures
        colorref_is_light_spec(c2),
{
}

/// The glyph always contrasts with the shell: a light shell never gets the
/// light glyph and a dark shell never the dark one.
pub proof fn lemma_glyph_contrasts(shell_is_light: bool)
    ensures
        (contrasting_glyph(shell_is_light) == TrayGlyph::Dark) <==> shell_is_light,
        (contrasting_glyph(shell_is_light) == TrayGlyph::Light) <==> !shell_is_light,
{
}

/// The high byte of a `COLORREF` plays no part in the verdict.
pub proof fn lemma_high_byte_is_ignored(color: u32, high: u32)
    requires
        high < 256,
    ensures
        colorref_is_light_spec(color) == colorref_is_light_spec(
            ((color as int % 0x0100_0000) + high * 0x0100_0000) as u32,
        ),
{
    let c2 = ((color as int % 0x0100_0000) + high * 0x0100_0000) as u32;
    assert(c2 as int == color as int % 0x0100_0000 + high * 0x0100_0000);
    assert(c2 % 256 == color % 256) by (bit_vector)
        requires
            c2 as int == color as int % 0x0100_0000 + high * 0x0100_0000,
            high < 256,
    ;
    assert((c2 / 256) % 256 == (color / 256) % 256) by (bit_vector)
        requires
            c2 as int == color as int % 0x0100_0000 + high * 0x0100_0000,
            high < 256,
    ;
    assert((c2 / 65536) % 256 == (color / 65536) % 256) by (bit_vector)
        requires
            c2 as int == color as int % 0x0100_0000 + high * 0x0100_0000,
            high < 256,
    ;
}

/// When high contrast is on, shell lightness comes from the `COLOR_MENU` colour.
/// `None` = the query failed (`query_ok == 0`) or high contrast is off.
pub open spec fn high_contrast_spec(query_ok: i32, flags: u32, menu_color: u32) -> Option<bool> {
    if query_ok == 0 || flags & HCF_HIGHCONTRASTON == 0 {
        None
    } else {
        Some(colorref_is_light_spec(menu_color))
    }
}

/// `SystemUsesLightTheme` (`1` light shell, `0` dark); a missing key or value
/// counts as a dark shell.
pub open spec fn registry_shell_light_spec(system_uses_light_theme: RegistryValue) -> bool {
    match system_uses_light_theme {
        RegistryValue::Dword(v) => v != 0,
        _ => false,
    }
}

/// High contrast decides first; otherwise the registry does.
pub open spec fn shell_light_spec(high_contrast: Option<bool>, system_uses_light_theme: RegistryValue) -> bool {
    match high_contrast {
        Some(light) => light,
        None => registry_shell_light_spec(system_uses_light_theme),
    }
}

/// Derives shell lightness from the `SPI_GETHIGHCONTRAST` answer: `query_ok` is
/// the `BOOL` that `SystemParametersInfoW` returned, `flags` the `dwFlags` it
/// filled in and `menu_color` the `COLOR_MENU` system colour.
pub fn windows_high_contrast_shell_is_light(query_ok: i32, flags: u32, menu_color: u32) -> (light:
    Option<bool>)
    ensures
        light == high_contrast_spec(query_ok, flags, menu_color),
        light is None <==> (query_ok == 0 || flags % 2 == 0),
        light is Some ==> light == Some(colorref_is_light_spec(menu_color)),
{
    assert((flags & 1) == 0 <==> flags % 2 == 0) by (bit_vector);
    if query_ok == 0 || (flags & HCF_HIGHCONTRASTON) == 0 {
        return None;
    }
    Some(colorref_is_light(menu_color))
}

/// Whether the taskbar / tray flyout shell is light (and so needs a dark glyph).
///
/// Order: high contrast, judged by the menu background's luma; else
/// `SystemUsesLightTheme` (`1` light, `0` dark). A missing key or value means a
/// dark shell.
pub fn windows_system_shell_is_light(high_contrast: Option<bool>, system_uses_light_theme: RegistryValue) -> (light: bool)
    ensures
        light == shell_light_spec(high_contrast, system_uses_light_theme),
        high_contrast matches Some(b) ==> light == b,
        high_contrast is None ==> (light <==> (system_uses_light_theme matches RegistryValue::Dword(
            v,
        ) && v != 0)),
{
    if let Some(light) = high_contrast {
        return light;
    }
    match system_uses_light_theme {
        RegistryValue::KeyUnavailable => false,
        RegistryValue::ValueUnavailable => false,
        RegistryValue::Dword(light) => light != 0,
    }
}

/// The two tray / window glyphs that ship with the app.
#[derive(Debug, Clone, Copy, PartialEq, Eq, Structural)]
pub enum TrayGlyph {
    /// The dark glyph, `icons/icon.png`, for light backgrounds.
    Dark,
    /// The light glyph, `icons/icon-light.png`, for dark backgrounds.
    Light,
}

pub open spec fn glyph_asset_spec(glyph: TrayGlyph) -> Seq<char> {
    match glyph {
        TrayGlyph::Dark => "../icons/icon.png"@,
        TrayGlyph::Light => "../icons/icon-light.png"@,
    }
}

impl TrayGlyph {
    /// Path of the glyph's PNG, relative to the source directory of the app.
    pub fn asset_path(&self) -> (path: &'static str)
        ensures
            path@ == glyph_asset_spec(*self),
    {
        match self {
            TrayGlyph::Dark => "../icons/icon.png",
            TrayGlyph::Light => "../icons/icon-light.png",
        }
    }
}

/// The glyph that contrasts with the shell: dark on a light shell, light on a dark one.
pub open spec fn contrasting_glyph(shell_is_light: bool) -> TrayGlyph {
    if shell_is_light {
        TrayGlyph::Dark
    } else {
        TrayGlyph::Light
    }
}

/// Settings window title-bar / taskbar button icon follows the shell (taskbar)
/// theme, like the tray, not the in-app appearance: a light shell takes the
/// dark glyph and a dark shell the light one.
pub fn tray_icon_png_for_shell_light(shell_is_light: bool) -> (glyph: TrayGlyph)
    ensures
        glyph == contrasting_glyph(shell_is_light),
        shell_is_light ==> glyph == TrayGlyph::Dark,
        !shell_is_light ==> glyph == TrayGlyph::Light,
{
    if shell_is_light {
        TrayGlyph::Dark
    } else {
        TrayGlyph::Light
    }
}

/// The glyph for the Windows shell chrome (tray and settings taskbar button),
/// from the high contrast reading and `SystemUsesLightTheme`.
pub fn shell_chrome_icon_png(high_contrast: Option<bool>, system_uses_light_theme: RegistryValue) -> (glyph:
    TrayGlyph)
    ensures
        glyph == contrasting_glyph(shell_light_spec(high_contrast, system_uses_light_theme)),
{
    tray_icon_png_for_shell_light(windows_system_shell_is_light(high_contrast, system_uses_light_theme))
}

/// Where the main tray icon lives.
#[derive(Debug, Clone, Copy, PartialEq, Eq, Structural)]
pub enum TrayHost {
    /// Windows, with the current lightness of the taskbar shell.
    Windows { shell_is_light: bool },
    /// macOS, where the glyph is a template image that the menu bar recolours.
    MacOs,
}

/// The initial tray glyph: Windows follows the shell theme; macOS uses the
/// template source, `icons/icon.png`.
pub fn main_tray_glyph(host: TrayHost) -> (glyph: TrayGlyph)
    ensures
        glyph == match host {
            TrayHost::Windows { shell_is_light } => contrasting_glyph(shell_is_light),
            TrayHost::MacOs => TrayGlyph::Dark,
        },
{
    match host {
        TrayHost::Windows { shell_is_light } => tray_icon_png_for_shell_light(shell_is_light),
        TrayHost::MacOs => TrayGlyph::Dark,
    }
}

} // verus!
