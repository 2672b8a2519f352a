use vstd::prelude::*;

verus! {

/// The appearance the user picked in the general settings.
#[derive(Debug, Clone, Copy, PartialEq, Eq, Structural)]
pub enum ThemePreference {
    Dark,
    Light,
    /// Follow the operating system's app colour mode.
    System,
}

/// The concrete appearance the settings window is drawn with.
#[derive(Debug, Clone, Copy, PartialEq, Eq, Structural)]
pub enum ResolvedTheme {
    Dark,
    Light,
}

/// What a read of one `DWORD` under the `Personalize` registry key gave.
#[derive(Debug, Clone, Copy, PartialEq, Eq, Structural)]
pub enum RegistryValue {
    /// The `Personalize` key itself could not be opened.
    KeyUnavailable,
    /// The key opened, but the value is absent or not a `DWORD`.
    ValueUnavailable,
    /// The value was read.
    Dword(u32),
}

/// A snapshot of the system appearance signal of the platform the app runs on.
#[derive(Debug, Clone, Copy, PartialEq, Eq, Structural)]
pub enum SystemAppearance {
    /// Windows: the `AppsUseLightTheme` value (`1` light apps, `0` dark apps).
    Windows { apps_use_light_theme: RegistryValue },
    /// macOS: whether the effective appearance is a dark one.
    MacOs { dark: bool },
    /// Any other platform, which offers no signal.
    Other,
}

/// Windows app colour mode: dark unless `AppsUseLightTheme` reads non-zero.
/// A missing key or value counts as dark.
pub open spec fn apps_dark_spec(apps_use_light_theme: RegistryValue) -> bool {
    match apps_use_light_theme {
        RegistryValue::Dword(v) => v == 0,
        _ => true,
    }
}

/// Whether the platform asks for dark apps; platforms without a signal count as dark.
pub open spec fn system_dark_spec(appearance: SystemAppearance) -> bool {
    match appearance {
        SystemAppearance::Windows { apps_use_light_theme } => apps_dark_spec(apps_use_light_theme),
        SystemAppearance::MacOs { dark } => dark,
        SystemAppearance::Other => true,
    }
}

/// The theme a preference resolves to, given what the system asks for.
pub open spec fn resolve_spec(preference: ThemePreference, system_dark: bool) -> ResolvedTheme {
    match preference {
        ThemePreference::Dark => ResolvedTheme::Dark,
        ThemePreference::Light => ResolvedTheme::Light,
        ThemePreference::System => if system_dark {
            ResolvedTheme::Dark
        } else {
            ResolvedTheme::Light
        },
    }
}

/// `AppsUseLightTheme` under `HKCU\Software\Microsoft\Windows\CurrentVersion\Themes\Personalize`:
/// `1` = light apps, `0` = dark. A missing key or value is treated as dark.
pub fn windows_apps_use_dark_theme(apps_use_light_theme: RegistryValue) -> (dark: bool)
    ensures
        dark == apps_dark_spec(apps_use_light_theme),
        dark <==> !(apps_use_light_theme matches RegistryValue::Dword(v) && v != 0),
{
    match apps_use_light_theme {
        RegistryValue::KeyUnavailable => true,
        RegistryValue::ValueUnavailable => true,
        RegistryValue::Dword(light) => light == 0,
    }
}

/// Whether the system asks for dark apps: the Windows registry signal, the macOS
/// appearance, and dark on every other platform.
pub fn system_prefers_dark(appearance: &SystemAppearance) -> (dark: bool)
    ensures
        dark == system_dark_spec(*appearance),
        *appearance == SystemAppearance::Other ==> dark,
        appearance matches SystemAppearance::MacOs { dark: d } ==> dark == d,
        appearance matches SystemAppearance::Windows { apps_use_light_theme: r } ==> (dark
            <==> !(r matches RegistryValue::Dword(v) && v != 0)),
{
    match appearance {
        SystemAppearance::Windows { apps_use_light_theme } => windows_apps_use_dark_theme(
            *apps_use_light_theme,
        ),
        SystemAppearance::MacOs { dark } => *dark,
        SystemAppearance::Other => true,
    }
}

/// Resolves the user's preference: `Dark` and `Light` are fixed, `System`
/// follows what the platform asks for.
pub fn resolve_theme(preference: &ThemePreference, appearance: &SystemAppearance) -> (resolved:
    ResolvedTheme)
    ensures
        resolved == resolve_spec(*preference, system_dark_spec(*appearance)),
        *preference == ThemePreference::Dark ==> resolved == ResolvedTheme::Dark,
        *preference == ThemePreference::Light ==> resolved == ResolvedTheme::Light,
        *preference == ThemePreference::System ==> (resolved == ResolvedTheme::Dark
            <==> system_dark_spec(*appearance)),
{
    match preference {
        ThemePreference::Dark => ResolvedTheme::Dark,
        ThemePreference::Light => ResolvedTheme::Light,
        ThemePreference::System => {
            if system_prefers_dark(appearance) {
                ResolvedTheme::Dark
            } else {
                ResolvedTheme::Light
            }
        },
    }
}

/// A fixed preference ignores the system; `System` is dark exactly when the
/// platform asks for dark apps: Windows with `AppsUseLightTheme` missing or
/// zero, macOS in a dark appearance, and every other platform.
pub proof fn lemma_resolution_laws(preference: ThemePreference, appearance: SystemAppearance)
    ensures
        preference == ThemePreference::Dark ==> resolve_spec(preference, system_dark_spec(appearance))
            == ResolvedTheme::Dark,
        preference == ThemePreference::Light ==> resolve_spec(preference, system_dark_spec(appearance))
            == ResolvedTheme::Light,
        resolve_spec(ThemePreference::System, system_dark_spec(appearance)) == ResolvedTheme::Dark
            <==> match appearance {
            SystemAppearance::Windows { apps_use_light_theme } => !(
            apps_use_light_theme matches RegistryValue::Dword(v) && v != 0),
            SystemAppearance::MacOs { dark } => dark,
            SystemAppearance::Other => true,
        },
{
}

} // verus!
