use markeron::{
    resolve_theme, system_prefers_dark, windows_apps_use_dark_theme, RegistryValue, ResolvedTheme,
    SystemAppearance, ThemePreference,
};

fn appearances() -> Vec<SystemAppearance> {
    vec![
        SystemAppearance::Other,
        SystemAppearance::MacOs { dark: true },
        SystemAppearance::MacOs { dark: false },
        SystemAppearance::Windows { apps_use_light_theme: RegistryValue::Dword(0) },
        SystemAppearance::Windows { apps_use_light_theme: RegistryValue::Dword(1) },
        SystemAppearance::Windows { apps_use_light_theme: RegistryValue::KeyUnavailable },
    ]
}

#[test]
fn resolve_dark_and_light_are_fixed() {
    for appearance in appearances() {
        assert_eq!(resolve_theme(&ThemePreference::Dark, &appearance), ResolvedTheme::Dark);
        assert_eq!(resolve_theme(&ThemePreference::Light, &appearance), ResolvedTheme::Light);
    }
}

#[test]
fn resolve_system_follows_platform() {
    assert_eq!(
        resolve_theme(&ThemePreference::System, &SystemAppearance::MacOs { dark: true }),
        ResolvedTheme::Dark
    );
    assert_eq!(
        resolve_theme(&ThemePreference::System, &SystemAppearance::MacOs { dark: false }),
        ResolvedTheme::Light
    );
    assert_eq!(
        resolve_theme(
            &ThemePreference::System,
            &SystemAppearance::Windows { apps_use_light_theme: RegistryValue::Dword(1) }
        ),
        ResolvedTheme::Light
    );
    assert_eq!(
        resolve_theme(
            &ThemePreference::System,
            &SystemAppearance::Windows { apps_use_light_theme: RegistryValue::Dword(0) }
        ),
        ResolvedTheme::Dark
    );
}

#[test]
fn system_without_signal_is_dark() {
    assert!(system_prefers_dark(&SystemAppearance::Other));
    assert_eq!(resolve_theme(&ThemePreference::System, &SystemAppearance::Other), ResolvedTheme::Dark);
}

#[test]
fn missing_apps_registry_value_means_dark() {
    assert!(windows_apps_use_dark_theme(RegistryValue::KeyUnavailable));
    assert!(windows_apps_use_dark_theme(RegistryValue::ValueUnavailable));
    assert!(windows_apps_use_dark_theme(RegistryValue::Dword(0)));
    assert!(!windows_apps_use_dark_theme(RegistryValue::Dword(1)));
    assert!(!windows_apps_use_dark_theme(RegistryValue::Dword(2)));
}
