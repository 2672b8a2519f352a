//! Theme resolution, Windows shell contrast decisions, tray glyph choice,
//! icon decoding and the macOS Dock menu model of the MarkerOn desktop app.
//!
//! Everything here computes on plain values; reading the registry, querying
//! the window system and applying icons happen in the application around it.

pub mod dock;
pub mod icon;
pub mod shell;
pub mod theme;
pub mod watcher;

pub use dock::{dock_menu_actions, dock_menu_source, dock_menu_subclass_name, DockMenuAction};
pub use icon::{icon_from_decoded, load_icon_from_png, IconError, IconImage};
pub use shell::{
    colorref_is_light, main_tray_glyph, shell_chrome_icon_png, tray_icon_png_for_shell_light,
    windows_high_contrast_shell_is_light, windows_system_shell_is_light, TrayGlyph, TrayHost,
};
pub use theme::{
    resolve_theme, system_prefers_dark, windows_apps_use_dark_theme, RegistryValue, ResolvedTheme,
    SystemAppearance, ThemePreference,
};
pub use watcher::{ShellThemeWatcher, WatcherAction, WatcherEvent};
