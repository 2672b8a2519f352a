# markeron

The verified core of MarkerOn's theme and tray handling.

- `src/` (Verus): theme resolution, Windows shell contrast decisions
  (registry values, high contrast, Rec. 601 luma of a `COLORREF`), the tray
  glyph choice, the registry watcher's step function and its laws, icon
  decoding through the `image` crate, and the macOS Dock menu entries.
- `app/` (plain Rust, not verified): the registry and Win32 reads, the Tauri
  window and tray updates, the watcher thread and the Objective-C Dock menu.
- `tests/`: tests of the library.
