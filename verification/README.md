# switch_layout

The logic of SwitchLayout, a small Windows desktop tool whose window lets the
user pick keyboard shortcuts for its actions and switch autostart on or off,
written in Verus and verified.

- `src/keys.rs`: physical keys and the label the shortcut editor shows for each.
- `src/shortcuts.rs`: the held-modifier tracking, the text of a captured key
  combination, and the shortcut editor (open, capture, accept, close).
- `src/window.rs`: the window properties that the logic reads and writes.
- `src/settings.rs`: the stored settings, their normalization, what loading
  decides, and the autostart switch.
- `src/laws.rs`: properties that relate several of the functions above.
- `app/`: the program around the library: the Slint window, the winit event
  conversion, and the settings file (TOML) in the user's config directory.
