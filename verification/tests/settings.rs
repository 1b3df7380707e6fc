use switch_layout::settings::{
    autostart_save_failed, autostart_toggled, settings_after_load, shortcut_definitions,
    shortcut_label, AppSettings, SettingsFile, ShortcutBinding,
};
use switch_layout::shortcuts::{default_shortcut_actions, ShortcutAction};
use switch_layout::window::AppWindowState;

fn binding(id: &str, shortcut: &str) -> ShortcutBinding {
    ShortcutBinding { id: id.to_string(), shortcut: shortcut.to_string() }
}

fn copy_of(settings: &AppSettings) -> AppSettings {
    AppSettings {
        autostart_enabled: settings.autostart_enabled,
        shortcuts: settings.shortcuts.iter().map(|b| binding(&b.id, &b.shortcut)).collect(),
    }
}

#[test]
fn default_settings_enable_autostart_with_default_shortcuts() {
    let settings = AppSettings::default();
    assert!(settings.autostart_enabled);
    assert_eq!(
        settings.shortcuts,
        vec![
            binding("switch_last_word", "Ctrl + Alt + 1"),
            binding("switch_full_text", "Ctrl + Alt + 2"),
        ]
    );
}

#[test]
fn missing_file_loads_defaults_to_be_written() {
    let loaded = settings_after_load(SettingsFile::Missing);
    assert_eq!(loaded.settings, AppSettings::default());
    assert!(loaded.needs_save);
}

#[test]
fn corrupted_file_loads_defaults_to_be_written() {
    let loaded = settings_after_load(SettingsFile::Corrupted);
    assert_eq!(loaded.settings, AppSettings::default());
    assert!(loaded.needs_save);
}

#[test]
fn edited_settings_load_back_unchanged() {
    let mut settings = AppSettings::default();
    settings.autostart_enabled = false;
    assert!(settings.set_shortcut(0, "Alt + Shift + K"));

    let loaded = settings_after_load(SettingsFile::Parsed(copy_of(&settings)));

    assert_eq!(loaded.settings, settings);
    assert!(!loaded.needs_save);
}

#[test]
fn overwritten_settings_load_back_as_updated() {
    let mut updated = AppSettings::default();
    updated.autostart_enabled = false;
    assert!(updated.set_shortcut(1, "Ctrl + Shift + U"));

    let loaded = settings_after_load(SettingsFile::Parsed(copy_of(&updated)));

    assert_eq!(loaded.settings, updated);
    assert!(!loaded.needs_save);
}

#[test]
fn normalization_orders_fills_and_drops_bindings() {
    let stored = AppSettings {
        autostart_enabled: false,
        shortcuts: vec![
            binding("unknown", "Ctrl + Q"),
            binding("switch_full_text", "Alt + 1"),
            binding("switch_full_text", "Alt + 2"),
        ],
    };
    let normalized = copy_of(&stored).normalized();
    assert_eq!(
        normalized,
        AppSettings {
            autostart_enabled: false,
            shortcuts: vec![
                binding("switch_last_word", "Ctrl + Alt + 1"),
                binding("switch_full_text", "Alt + 2"),
            ],
        }
    );

    let loaded = settings_after_load(SettingsFile::Parsed(stored));
    assert_eq!(loaded.settings, normalized);
    assert!(loaded.needs_save);
}

#[test]
fn normalizing_twice_changes_nothing_more() {
    let stored = AppSettings {
        autostart_enabled: true,
        shortcuts: vec![binding("switch_full_text", "Win + T")],
    };
    let once = stored.normalized();
    let twice = copy_of(&once).normalized();
    assert_eq!(once, twice);
}

#[test]
fn set_shortcut_rejects_missing_binding() {
    let mut settings = AppSettings::default();
    assert!(!settings.set_shortcut(2, "Ctrl + Z"));
    assert_eq!(settings, AppSettings::default());
}

#[test]
fn labels_known_and_unknown_actions() {
    assert_eq!(shortcut_label("switch_last_word"), "Последнее слово");
    assert_eq!(shortcut_label("switch_full_text"), "Весь текст");
    assert_eq!(shortcut_label("switch_nothing"), "Неизвестное действие");
}

#[test]
fn definitions_list_both_actions() {
    let ids: Vec<&str> = shortcut_definitions().iter().map(|d| d.id).collect();
    assert_eq!(ids, vec!["switch_last_word", "switch_full_text"]);
}

#[test]
fn shortcut_rows_show_labels_and_shortcuts() {
    let mut settings = AppSettings::default();
    assert_eq!(settings.to_shortcut_actions(), default_shortcut_actions());

    settings.shortcuts.push(binding("other", "F1"));
    assert!(settings.set_shortcut(0, "Alt + Shift + K"));
    assert_eq!(
        settings.to_shortcut_actions(),
        vec![
            ShortcutAction {
                label: "Последнее слово".to_string(),
                shortcut: "Alt + Shift + K".to_string(),
            },
            ShortcutAction { label: "Весь текст".to_string(), shortcut: "Ctrl + Alt + 2".to_string() },
            ShortcutAction { label: "Неизвестное действие".to_string(), shortcut: "F1".to_string() },
        ]
    );
}

#[test]
fn autostart_toggle_and_failed_save() {
    let mut settings = AppSettings::default();
    let mut window = AppWindowState::new();
    window.autostart_enabled = true;

    assert_eq!(autostart_toggled(&mut settings, true), None);
    assert!(settings.autostart_enabled);

    let previous = autostart_toggled(&mut settings, false);
    assert_eq!(previous, Some(true));
    assert!(!settings.autostart_enabled);

    autostart_save_failed(&mut settings, &mut window, true);
    assert_eq!(settings, AppSettings::default());
    assert!(window.autostart_enabled);
}

#[test]
fn same_as_compares_everything() {
    let a = AppSettings::default();
    let mut b = AppSettings::default();
    assert!(a.same_as(&b));
    assert!(b.set_shortcut(1, "F2"));
    assert!(!a.same_as(&b));
    let mut c = AppSettings::default();
    c.autostart_enabled = false;
    assert!(!a.same_as(&c));
}
