use vstd::prelude::*;

use crate::keys::{is_modifier_key, key_label, KeyCode, PhysicalKey};
use crate::settings::{
    action_row, definitions, default_settings, label_for_id, label_in, last_shortcut_for,
    unknown_action_label,
    normalized_settings, with_binding_shortcut, BindingView, SettingsView,
};
use crate::shortcuts::{
    accept_applies, closed_editor, default_actions_view, display_parts, display_text, join_parts,
    key_completion, modifiers_after_key, no_modifiers, part_separator, prompt_text,
    window_after_request_edit, with_shortcut, ShortcutActionView, ShortcutModifiers,
    modifier_labels, modifiers_after_sync, ModifiersState, captures_key, with_pending, ElementState,
};
use crate::window::{app_name_text, AppWindowView};

verus! {

proof fn lemma_action_ids_differ()
    ensures
        definitions()[0].id != definitions()[1].id,
{
    reveal_strlit("switch_last_word");
    reveal_strlit("switch_full_text");
    assert(definitions()[0].id[7] != definitions()[1].id[7]);
}

/// Each action is shown under its own name.
pub proof fn lemma_label_of_each_action(k: int)
    requires
        0 <= k < definitions().len(),
    ensures
        label_for_id(definitions()[k].id) == definitions()[k].label,
{
    lemma_action_ids_differ();
    let defs = definitions();
    assert(defs.drop_first()[0] == defs[1]);
    reveal_with_fuel(label_in, 2);
}

/// Settings that already hold one binding per action, in the actions' order,
/// are left as they are by normalization.
pub proof fn lemma_normalized_keeps_matching_bindings(s: SettingsView)
    requires
        s.shortcuts.len() == definitions().len(),
        forall|k: int| 0 <= k < s.shortcuts.len() ==> #[trigger] s.shortcuts[k].id == definitions()[k].id,
    ensures
        normalized_settings(s) == s,
{
    lemma_action_ids_differ();
    let b = s.shortcuts;
    assert(b[1].id == definitions()[1].id);
    assert(b[0].id == definitions()[0].id);
    assert(b.drop_last().last() == b[0]);
    assert(b.drop_last().drop_last().len() == 0);
    reveal_with_fuel(last_shortcut_for, 3);
    assert(last_shortcut_for(b, definitions()[0].id) == Some(b[0].shortcut));
    assert(last_shortcut_for(b, definitions()[1].id) == Some(b[1].shortcut));
    assert(normalized_settings(s).shortcuts =~= b);
}

/// Normalizing twice gives what normalizing once gives.
pub proof fn lemma_normalization_idempotent(s: SettingsView)
    ensures
        normalized_settings(normalized_settings(s)) == normalized_settings(s),
{
    let n = normalized_settings(s);
    assert forall|k: int| 0 <= k < n.shortcuts.len() implies #[trigger] n.shortcuts[k].id
        == definitions()[k].id by {}
    lemma_normalized_keeps_matching_bindings(n);
}

/// The default settings are already normalized: a freshly written default
/// settings file loads back without being rewritten.
pub proof fn lemma_default_settings_are_normalized()
    ensures
        normalized_settings(default_settings()) == default_settings(),
{
    let d = default_settings();
    assert forall|k: int| 0 <= k < d.shortcuts.len() implies #[trigger] d.shortcuts[k].id
        == definitions()[k].id by {}
    lemma_normalized_keeps_matching_bindings(d);
}

/// Normalized settings stay normalized when a binding gets a new shortcut and
/// the autostart switch is set either way: settings saved after such edits load
/// back exactly as saved, and are not rewritten.
pub proof fn lemma_edited_settings_reload_unchanged(
    s: SettingsView,
    index: int,
    shortcut: Seq<char>,
    autostart_enabled: bool,
)
    requires
        normalized_settings(s) == s,
        0 <= index < s.shortcuts.len(),
    ensures
        ({
            let edited = with_binding_shortcut(SettingsView { autostart_enabled, ..s }, index, shortcut);
            normalized_settings(edited) == edited
        }),
{
    let edited = with_binding_shortcut(SettingsView { autostart_enabled, ..s }, index, shortcut);
    assert forall|k: int| 0 <= k < edited.shortcuts.len() implies #[trigger] edited.shortcuts[k].id
        == definitions()[k].id by {
        assert(s.shortcuts[k] == normalized_settings(s).shortcuts[k]);
    }
    lemma_normalized_keeps_matching_bindings(edited);
}

/// The shortcut list built from the default settings is the list shown before
/// any settings are read.
pub proof fn lemma_default_rows_match_default_settings()
    ensures
        default_settings().shortcuts.map_values(|b: BindingView| action_row(b)) == default_actions_view(),
{
    lemma_label_of_each_action(0);
    lemma_label_of_each_action(1);
    assert(default_settings().shortcuts.map_values(|b: BindingView| action_row(b))
        =~= default_actions_view());
}

/// A failed save after an autostart change brings the settings back to what
/// they were before the change.
pub proof fn lemma_failed_autostart_save_restores(s: SettingsView, enabled: bool)
    ensures
        (SettingsView {
            autostart_enabled: s.autostart_enabled,
            ..SettingsView { autostart_enabled: enabled, ..s }
        }) == s,
{
}

/// Releasing a key after pressing it leaves the modifiers as releasing it alone would.
pub proof fn lemma_release_undoes_press(m: ShortcutModifiers, key: PhysicalKey)
    ensures
        modifiers_after_key(modifiers_after_key(m, key, true), key, false) == modifiers_after_key(
            m,
            key,
            false,
        ),
{
}

/// Only modifier keys change the held modifiers, and pressing one always
/// registers it.
pub proof fn lemma_only_modifier_keys_change_capture(m: ShortcutModifiers, code: KeyCode, pressed: bool)
    ensures
        !is_modifier_key(code) ==> modifiers_after_key(m, PhysicalKey::Code(code), pressed) == m,
        is_modifier_key(code) ==> modifiers_after_key(no_modifiers(), PhysicalKey::Code(code), true)
            != no_modifiers(),
{
}

/// A modifier key never completes a shortcut: a combination of modifiers alone
/// is never offered as valid.
pub proof fn lemma_modifier_never_completes(code: KeyCode)
    ensures
        is_modifier_key(code) ==> key_completion(PhysicalKey::Code(code)) is None,
        key_completion(PhysicalKey::Unidentified) is None,
{
}

/// With no modifier held and no key to show, the editor shows its prompt.
pub proof fn lemma_nothing_held_shows_prompt()
    ensures
        display_text(no_modifiers(), None) == prompt_text(),
        prompt_text() == "Нажмите сочетание клавиш"@,
{
    assert(display_parts(no_modifiers(), None).len() == 0);
}

/// A completed shortcut's text ends with the completing key's label.
pub proof fn lemma_completed_display_ends_with_key(m: ShortcutModifiers, label: Seq<char>)
    ensures
        ({
            let text = display_text(m, Some(label));
            &&& label.len() <= text.len()
            &&& text.subrange(text.len() - label.len(), text.len() as int) == label
        }),
{
    let parts = display_parts(m, Some(label));
    assert(parts.last() == label);
    let text = join_parts(parts, part_separator());
    if parts.len() == 1 {
        assert(text == parts[0]);
        assert(text.subrange(0, text.len() as int) =~= label);
    } else {
        let front = join_parts(parts.drop_last(), part_separator()) + part_separator();
        assert(text == front + label);
        assert(text.subrange(front.len() as int, text.len() as int) =~= label);
    }
}

/// Opening the editor on a row with a shortcut and accepting at once stores the
/// shortcut the row already had: the list stays as it was and the editor closes.
pub proof fn lemma_accept_after_request_keeps_rows(
    w: AppWindowView,
    rows: Seq<ShortcutActionView>,
    index: i32,
)
    requires
        0 <= index < rows.len(),
        rows[index as int].shortcut.len() > 0,
    ensures
        ({
            let opened = window_after_request_edit(w, rows, index);
            &&& accept_applies(opened, rows.len() as int)
            &&& with_shortcut(rows, opened.editing_index as int, opened.pending_shortcut) == rows
            &&& closed_editor(opened).editing_index == -1
        }),
{
    let opened = window_after_request_edit(w, rows, index);
    assert(with_shortcut(rows, opened.editing_index as int, opened.pending_shortcut) =~= rows);
}

/// An id that no action has is shown under the name for unknown actions.
pub proof fn lemma_unknown_id_label(id: Seq<char>)
    requires
        forall|k: int| 0 <= k < definitions().len() ==> #[trigger] definitions()[k].id != id,
    ensures
        label_for_id(id) == unknown_action_label(),
{
    let defs = definitions();
    assert(defs[0].id != id);
    assert(defs[1].id != id);
    assert(defs.drop_first()[0] == defs[1]);
    assert(defs.drop_first().drop_first().len() == 0);
    reveal_with_fuel(label_in, 3);
}

/// After a binding gets a new shortcut, the shortcut list built from the
/// settings shows that shortcut in the binding's row, under the same name.
pub proof fn lemma_edited_shortcut_is_shown(s: SettingsView, index: int, shortcut: Seq<char>)
    requires
        0 <= index < s.shortcuts.len(),
    ensures
        with_binding_shortcut(s, index, shortcut).shortcuts.map_values(|b: BindingView| action_row(b))[index]
            == (ShortcutActionView { label: label_for_id(s.shortcuts[index].id), shortcut }),
{
}

/// Every key position is labelled with what is printed on that key of a US
/// layout (letters in upper case, the numeric keypad as "Num ..."), and exactly
/// Ctrl, Alt, Shift, Win (Super, Meta) and Fn are modifiers.
pub proof fn lemma_key_table()
    ensures
        key_label(KeyCode::KeyA) == Some("A"@),
        !is_modifier_key(KeyCode::KeyA),
        key_label(KeyCode::KeyB) == Some("B"@),
        !is_modifier_key(KeyCode::KeyB),
        key_label(KeyCode::KeyC) == Some("C"@),
        !is_modifier_key(KeyCode::KeyC),
        key_label(KeyCode::KeyD) == Some("D"@),
        !is_modifier_key(KeyCode::KeyD),
        key_label(KeyCode::KeyE) == Some("E"@),
        !is_modifier_key(KeyCode::KeyE),
        key_label(KeyCode::KeyF) == Some("F"@),
        !is_modifier_key(KeyCode::KeyF),
        key_label(KeyCode::KeyG) == Some("G"@),
        !is_modifier_key(KeyCode::KeyG),
        key_label(KeyCode::KeyH) == Some("H"@),
        !is_modifier_key(KeyCode::KeyH),
        key_label(KeyCode::KeyI) == Some("I"@),
        !is_modifier_key(KeyCode::KeyI),
        key_label(KeyCode::KeyJ) == Some("J"@),
        !is_modifier_key(KeyCode::KeyJ),
        key_label(KeyCode::KeyK) == Some("K"@),
        !is_modifier_key(KeyCode::KeyK),
        key_label(KeyCode::KeyL) == Some("L"@),
        !is_modifier_key(KeyCode::KeyL),
        key_label(KeyCode::KeyM) == Some("M"@),
        !is_modifier_key(KeyCode::KeyM),
        key_label(KeyCode::KeyN) == Some("N"@),
        !is_modifier_key(KeyCode::KeyN),
        key_label(KeyCode::KeyO) == Some("O"@),
        !is_modifier_key(KeyCode::KeyO),
        key_label(KeyCode::KeyP) == Some("P"@),
        !is_modifier_key(KeyCode::KeyP),
        key_label(KeyCode::KeyQ) == Some("Q"@),
        !is_modifier_key(KeyCode::KeyQ),
        key_label(KeyCode::KeyR) == Some("R"@),
        !is_modifier_key(KeyCode::KeyR),
        key_label(KeyCode::KeyS) == Some("S"@),
        !is_modifier_key(KeyCode::KeyS),
        key_label(KeyCode::KeyT) == Some("T"@),
        !is_modifier_key(KeyCode::KeyT),
        key_label(KeyCode::KeyU) == Some("U"@),
        !is_modifier_key(KeyCode::KeyU),
        key_label(KeyCode::KeyV) == Some("V"@),
        !is_modifier_key(KeyCode::KeyV),
        key_label(KeyCode::KeyW) == Some("W"@),
        !is_modifier_key(KeyCode::KeyW),
        key_label(KeyCode::KeyX) == Some("X"@),
        !is_modifier_key(KeyCode::KeyX),
        key_label(KeyCode::KeyY) == Some("Y"@),
        !is_modifier_key(KeyCode::KeyY),
        key_label(KeyCode::KeyZ) == Some("Z"@),
        !is_modifier_key(KeyCode::KeyZ),
        key_label(KeyCode::Digit0) == Some("0"@),
        !is_modifier_key(KeyCode::Digit0),
        key_label(KeyCode::Digit1) == Some("1"@),
        !is_modifier_key(KeyCode::Digit1),
        key_label(KeyCode::Digit2) == Some("2"@),
        !is_modifier_key(KeyCode::Digit2),
        key_label(KeyCode::Digit3) == Some("3"@),
        !is_modifier_key(KeyCode::Digit3),
        key_label(KeyCode::Digit4) == Some("4"@),
        !is_modifier_key(KeyCode::Digit4),
        key_label(KeyCode::Digit5) == Some("5"@),
        !is_modifier_key(KeyCode::Digit5),
        key_label(KeyCode::Digit6) == Some("6"@),
        !is_modifier_key(KeyCode::Digit6),
        key_label(KeyCode::Digit7) == Some("7"@),
        !is_modifier_key(KeyCode::Digit7),
        key_label(KeyCode::Digit8) == Some("8"@),
        !is_modifier_key(KeyCode::Digit8),
        key_label(KeyCode::Digit9) == Some("9"@),
        !is_modifier_key(KeyCode::Digit9),
        key_label(KeyCode::Backquote) == Some("`"@),
        !is_modifier_key(KeyCode::Backquote),
        key_label(KeyCode::Minus) == Some("-"@),
        !is_modifier_key(KeyCode::Minus),
        key_label(KeyCode::Equal) == Some("="@),
        !is_modifier_key(KeyCode::Equal),
        key_label(KeyCode::BracketLeft) == Some("["@),
        !is_modifier_key(KeyCode::BracketLeft),
        key_label(KeyCode::BracketRight) == Some("]"@),
        !is_modifier_key(KeyCode::BracketRight),
        key_label(KeyCode::Backslash) == Some("\\"@),
        !is_modifier_key(KeyCode::Backslash),
        key_label(KeyCode::IntlBackslash) == Some("\\"@),
        !is_modifier_key(KeyCode::IntlBackslash),
        key_label(KeyCode::IntlYen) == Some("\\"@),
        !is_modifier_key(KeyCode::IntlYen),
        key_label(KeyCode::Semicolon) == Some(";"@),
        !is_modifier_key(KeyCode::Semicolon),
        key_label(KeyCode::Quote) == Some("'"@),
        !is_modifier_key(KeyCode::Quote),
        key_label(KeyCode::Comma) == Some(","@),
        !is_modifier_key(KeyCode::Comma),
        key_label(KeyCode::Period) == Some("."@),
        !is_modifier_key(KeyCode::Period),
        key_label(KeyCode::Slash) == Some("/"@),
        !is_modifier_key(KeyCode::Slash),
        key_label(KeyCode::IntlRo) == Some("/"@),
        !is_modifier_key(KeyCode::IntlRo),
        key_label(KeyCode::Space) == Some("Space"@),
        !is_modifier_key(KeyCode::Space),
        key_label(KeyCode::Tab) == Some("Tab"@),
        !is_modifier_key(KeyCode::Tab),
        key_label(KeyCode::Enter) == Some("Enter"@),
        !is_modifier_key(KeyCode::Enter),
        key_label(KeyCode::NumpadEnter) == Some("Enter"@),
        !is_modifier_key(KeyCode::NumpadEnter),
        key_label(KeyCode::Escape) == Some("Escape"@),
        !is_modifier_key(KeyCode::Escape),
        key_label(KeyCode::Backspace) == Some("Backspace"@),
        !is_modifier_key(KeyCode::Backspace),
        key_label(KeyCode::Delete) == Some("Delete"@),
        !is_modifier_key(KeyCode::Delete),
        key_label(KeyCode::Insert) == Some("Insert"@),
        !is_modifier_key(KeyCode::Insert),
        key_label(KeyCode::Home) == Some("Home"@),
        !is_modifier_key(KeyCode::Home),
        key_label(KeyCode::End) == Some("End"@),
        !is_modifier_key(KeyCode::End),
        key_label(KeyCode::PageUp) == Some("Page Up"@),
        !is_modifier_key(KeyCode::PageUp),
        key_label(KeyCode::PageDown) == Some("Page Down"@),
        !is_modifier_key(KeyCode::PageDown),
        key_label(KeyCode::ArrowUp) == Some("Up"@),
        !is_modifier_key(KeyCode::ArrowUp),
        key_label(KeyCode::ArrowDown) == Some("Down"@),
        !is_modifier_key(KeyCode::ArrowDown),
        key_label(KeyCode::ArrowLeft) == Some("Left"@),
        !is_modifier_key(KeyCode::ArrowLeft),
        key_label(KeyCode::ArrowRight) == Some("Right"@),
        !is_modifier_key(KeyCode::ArrowRight),
        key_label(KeyCode::ContextMenu) == Some("Menu"@),
        !is_modifier_key(KeyCode::ContextMenu),
        key_label(KeyCode::Pause) == Some("Pause"@),
        !is_modifier_key(KeyCode::Pause),
        key_label(KeyCode::ScrollLock) == Some("Scroll Lock"@),
        !is_modifier_key(KeyCode::ScrollLock),
        key_label(KeyCode::CapsLock) == Some("Caps Lock"@),
        !is_modifier_key(KeyCode::CapsLock),
        key_label(KeyCode::PrintScreen) == Some("Print Screen"@),
        !is_modifier_key(KeyCode::PrintScreen),
        key_label(KeyCode::NumLock) == Some("Num Lock"@),
        !is_modifier_key(KeyCode::NumLock),
        key_label(KeyCode::Fn) == Some("Fn"@),
        is_modifier_key(KeyCode::Fn),
        key_label(KeyCode::FnLock) == Some("Fn Lock"@),
        !is_modifier_key(KeyCode::FnLock),
        key_label(KeyCode::ControlLeft) == Some("Ctrl"@),
        is_modifier_key(KeyCode::ControlLeft),
        key_label(KeyCode::ControlRight) == Some("Ctrl"@),
        is_modifier_key(KeyCode::ControlRight),
        key_label(KeyCode::AltLeft) == Some("Alt"@),
        is_modifier_key(KeyCode::AltLeft),
        key_label(KeyCode::AltRight) == Some("Alt"@),
        is_modifier_key(KeyCode::AltRight),
        key_label(KeyCode::ShiftLeft) == Some("Shift"@),
        is_modifier_key(KeyCode::ShiftLeft),
        key_label(KeyCode::ShiftRight) == Some("Shift"@),
        is_modifier_key(KeyCode::ShiftRight),
        key_label(KeyCode::SuperLeft) == Some("Win"@),
        is_modifier_key(KeyCode::SuperLeft),
        key_label(KeyCode::SuperRight) == Some("Win"@),
        is_modifier_key(KeyCode::SuperRight),
        key_label(KeyCode::Meta) == Some("Win"@),
        is_modifier_key(KeyCode::Meta),
        key_label(KeyCode::F1) == Some("F1"@),
        !is_modifier_key(KeyCode::F1),
        key_label(KeyCode::F2) == Some("F2"@),
        !is_modifier_key(KeyCode::F2),
        key_label(KeyCode::F3) == Some("F3"@),
        !is_modifier_key(KeyCode::F3),
        key_label(KeyCode::F4) == Some("F4"@),
        !is_modifier_key(KeyCode::F4),
        key_label(KeyCode::F5) == Some("F5"@),
        !is_modifier_key(KeyCode::F5),
        key_label(KeyCode::F6) == Some("F6"@),
        !is_modifier_key(KeyCode::F6),
        key_label(KeyCode::F7) == Some("F7"@),
        !is_modifier_key(KeyCode::F7),
        key_label(KeyCode::F8) == Some("F8"@),
        !is_modifier_key(KeyCode::F8),
        key_label(KeyCode::F9) == Some("F9"@),
        !is_modifier_key(KeyCode::F9),
        key_label(KeyCode::F10) == Some("F10"@),
        !is_modifier_key(KeyCode::F10),
        key_label(KeyCode::F11) == Some("F11"@),
        !is_modifier_key(KeyCode::F11),
        key_label(KeyCode::F12) == Some("F12"@),
        !is_modifier_key(KeyCode::F12),
        key_label(KeyCode::F13) == Some("F13"@),
        !is_modifier_key(KeyCode::F13),
        key_label(KeyCode::F14) == Some("F14"@),
        !is_modifier_key(KeyCode::F14),
        key_label(KeyCode::F15) == Some("F15"@),
        !is_modifier_key(KeyCode::F15),
        key_label(KeyCode::F16) == Some("F16"@),
        !is_modifier_key(KeyCode::F16),
        key_label(KeyCode::F17) == Some("F17"@),
        !is_modifier_key(KeyCode::F17),
        key_label(KeyCode::F18) == Some("F18"@),
        !is_modifier_key(KeyCode::F18),
        key_label(KeyCode::F19) == Some("F19"@),
        !is_modifier_key(KeyCode::F19),
        key_label(KeyCode::F20) == Some("F20"@),
        !is_modifier_key(KeyCode::F20),
        key_label(KeyCode::F21) == Some("F21"@),
        !is_modifier_key(KeyCode::F21),
        key_label(KeyCode::F22) == Some("F22"@),
        !is_modifier_key(KeyCode::F22),
        key_label(KeyCode::F23) == Some("F23"@),
        !is_modifier_key(KeyCode::F23),
        key_label(KeyCode::F24) == Some("F24"@),
        !is_modifier_key(KeyCode::F24),
        key_label(KeyCode::Numpad0) == Some("Num 0"@),
        !is_modifier_key(KeyCode::Numpad0),
        key_label(KeyCode::Numpad1) == Some("Num 1"@),
        !is_modifier_key(KeyCode::Numpad1),
        key_label(KeyCode::Numpad2) == Some("Num 2"@),
        !is_modifier_key(KeyCode::Numpad2),
        key_label(KeyCode::Numpad3) == Some("Num 3"@),
        !is_modifier_key(KeyCode::Numpad3),
        key_label(KeyCode::Numpad4) == Some("Num 4"@),
        !is_modifier_key(KeyCode::Numpad4),
        key_label(KeyCode::Numpad5) == Some("Num 5"@),
        !is_modifier_key(KeyCode::Numpad5),
        key_label(KeyCode::Numpad6) == Some("Num 6"@),
        !is_modifier_key(KeyCode::Numpad6),
        key_label(KeyCode::Numpad7) == Some("Num 7"@),
        !is_modifier_key(KeyCode::Numpad7),
        key_label(KeyCode::Numpad8) == Some("Num 8"@),
        !is_modifier_key(KeyCode::Numpad8),
        key_label(KeyCode::Numpad9) == Some("Num 9"@),
        !is_modifier_key(KeyCode::Numpad9),
        key_label(KeyCode::NumpadAdd) == Some("Num +"@),
        !is_modifier_key(KeyCode::NumpadAdd),
        key_label(KeyCode::NumpadSubtract) == Some("Num -"@),
        !is_modifier_key(KeyCode::NumpadSubtract),
        key_label(KeyCode::NumpadMultiply) == Some("Num *"@),
        !is_modifier_key(KeyCode::NumpadMultiply),
        key_label(KeyCode::NumpadDivide) == Some("Num /"@),
        !is_modifier_key(KeyCode::NumpadDivide),
        key_label(KeyCode::NumpadDecimal) == Some("Num ."@),
        !is_modifier_key(KeyCode::NumpadDecimal),
        key_label(KeyCode::Other) is None,
        !is_modifier_key(KeyCode::Other),
{
}

/// A key that is no modifier and has a label completes a shortcut with that
/// label: a captured press of it makes the editor's text end with the label and
/// marks the combination valid, whatever modifiers are held.
pub proof fn lemma_labelled_key_completes(code: KeyCode, m: ShortcutModifiers)
    requires
        !is_modifier_key(code),
        key_label(code) is Some,
    ensures
        key_completion(PhysicalKey::Code(code)) == key_label(code),
        ({
            let label = key_label(code)->Some_0;
            let text = display_text(m, key_completion(PhysicalKey::Code(code)));
            &&& label.len() <= text.len()
            &&& text.subrange(text.len() - label.len(), text.len() as int) == label
        }),
{
    lemma_completed_display_ends_with_key(m, key_label(code)->Some_0);
}

proof fn lemma_modifier_names_differ()
    ensures
        "Ctrl"@ != "Alt"@,
        "Ctrl"@ != "Shift"@,
        "Ctrl"@ != "Win"@,
        "Ctrl"@ != "Fn"@,
        "Alt"@ != "Shift"@,
        "Alt"@ != "Win"@,
        "Alt"@ != "Fn"@,
        "Shift"@ != "Win"@,
        "Shift"@ != "Fn"@,
        "Win"@ != "Fn"@,
{
    reveal_strlit("Ctrl");
    reveal_strlit("Alt");
    reveal_strlit("Shift");
    reveal_strlit("Win");
    reveal_strlit("Fn");
    assert("Ctrl"@.len() != "Alt"@.len());
    assert("Ctrl"@.len() != "Shift"@.len());
    assert("Ctrl"@.len() != "Win"@.len());
    assert("Ctrl"@.len() != "Fn"@.len());
    assert("Alt"@.len() != "Shift"@.len());
    assert("Alt"@[0] != "Win"@[0]);
    assert("Alt"@.len() != "Fn"@.len());
    assert("Shift"@.len() != "Win"@.len());
    assert("Shift"@.len() != "Fn"@.len());
    assert("Win"@.len() != "Fn"@.len());
}

/// Each modifier is named in a shortcut's text exactly when it is held, whatever
/// the other modifiers are; held modifiers are named once each, in the order
/// Ctrl, Alt, Shift, Win, Fn.
pub proof fn lemma_modifier_named_iff_held(m: ShortcutModifiers)
    ensures
        m.control <==> modifier_labels(m).contains("Ctrl"@),
        m.alt <==> modifier_labels(m).contains("Alt"@),
        m.shift <==> modifier_labels(m).contains("Shift"@),
        m.win <==> modifier_labels(m).contains("Win"@),
        m.function <==> modifier_labels(m).contains("Fn"@),
        modifier_labels(m).len() == (if m.control { 1int } else { 0 }) + (if m.alt { 1int } else { 0 })
            + (if m.shift { 1int } else { 0 }) + (if m.win { 1int } else { 0 }) + (if m.function {
            1int
        } else {
            0
        }),
{
    lemma_modifier_names_differ();
    let c: Seq<Seq<char>> = if m.control { seq!["Ctrl"@] } else { Seq::empty() };
    let a: Seq<Seq<char>> = if m.alt { seq!["Alt"@] } else { Seq::empty() };
    let sh: Seq<Seq<char>> = if m.shift { seq!["Shift"@] } else { Seq::empty() };
    let w: Seq<Seq<char>> = if m.win { seq!["Win"@] } else { Seq::empty() };
    let f: Seq<Seq<char>> = if m.function { seq!["Fn"@] } else { Seq::empty() };
    let all = modifier_labels(m);
    assert(all == c + a + sh + w + f);
    assert forall|x: Seq<char>| all.contains(x) <==> (c.contains(x) || a.contains(x) || sh.contains(x)
        || w.contains(x) || f.contains(x)) by {
        if all.contains(x) {
            let i = choose|i: int| 0 <= i < all.len() && all[i] == x;
            if i < c.len() {
                assert(c[i] == x);
            } else if i < c.len() + a.len() {
                assert(a[i - c.len()] == x);
            } else if i < c.len() + a.len() + sh.len() {
                assert(sh[i - c.len() - a.len()] == x);
            } else if i < c.len() + a.len() + sh.len() + w.len() {
                assert(w[i - c.len() - a.len() - sh.len()] == x);
            } else {
                assert(f[i - c.len() - a.len() - sh.len() - w.len()] == x);
            }
        }
        if c.contains(x) {
            assert(all[0] == x);
        }
        if a.contains(x) {
            assert(all[c.len() as int] == x);
        }
        if sh.contains(x) {
            assert(all[(c.len() + a.len()) as int] == x);
        }
        if w.contains(x) {
            assert(all[(c.len() + a.len() + sh.len()) as int] == x);
        }
        if f.contains(x) {
            assert(all[(c.len() + a.len() + sh.len() + w.len()) as int] == x);
        }
    }
    if m.control { assert(c[0] == "Ctrl"@); }
    if m.alt { assert(a[0] == "Alt"@); }
    if m.shift { assert(sh[0] == "Shift"@); }
    if m.win { assert(w[0] == "Win"@); }
    if m.function { assert(f[0] == "Fn"@); }
}

/// Pressing a modifier key with nothing else held makes the shortcut's text
/// name exactly that key, under the key's own label.
pub proof fn lemma_pressed_modifier_shows_its_name(code: KeyCode)
    requires
        is_modifier_key(code),
    ensures
        modifier_labels(modifiers_after_key(no_modifiers(), PhysicalKey::Code(code), true))
            == seq![key_label(code)->Some_0],
{
    let after = modifiers_after_key(no_modifiers(), PhysicalKey::Code(code), true);
    assert(modifier_labels(after) =~= seq![key_label(code)->Some_0]);
}

/// A key event changes only the flag of the modifier that the key is: each flag
/// follows the key's press state when the key is that modifier, and stays as it
/// was otherwise.
pub proof fn lemma_key_event_sets_its_own_flag(m: ShortcutModifiers, code: KeyCode, pressed: bool)
    ensures
        ({
            let after = modifiers_after_key(m, PhysicalKey::Code(code), pressed);
            &&& after.control == if key_label(code) == Some("Ctrl"@) && is_modifier_key(code) {
                pressed
            } else {
                m.control
            }
            &&& after.alt == if key_label(code) == Some("Alt"@) && is_modifier_key(code) {
                pressed
            } else {
                m.alt
            }
            &&& after.shift == if key_label(code) == Some("Shift"@) && is_modifier_key(code) {
                pressed
            } else {
                m.shift
            }
            &&& after.win == if key_label(code) == Some("Win"@) && is_modifier_key(code) {
                pressed
            } else {
                m.win
            }
            &&& after.function == if key_label(code) == Some("Fn"@) && is_modifier_key(code) {
                pressed
            } else {
                m.function
            }
        }),
{
    lemma_modifier_names_differ();
}

/// After the windowing system reports the modifiers, each tracked flag is the
/// reported flag of the same key (Win is the Super key), and Fn, which the
/// report does not carry, is kept.
pub proof fn lemma_sync_takes_reported_flags(m: ShortcutModifiers, report: ModifiersState)
    ensures
        modifiers_after_sync(m, report).control == report.control,
        modifiers_after_sync(m, report).alt == report.alt,
        modifiers_after_sync(m, report).shift == report.shift,
        modifiers_after_sync(m, report).win == report.super_key,
        modifiers_after_sync(m, report).function == m.function,
{
}

/// The actions, their names and their default shortcuts.
pub proof fn lemma_definitions_table()
    ensures
        definitions().len() == 2,
        definitions()[0].id == "switch_last_word"@,
        definitions()[0].label == "Последнее слово"@,
        definitions()[0].default_shortcut == "Ctrl + Alt + 1"@,
        definitions()[1].id == "switch_full_text"@,
        definitions()[1].label == "Весь текст"@,
        definitions()[1].default_shortcut == "Ctrl + Alt + 2"@,
{
}

/// With no binding for `id` stored, no shortcut is found for it.
pub proof fn lemma_no_binding_no_shortcut(b: Seq<BindingView>, id: Seq<char>)
    requires
        forall|j: int| 0 <= j < b.len() ==> #[trigger] b[j].id != id,
    ensures
        last_shortcut_for(b, id) is None,
    decreases b.len(),
{
    if b.len() > 0 {
        assert(b.last() == b[b.len() - 1]);
        assert forall|j: int| 0 <= j < b.drop_last().len() implies #[trigger] b.drop_last()[j].id != id by {
            assert(b.drop_last()[j] == b[j]);
        }
        lemma_no_binding_no_shortcut(b.drop_last(), id);
    }
}

/// The shortcut found for `id` is that of the last binding stored for it.
pub proof fn lemma_last_binding_wins(b: Seq<BindingView>, id: Seq<char>, j: int)
    requires
        0 <= j < b.len(),
        b[j].id == id,
        forall|k: int| j < k < b.len() ==> #[trigger] b[k].id != id,
    ensures
        last_shortcut_for(b, id) == Some(b[j].shortcut),
    decreases b.len(),
{
    if j < b.len() - 1 {
        assert(b.last() == b[b.len() - 1]);
        assert(b.drop_last()[j] == b[j]);
        assert forall|k: int| j < k < b.drop_last().len() implies #[trigger] b.drop_last()[k].id != id by {
            assert(b.drop_last()[k] == b[k]);
        }
        lemma_last_binding_wins(b.drop_last(), id, j);
    }
}

/// Normalization gives one binding per action, in the actions' order, and keeps
/// the autostart switch. An action with no stored binding gets its own default
/// shortcut; an action with stored bindings gets the shortcut of the last one.
pub proof fn lemma_normalized_bindings(s: SettingsView, k: int)
    requires
        0 <= k < definitions().len(),
    ensures
        normalized_settings(s).autostart_enabled == s.autostart_enabled,
        normalized_settings(s).shortcuts.len() == definitions().len(),
        normalized_settings(s).shortcuts[k].id == definitions()[k].id,
        (forall|j: int| 0 <= j < s.shortcuts.len() ==> #[trigger] s.shortcuts[j].id != definitions()[k].id)
            ==> normalized_settings(s).shortcuts[k].shortcut == definitions()[k].default_shortcut,
        forall|j: int|
            0 <= j < s.shortcuts.len() && #[trigger] s.shortcuts[j].id == definitions()[k].id && (forall|
                l: int,
            |
                j < l < s.shortcuts.len() ==> #[trigger] s.shortcuts[l].id != definitions()[k].id)
                ==> normalized_settings(s).shortcuts[k].shortcut == s.shortcuts[j].shortcut,
{
    let id = definitions()[k].id;
    if forall|j: int| 0 <= j < s.shortcuts.len() ==> #[trigger] s.shortcuts[j].id != id {
        lemma_no_binding_no_shortcut(s.shortcuts, id);
    }
    assert forall|j: int|
        0 <= j < s.shortcuts.len() && #[trigger] s.shortcuts[j].id == id && (forall|l: int|
            j < l < s.shortcuts.len() ==> #[trigger] s.shortcuts[l].id != id)
        implies normalized_settings(s).shortcuts[k].shortcut == s.shortcuts[j].shortcut by {
        lemma_last_binding_wins(s.shortcuts, id, j);
    }
}

/// Names written one after another, each followed by " + ".
pub open spec fn names_with_plus(parts: Seq<Seq<char>>) -> Seq<char>
    decreases parts.len(),
{
    if parts.len() == 0 {
        Seq::empty()
    } else {
        names_with_plus(parts.drop_last()) + parts.last() + " + "@
    }
}

proof fn lemma_join_push(p: Seq<Seq<char>>, l: Seq<char>)
    ensures
        join_parts(p.push(l), " + "@) == names_with_plus(p) + l,
    decreases p.len(),
{
    let q = p.push(l);
    if p.len() == 0 {
        assert(q.len() == 1);
        assert(q[0] == l);
        assert(names_with_plus(p) + l =~= l);
    } else {
        assert(q.drop_last() =~= p);
        assert(q.last() == l);
        lemma_join_push(p.drop_last(), p.last());
        assert(p.drop_last().push(p.last()) =~= p);
        assert(join_parts(p, " + "@) == names_with_plus(p.drop_last()) + p.last());
        assert(join_parts(q, " + "@) == join_parts(p, " + "@) + " + "@ + l);
        assert(names_with_plus(p) + l =~= names_with_plus(p.drop_last()) + p.last() + " + "@ + l);
    }
}

/// The text of a key combination: every held modifier's name followed by " + ",
/// then the completing key's label. Without a completing key the last held
/// modifier's name ends the text, and with nothing at all the prompt is shown.
pub proof fn lemma_display_text_form(m: ShortcutModifiers, completing: Option<Seq<char>>)
    ensures
        completing matches Some(l) ==> display_text(m, completing) == names_with_plus(modifier_labels(m))
            + l,
        completing is None && modifier_labels(m).len() > 0 ==> display_text(m, completing)
            == names_with_plus(modifier_labels(m).drop_last()) + modifier_labels(m).last(),
        completing is None && modifier_labels(m).len() == 0 ==> display_text(m, completing)
            == "Нажмите сочетание клавиш"@,
{
    let labels = modifier_labels(m);
    match completing {
        Some(l) => {
            assert(display_parts(m, completing) == labels.push(l));
            lemma_join_push(labels, l);
        },
        None => {
            assert(display_parts(m, completing) =~= labels);
            if labels.len() > 0 {
                lemma_join_push(labels.drop_last(), labels.last());
                assert(labels.drop_last().push(labels.last()) =~= labels);
            }
        },
    }
}

/// No modifier is held in the state the capture starts from and returns to on
/// focus loss.
pub proof fn lemma_no_modifiers_all_clear()
    ensures
        !no_modifiers().control,
        !no_modifiers().alt,
        !no_modifiers().shift,
        !no_modifiers().win,
        !no_modifiers().function,
{
}

/// A key event is captured exactly when the key went down, is not a repeat, and
/// was not made up by the windowing system.
pub proof fn lemma_captures_key_exactly(state: ElementState, repeat: bool, is_synthetic: bool)
    ensures
        captures_key(state, repeat, is_synthetic) <==> (state is Pressed && !repeat && !is_synthetic),
{
}

/// Closing the editor sets no row (-1) and nothing to accept, and leaves every
/// other window property as it was.
pub proof fn lemma_closed_editor_fields(w: AppWindowView)
    ensures
        closed_editor(w).editing_index == -1,
        !closed_editor(w).pending_shortcut_valid,
        closed_editor(w).app_name == w.app_name,
        closed_editor(w).app_version == w.app_version,
        closed_editor(w).autostart_enabled == w.autostart_enabled,
        closed_editor(w).editing_label == w.editing_label,
        closed_editor(w).pending_shortcut == w.pending_shortcut,
{
}

/// Showing a captured combination sets the pending text and its validity, and
/// leaves every other window property as it was.
pub proof fn lemma_with_pending_fields(w: AppWindowView, text: Seq<char>, valid: bool)
    ensures
        with_pending(w, text, valid).pending_shortcut == text,
        with_pending(w, text, valid).pending_shortcut_valid == valid,
        with_pending(w, text, valid).editing_index == w.editing_index,
        with_pending(w, text, valid).editing_label == w.editing_label,
        with_pending(w, text, valid).app_name == w.app_name,
        with_pending(w, text, valid).app_version == w.app_version,
        with_pending(w, text, valid).autostart_enabled == w.autostart_enabled,
{
}

/// Storing a shortcut into a row changes that row's shortcut only: its name, the
/// other rows and the number of rows stay.
pub proof fn lemma_with_shortcut_rows(rows: Seq<ShortcutActionView>, index: int, shortcut: Seq<char>)
    requires
        0 <= index < rows.len(),
    ensures
        with_shortcut(rows, index, shortcut).len() == rows.len(),
        with_shortcut(rows, index, shortcut)[index].shortcut == shortcut,
        with_shortcut(rows, index, shortcut)[index].label == rows[index].label,
        forall|j: int| 0 <= j < rows.len() && j != index ==> #[trigger] with_shortcut(rows, index, shortcut)[j]
            == rows[j],
{
}

/// Asking to edit an existing row opens the editor on it with the row's name and
/// shortcut, valid when the shortcut is not empty; asking for a row that does
/// not exist changes nothing.
pub proof fn lemma_request_edit_fields(w: AppWindowView, rows: Seq<ShortcutActionView>, index: i32)
    ensures
        0 <= index < rows.len() ==> {
            let opened = window_after_request_edit(w, rows, index);
            &&& opened.editing_index == index
            &&& opened.editing_label == rows[index as int].label
            &&& opened.pending_shortcut == rows[index as int].shortcut
            &&& opened.pending_shortcut_valid == (rows[index as int].shortcut.len() > 0)
            &&& opened.app_name == w.app_name
            &&& opened.app_version == w.app_version
            &&& opened.autostart_enabled == w.autostart_enabled
        },
        !(0 <= index < rows.len()) ==> window_after_request_edit(w, rows, index) == w,
{
}

/// Accepting stores the shortcut exactly when it is valid and the editor is open
/// on an existing row.
pub proof fn lemma_accept_applies_exactly(w: AppWindowView, rows_len: int)
    ensures
        accept_applies(w, rows_len) <==> (w.pending_shortcut_valid && 0 <= w.editing_index
            && w.editing_index < rows_len),
{
}

/// The fixed texts: the application's name, and the name shown for an unknown action.
pub proof fn lemma_fixed_texts()
    ensures
        app_name_text() == "SwitchLayout"@,
        unknown_action_label() == "Неизвестное действие"@,
{
}

/// The default settings: autostart on, and each action, in order, bound to its
/// own default shortcut.
pub proof fn lemma_default_settings_fields(k: int)
    requires
        0 <= k < definitions().len(),
    ensures
        default_settings().autostart_enabled,
        default_settings().shortcuts.len() == definitions().len(),
        default_settings().shortcuts[k].id == definitions()[k].id,
        default_settings().shortcuts[k].shortcut == definitions()[k].default_shortcut,
{
}

} // verus!
