use switch_layout::keys::{describe_physical_key, KeyCode, KeyDescriptor, PhysicalKey};
use switch_layout::shortcuts::{
    accept_edit, close_editor, closed_editor_state, compose_shortcut_display,
    default_shortcut_actions, edit_start_state, handle_shortcut_window_event, render_shortcut,
    request_edit, save_shortcut, update_pending_shortcut, ElementState, EventResult,
    ModifiersState, ShortcutAction, ShortcutCaptureState, ShortcutInput, ShortcutModifiers,
    WindowEvent,
};
use switch_layout::window::{configure_window, AppWindowState};

fn shortcut_input(key: KeyCode, modifiers: ShortcutModifiers) -> ShortcutInput {
    ShortcutInput { key: describe_physical_key(PhysicalKey::Code(key)), modifiers }
}

fn action(label: &str, shortcut: &str) -> ShortcutAction {
    ShortcutAction { label: label.to_string(), shortcut: shortcut.to_string() }
}

#[test]
fn renders_letter_with_modifiers() {
    let rendered = render_shortcut(shortcut_input(
        KeyCode::KeyK,
        ShortcutModifiers { control: true, shift: true, ..Default::default() },
    ));
    assert_eq!(rendered.display, "Ctrl + Shift + K");
    assert!(rendered.valid);
}

#[test]
fn renders_function_key() {
    let rendered = render_shortcut(shortcut_input(KeyCode::F8, ShortcutModifiers::default()));
    assert_eq!(rendered.display, "F8");
    assert!(rendered.valid);
}

#[test]
fn renders_win_space() {
    let rendered = render_shortcut(shortcut_input(
        KeyCode::Space,
        ShortcutModifiers { win: true, ..Default::default() },
    ));
    assert_eq!(rendered.display, "Win + Space");
    assert!(rendered.valid);
}

#[test]
fn treats_modifier_only_as_invalid() {
    let rendered = render_shortcut(shortcut_input(
        KeyCode::ControlLeft,
        ShortcutModifiers { control: true, ..Default::default() },
    ));
    assert_eq!(rendered.display, "Ctrl");
    assert!(!rendered.valid);
}

#[test]
fn allows_escape_and_enter_as_shortcuts() {
    let escape_rendered =
        render_shortcut(shortcut_input(KeyCode::Escape, ShortcutModifiers::default()));
    assert_eq!(escape_rendered.display, "Escape");
    assert!(escape_rendered.valid);

    let enter_rendered = render_shortcut(shortcut_input(
        KeyCode::Enter,
        ShortcutModifiers { control: true, ..Default::default() },
    ));
    assert_eq!(enter_rendered.display, "Ctrl + Enter");
    assert!(enter_rendered.valid);
}

#[test]
fn renders_ctrl_win_g() {
    let rendered = render_shortcut(shortcut_input(
        KeyCode::KeyG,
        ShortcutModifiers { control: true, win: true, ..Default::default() },
    ));
    assert_eq!(rendered.display, "Ctrl + Win + G");
    assert!(rendered.valid);
}

#[test]
fn maps_physical_key_to_english_letter() {
    let descriptor = describe_physical_key(PhysicalKey::Code(KeyCode::KeyG));
    assert_eq!(descriptor, Some(KeyDescriptor { label: "G", is_modifier: false }));
}

#[test]
fn treats_super_keys_as_win() {
    let left = describe_physical_key(PhysicalKey::Code(KeyCode::SuperLeft));
    let right = describe_physical_key(PhysicalKey::Code(KeyCode::SuperRight));

    assert_eq!(left, Some(KeyDescriptor { label: "Win", is_modifier: true }));
    assert_eq!(right, Some(KeyDescriptor { label: "Win", is_modifier: true }));
}

#[test]
fn renders_fn_and_fn_lock_when_available() {
    let fn_rendered = render_shortcut(shortcut_input(
        KeyCode::Fn,
        ShortcutModifiers { function: true, ..Default::default() },
    ));
    assert_eq!(fn_rendered.display, "Fn");
    assert!(!fn_rendered.valid);

    let fn_lock_rendered =
        render_shortcut(shortcut_input(KeyCode::FnLock, ShortcutModifiers::default()));
    assert_eq!(fn_lock_rendered.display, "Fn Lock");
    assert!(fn_lock_rendered.valid);
}

#[test]
fn resets_modifier_state() {
    let mut state = ShortcutCaptureState {
        modifiers: ShortcutModifiers {
            control: true,
            alt: true,
            shift: true,
            win: true,
            function: true,
        },
    };

    state.reset();

    assert_eq!(state.modifiers, ShortcutModifiers::default());
}

#[test]
fn saves_shortcut_into_model() {
    let mut shortcuts = vec![action("Последнее слово", "Ctrl + Alt + 1")];

    assert!(save_shortcut(&mut shortcuts, 0, "Alt + Shift + K".to_string()));

    let action = shortcuts.first().expect("expected shortcut row");
    assert_eq!(action.shortcut, "Alt + Shift + K");
}

#[test]
fn closes_editor_state() {
    let state = closed_editor_state();

    assert_eq!(state.editing_index, -1);
    assert!(!state.pending_shortcut_valid);
}

#[test]
fn unidentified_and_unlabelled_keys_have_no_descriptor() {
    assert_eq!(describe_physical_key(PhysicalKey::Unidentified), None);
    assert_eq!(describe_physical_key(PhysicalKey::Code(KeyCode::Other)), None);
}

#[test]
fn labels_keys_by_position() {
    let cases = [
        (KeyCode::Digit7, "7", false),
        (KeyCode::IntlYen, "\\", false),
        (KeyCode::IntlRo, "/", false),
        (KeyCode::NumpadEnter, "Enter", false),
        (KeyCode::PageDown, "Page Down", false),
        (KeyCode::ArrowLeft, "Left", false),
        (KeyCode::ContextMenu, "Menu", false),
        (KeyCode::Numpad5, "Num 5", false),
        (KeyCode::NumpadDecimal, "Num .", false),
        (KeyCode::F24, "F24", false),
        (KeyCode::Meta, "Win", true),
        (KeyCode::AltRight, "Alt", true),
        (KeyCode::ShiftLeft, "Shift", true),
        (KeyCode::ControlRight, "Ctrl", true),
    ];
    for (code, label, is_modifier) in cases {
        assert_eq!(
            describe_physical_key(PhysicalKey::Code(code)),
            Some(KeyDescriptor { label, is_modifier })
        );
    }
}

#[test]
fn shows_prompt_when_nothing_is_held() {
    let shown = compose_shortcut_display(ShortcutInput {
        key: None,
        modifiers: ShortcutModifiers::default(),
    });
    assert_eq!(shown, "Нажмите сочетание клавиш");

    let modifier_key_only =
        compose_shortcut_display(shortcut_input(KeyCode::ShiftRight, ShortcutModifiers::default()));
    assert_eq!(modifier_key_only, "Нажмите сочетание клавиш");
}

#[test]
fn lists_every_modifier_in_fixed_order() {
    let shown = compose_shortcut_display(shortcut_input(
        KeyCode::KeyA,
        ShortcutModifiers { control: true, alt: true, shift: true, win: true, function: true },
    ));
    assert_eq!(shown, "Ctrl + Alt + Shift + Win + Fn + A");
}

#[test]
fn key_events_track_modifiers() {
    let mut state = ShortcutCaptureState::default();
    state.apply_key_event(PhysicalKey::Code(KeyCode::AltLeft), ElementState::Pressed);
    state.apply_key_event(PhysicalKey::Code(KeyCode::Meta), ElementState::Pressed);
    state.apply_key_event(PhysicalKey::Code(KeyCode::KeyQ), ElementState::Pressed);
    assert_eq!(
        state.modifiers,
        ShortcutModifiers { alt: true, win: true, ..Default::default() }
    );
    state.apply_key_event(PhysicalKey::Code(KeyCode::AltRight), ElementState::Released);
    assert_eq!(state.modifiers, ShortcutModifiers { win: true, ..Default::default() });
}

#[test]
fn modifier_sync_keeps_fn() {
    let mut state = ShortcutCaptureState {
        modifiers: ShortcutModifiers { function: true, alt: true, ..Default::default() },
    };
    state.sync_modifiers(ModifiersState { control: true, alt: false, shift: true, super_key: true });
    assert_eq!(
        state.modifiers,
        ShortcutModifiers { control: true, alt: false, shift: true, win: true, function: true }
    );
}

#[test]
fn default_actions_list_both_shortcuts() {
    let actions = default_shortcut_actions();
    assert_eq!(
        actions,
        vec![action("Последнее слово", "Ctrl + Alt + 1"), action("Весь текст", "Ctrl + Alt + 2")]
    );
}

#[test]
fn edit_start_state_opens_row() {
    let state = edit_start_state(1, action("Весь текст", "Ctrl + Alt + 2")).expect("fits");
    assert_eq!(state.editing_index, 1);
    assert_eq!(state.editing_label, "Весь текст");
    assert_eq!(state.pending_shortcut, "Ctrl + Alt + 2");
    assert!(state.pending_shortcut_valid);

    let empty = edit_start_state(0, action("Весь текст", "")).expect("fits");
    assert!(!empty.pending_shortcut_valid);

    assert_eq!(edit_start_state(usize::MAX, action("Весь текст", "x")), None);
}

#[test]
fn save_shortcut_rejects_missing_row() {
    let mut shortcuts = vec![action("Последнее слово", "Ctrl + Alt + 1")];
    assert!(!save_shortcut(&mut shortcuts, 1, "Alt + Shift + K".to_string()));
    assert_eq!(shortcuts, vec![action("Последнее слово", "Ctrl + Alt + 1")]);
}

#[test]
fn editor_captures_and_accepts_a_shortcut() {
    let mut window = AppWindowState::new();
    let mut capture = ShortcutCaptureState::default();
    let mut shortcuts = default_shortcut_actions();

    request_edit(&mut window, &shortcuts, 1);
    assert_eq!(window.editing_index, 1);
    assert_eq!(window.editing_label, "Весь текст");
    assert_eq!(window.pending_shortcut, "Ctrl + Alt + 2");
    assert!(window.pending_shortcut_valid);

    let pressed = |code| WindowEvent::KeyboardInput {
        physical_key: PhysicalKey::Code(code),
        state: ElementState::Pressed,
        repeat: false,
        is_synthetic: false,
    };

    let result = handle_shortcut_window_event(&mut window, &mut capture, pressed(KeyCode::ControlLeft));
    assert_eq!(result, EventResult::PreventDefault);
    assert_eq!(window.pending_shortcut, "Ctrl");
    assert!(!window.pending_shortcut_valid);

    let result = handle_shortcut_window_event(&mut window, &mut capture, pressed(KeyCode::KeyU));
    assert_eq!(result, EventResult::PreventDefault);
    assert_eq!(window.pending_shortcut, "Ctrl + U");
    assert!(window.pending_shortcut_valid);

    accept_edit(&mut window, &mut shortcuts);
    assert_eq!(window.editing_index, -1);
    assert!(!window.pending_shortcut_valid);
    assert_eq!(
        shortcuts,
        vec![action("Последнее слово", "Ctrl + Alt + 1"), action("Весь текст", "Ctrl + U")]
    );
}

#[test]
fn keys_pass_through_while_not_editing() {
    let mut window = AppWindowState::new();
    let mut capture = ShortcutCaptureState::default();
    let result = handle_shortcut_window_event(
        &mut window,
        &mut capture,
        WindowEvent::KeyboardInput {
            physical_key: PhysicalKey::Code(KeyCode::ShiftLeft),
            state: ElementState::Pressed,
            repeat: false,
            is_synthetic: false,
        },
    );
    assert_eq!(result, EventResult::Propagate);
    assert!(capture.modifiers.shift);
    assert_eq!(window.pending_shortcut, "");

    let result = handle_shortcut_window_event(&mut window, &mut capture, WindowEvent::Focused(false));
    assert_eq!(result, EventResult::Propagate);
    assert_eq!(capture.modifiers, ShortcutModifiers::default());
}

#[test]
fn repeated_and_released_keys_are_not_captured() {
    let mut window = AppWindowState::new();
    let mut capture = ShortcutCaptureState::default();
    let shortcuts = default_shortcut_actions();
    request_edit(&mut window, &shortcuts, 0);

    for (state, repeat, is_synthetic) in [
        (ElementState::Pressed, true, false),
        (ElementState::Released, false, false),
        (ElementState::Pressed, false, true),
    ] {
        let result = handle_shortcut_window_event(
            &mut window,
            &mut capture,
            WindowEvent::KeyboardInput {
                physical_key: PhysicalKey::Code(KeyCode::KeyZ),
                state,
                repeat,
                is_synthetic,
            },
        );
        assert_eq!(result, EventResult::PreventDefault);
        assert_eq!(window.pending_shortcut, "Ctrl + Alt + 1");
    }
}

#[test]
fn accept_needs_a_valid_shortcut_and_an_open_row() {
    let mut window = AppWindowState::new();
    let mut shortcuts = default_shortcut_actions();

    window.pending_shortcut = "Ctrl".to_string();
    window.pending_shortcut_valid = false;
    window.editing_index = 0;
    accept_edit(&mut window, &mut shortcuts);
    assert_eq!(window.editing_index, 0);
    assert_eq!(shortcuts, default_shortcut_actions());

    window.pending_shortcut_valid = true;
    window.editing_index = 5;
    accept_edit(&mut window, &mut shortcuts);
    assert_eq!(window.editing_index, 5);
    assert_eq!(shortcuts, default_shortcut_actions());
}

#[test]
fn request_edit_ignores_missing_rows() {
    let mut window = AppWindowState::new();
    let shortcuts = default_shortcut_actions();
    request_edit(&mut window, &shortcuts, -3);
    request_edit(&mut window, &shortcuts, 2);
    assert_eq!(window.editing_index, -1);
    assert_eq!(window.pending_shortcut, "");
}

#[test]
fn close_editor_and_update_pending_shortcut() {
    let mut window = AppWindowState::new();
    let shortcuts = default_shortcut_actions();
    request_edit(&mut window, &shortcuts, 0);
    update_pending_shortcut(
        &mut window,
        shortcut_input(KeyCode::F5, ShortcutModifiers { shift: true, ..Default::default() }),
    );
    assert_eq!(window.pending_shortcut, "Shift + F5");
    assert!(window.pending_shortcut_valid);
    close_editor(&mut window);
    assert_eq!(window.editing_index, -1);
    assert!(!window.pending_shortcut_valid);
    assert_eq!(window.editing_label, "Последнее слово");
}

#[test]
fn configures_name_and_version() {
    let mut window = AppWindowState::new();
    configure_window(&mut window, "0.1.0");
    assert_eq!(window.app_name, "SwitchLayout");
    assert_eq!(window.app_version, "v0.1.0");
}
