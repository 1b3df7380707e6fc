use vstd::prelude::*;

use crate::keys::{describe_physical_key, is_modifier_key, key_label, KeyCode, KeyDescriptor, PhysicalKey};
use crate::window::{AppWindowState, AppWindowView};

verus! {

/// Which modifier keys are held down.
#[derive(Clone, Copy, Debug, PartialEq, Eq, Structural)]
pub struct ShortcutModifiers {
    pub control: bool,
    pub alt: bool,
    pub shift: bool,
    pub win: bool,
    pub function: bool,
}

/// No modifier held.
pub open spec fn no_modifiers() -> ShortcutModifiers {
    ShortcutModifiers { control: false, alt: false, shift: false, win: false, function: false }
}

impl Default for ShortcutModifiers {
    fn default() -> (r: Self)
        ensures
            r == no_modifiers(),
    {
        ShortcutModifiers { control: false, alt: false, shift: false, win: false, function: false }
    }
}

/// The modifier state as the windowing system reports it when it changes.
#[derive(Clone, Copy, Debug, PartialEq, Eq, Structural)]
pub struct ModifiersState {
    pub control: bool,
    pub alt: bool,
    pub shift: bool,
    pub super_key: bool,
}

/// Whether a key went down or came up.
#[derive(Clone, Copy, Debug, PartialEq, Eq, Structural)]
pub enum ElementState {
    Pressed,
    Released,
}

impl ElementState {
    pub fn is_pressed(&self) -> (r: bool)
        ensures
            r == (*self is Pressed),
    {
        match self {
            ElementState::Pressed => true,
            ElementState::Released => false,
        }
    }
}

/// The modifiers that the shortcut editor has seen held down so far.
#[derive(Clone, Copy, Debug, PartialEq, Eq, Structural)]
pub struct ShortcutCaptureState {
    pub modifiers: ShortcutModifiers,
}

impl Default for ShortcutCaptureState {
    fn default() -> (r: Self)
        ensures
            r.modifiers == no_modifiers(),
    {
        ShortcutCaptureState { modifiers: ShortcutModifiers::default() }
    }
}

/// The modifiers after a key event: a modifier key sets its own flag to whether
/// it is now pressed, and every other key leaves the modifiers as they were.
pub open spec fn modifiers_after_key(
    m: ShortcutModifiers,
    key: PhysicalKey,
    pressed: bool,
) -> ShortcutModifiers {
    match key {
        PhysicalKey::Code(code) => match code {
            KeyCode::ControlLeft | KeyCode::ControlRight => ShortcutModifiers { control: pressed, ..m },
            KeyCode::AltLeft | KeyCode::AltRight => ShortcutModifiers { alt: pressed, ..m },
            KeyCode::ShiftLeft | KeyCode::ShiftRight => ShortcutModifiers { shift: pressed, ..m },
            KeyCode::SuperLeft | KeyCode::SuperRight | KeyCode::Meta => ShortcutModifiers { win: pressed, ..m },
            KeyCode::Fn => ShortcutModifiers { function: pressed, ..m },
            _ => m,
        },
        PhysicalKey::Unidentified => m,
    }
}

/// The modifiers after the windowing system reports its modifier state; it
/// reports no Fn key, so that flag stays as it was.
pub open spec fn modifiers_after_sync(m: ShortcutModifiers, state: ModifiersState) -> ShortcutModifiers {
    ShortcutModifiers {
        control: state.control,
        alt: state.alt,
        shift: state.shift,
        win: state.super_key,
        function: m.function,
    }
}

impl ShortcutCaptureState {
    /// Forgets every held modifier (the window lost focus).
    pub fn reset(&mut self)
        ensures
            final(self).modifiers == no_modifiers(),
    {
        self.modifiers = ShortcutModifiers::default();
    }

    /// Takes over the modifier state that the windowing system reports.
    pub fn sync_modifiers(&mut self, modifiers: ModifiersState)
        ensures
            final(self).modifiers == modifiers_after_sync(old(self).modifiers, modifiers),
    {
        self.modifiers.control = modifiers.control;
        self.modifiers.alt = modifiers.alt;
        self.modifiers.shift = modifiers.shift;
        self.modifiers.win = modifiers.super_key;
    }

    /// Records a key going down or up.
    pub fn apply_key_event(&mut self, physical_key: PhysicalKey, state: ElementState)
        ensures
            final(self).modifiers == modifiers_after_key(
                old(self).modifiers,
                physical_key,
                state is Pressed,
            ),
    {
        let pressed = state.is_pressed();

        match physical_key {
            PhysicalKey::Code(KeyCode::ControlLeft) | PhysicalKey::Code(KeyCode::ControlRight) => {
                self.modifiers.control = pressed;
            },
            PhysicalKey::Code(KeyCode::AltLeft) | PhysicalKey::Code(KeyCode::AltRight) => {
                self.modifiers.alt = pressed;
            },
            PhysicalKey::Code(KeyCode::ShiftLeft) | PhysicalKey::Code(KeyCode::ShiftRight) => {
                self.modifiers.shift = pressed;
            },
            PhysicalKey::Code(KeyCode::SuperLeft)
            | PhysicalKey::Code(KeyCode::SuperRight)
            | PhysicalKey::Code(KeyCode::Meta) => {
                self.modifiers.win = pressed;
            },
            PhysicalKey::Code(KeyCode::Fn) => {
                self.modifiers.function = pressed;
            },
            _ => {},
        }
    }
}

/// A key combination to show: the key last pressed (if any) and the held modifiers.
#[derive(Clone, Copy, Debug, PartialEq, Eq)]
pub struct ShortcutInput {
    pub key: Option<KeyDescriptor>,
    pub modifiers: ShortcutModifiers,
}

/// The text shown for a key combination and whether it makes a usable shortcut.
#[derive(Debug, PartialEq, Eq)]
pub struct ShortcutRender {
    pub display: String,
    pub valid: bool,
}

/// Shown while nothing but the editor is waiting for keys.
pub open spec fn prompt_text() -> Seq<char> {
    "Нажмите сочетание клавиш"@
}

/// The separator between the parts of a shortcut's text.
pub open spec fn part_separator() -> Seq<char> {
    " + "@
}

/// The names of the held modifiers, in the order Ctrl, Alt, Shift, Win, Fn.
pub open spec fn modifier_labels(m: ShortcutModifiers) -> Seq<Seq<char>> {
    (if m.control { seq!["Ctrl"@] } else { Seq::empty() })
        + (if m.alt { seq!["Alt"@] } else { Seq::empty() })
        + (if m.shift { seq!["Shift"@] } else { Seq::empty() })
        + (if m.win { seq!["Win"@] } else { Seq::empty() })
        + (if m.function { seq!["Fn"@] } else { Seq::empty() })
}

/// The label that completes a shortcut: the key's, when there is a key and it is no modifier.
pub open spec fn completing_label(key: Option<KeyDescriptor>) -> Option<Seq<char>> {
    match key {
        Some(k) => if k.is_modifier { None } else { Some(k.label@) },
        None => None,
    }
}

/// The parts of a shortcut's text: the held modifiers, then the completing key's label if any.
pub open spec fn display_parts(m: ShortcutModifiers, completing: Option<Seq<char>>) -> Seq<Seq<char>> {
    modifier_labels(m) + match completing {
        Some(label) => seq![label],
        None => Seq::empty(),
    }
}

/// The parts written one after another with `sep` between each two.
pub open spec fn join_parts(parts: Seq<Seq<char>>, sep: Seq<char>) -> Seq<char>
    decreases parts.len(),
{
    if parts.len() == 0 {
        Seq::empty()
    } else if parts.len() == 1 {
        parts[0]
    } else {
        join_parts(parts.drop_last(), sep) + sep + parts.last()
    }
}

/// The text for held modifiers and a completing label: the parts joined by
/// " + ", or the prompt when there is no part.
pub open spec fn display_text(m: ShortcutModifiers, completing: Option<Seq<char>>) -> Seq<char> {
    let parts = display_parts(m, completing);
    if parts.len() == 0 {
        prompt_text()
    } else {
        join_parts(parts, part_separator())
    }
}

/// The text shown for a key combination.
pub open spec fn shortcut_display(input: ShortcutInput) -> Seq<char> {
    display_text(input.modifiers, completing_label(input.key))
}

/// The views of a vector of strings.
pub open spec fn string_views(v: Seq<String>) -> Seq<Seq<char>> {
    v.map_values(|s: String| s@)
}

fn join_strings(parts: &Vec<String>, sep: &str) -> (r: String)
    ensures
        r@ == join_parts(string_views(parts@), sep@),
{
    let ghost views = string_views(parts@);
    let mut res = String::new();
    let n = parts.len();
    let mut i: usize = 0;
    while i < n
        invariant
            n == parts.len(),
            i <= n,
            views == string_views(parts@),
            res@ == join_parts(views.take(i as int), sep@),
        decreases n - i,
    {
        assert(views.take(i + 1).drop_last() =~= views.take(i as int));
        if i != 0 {
            res.append(sep);
        }
        res.append(parts[i].as_str());
        i = i + 1;
    }
    assert(views.take(n as int) =~= views);
    res
}

fn push_label(parts: &mut Vec<String>, label: &str)
    ensures
        string_views(final(parts)@) == string_views(old(parts)@).push(label@),
{
    let ghost before = string_views(parts@);
    parts.push(String::from_str(label));
    assert(string_views(parts@) =~= before.push(label@));
}

/// Writes a key combination as text, e.g. "Ctrl + Shift + K".
pub fn compose_shortcut_display(input: ShortcutInput) -> (r: String)
    ensures
        r@ == shortcut_display(input),
{
    let mut parts: Vec<String> = Vec::new();
    let ghost m = input.modifiers;
    assert(string_views(parts@) =~= Seq::<Seq<char>>::empty());

    if input.modifiers.control {
        push_label(&mut parts, "Ctrl");
    }
    assert(string_views(parts@) =~= (if m.control { seq!["Ctrl"@] } else { Seq::empty() }));
    if input.modifiers.alt {
        push_label(&mut parts, "Alt");
    }
    assert(string_views(parts@) =~= (if m.control { seq!["Ctrl"@] } else { Seq::empty() })
        + (if m.alt { seq!["Alt"@] } else { Seq::empty() }));
    if input.modifiers.shift {
        push_label(&mut parts, "Shift");
    }
    assert(string_views(parts@) =~= (if m.control { seq!["Ctrl"@] } else { Seq::empty() })
        + (if m.alt { seq!["Alt"@] } else { Seq::empty() })
        + (if m.shift { seq!["Shift"@] } else { Seq::empty() }));
    if input.modifiers.win {
        push_label(&mut parts, "Win");
    }
    assert(string_views(parts@) =~= (if m.control { seq!["Ctrl"@] } else { Seq::empty() })
        + (if m.alt { seq!["Alt"@] } else { Seq::empty() })
        + (if m.shift { seq!["Shift"@] } else { Seq::empty() })
        + (if m.win { seq!["Win"@] } else { Seq::empty() }));
    if input.modifiers.function {
        push_label(&mut parts, "Fn");
    }
    assert(string_views(parts@) =~= modifier_labels(m));

    if let Some(key) = input.key {
        if !key.is_modifier {
            push_label(&mut parts, key.label);
        }
    }
    assert(string_views(parts@) =~= display_parts(m, completing_label(input.key)));

    if parts.len() == 0 {
        String::from_str("Нажмите сочетание клавиш")
    } else {
        join_strings(&parts, " + ")
    }
}

/// Renders a key combination: its text, and whether a key other than a
/// modifier completes it.
pub fn render_shortcut(input: ShortcutInput) -> (r: ShortcutRender)
    ensures
        r.valid == completing_label(input.key) is Some,
        r.display@ == shortcut_display(input),
{
    let valid = match input.key {
        Some(descriptor) => !descriptor.is_modifier,
        None => false,
    };
    ShortcutRender { valid, display: compose_shortcut_display(input) }
}

/// The label that a physical key adds to a shortcut: its label, when it has one
/// and is no modifier.
pub open spec fn key_completion(key: PhysicalKey) -> Option<Seq<char>> {
    match key {
        PhysicalKey::Code(code) => if is_modifier_key(code) { None } else { key_label(code) },
        PhysicalKey::Unidentified => None,
    }
}

/// A row of the shortcut list: the action's name and its key combination.
#[derive(Debug, PartialEq, Eq)]
pub struct ShortcutAction {
    pub label: String,
    pub shortcut: String,
}

pub struct ShortcutActionView {
    pub label: Seq<char>,
    pub shortcut: Seq<char>,
}

impl View for ShortcutAction {
    type V = ShortcutActionView;

    open spec fn view(&self) -> ShortcutActionView {
        ShortcutActionView { label: self.label@, shortcut: self.shortcut@ }
    }
}

/// The rows of a shortcut list as values.
pub open spec fn actions_view(v: Seq<ShortcutAction>) -> Seq<ShortcutActionView> {
    v.map_values(|a: ShortcutAction| a@)
}

/// The shortcut list before any settings are read.
pub open spec fn default_actions_view() -> Seq<ShortcutActionView> {
    seq![
        ShortcutActionView { label: "Последнее слово"@, shortcut: "Ctrl + Alt + 1"@ },
        ShortcutActionView { label: "Весь текст"@, shortcut: "Ctrl + Alt + 2"@ },
    ]
}

/// The shortcut list before any settings are read.
pub fn default_shortcut_actions() -> (r: Vec<ShortcutAction>)
    ensures
        actions_view(r@) == default_actions_view(),
{
    let mut actions: Vec<ShortcutAction> = Vec::new();
    actions.push(
        ShortcutAction {
            label: String::from_str("Последнее слово"),
            shortcut: String::from_str("Ctrl + Alt + 1"),
        },
    );
    actions.push(
        ShortcutAction {
            label: String::from_str("Весь текст"),
            shortcut: String::from_str("Ctrl + Alt + 2"),
        },
    );
    assert(actions_view(actions@) =~= default_actions_view());
    actions
}

/// What the editor shows when it opens on a row.
#[derive(Debug, PartialEq, Eq)]
pub struct EditStartState {
    pub editing_index: i32,
    pub editing_label: String,
    pub pending_shortcut: String,
    pub pending_shortcut_valid: bool,
}

/// What the editor shows when it opens on row `index`: the row's name and its
/// current shortcut, valid when not empty. `None` when the row number does not
/// fit the window's row property.
pub fn edit_start_state(index: usize, action: ShortcutAction) -> (r: Option<EditStartState>)
    ensures
        r is Some <==> index <= i32::MAX,
        r matches Some(state) ==> {
            &&& state.editing_index == index
            &&& state.editing_label@ == action.label@
            &&& state.pending_shortcut@ == action.shortcut@
            &&& state.pending_shortcut_valid == (action.shortcut@.len() > 0)
        },
{
    if index > 0x7fff_ffff {
        return None;
    }
    let editing_index = index as i32;
    let pending_shortcut = action.shortcut.clone();
    let pending_shortcut_valid = !action.shortcut.as_str().is_empty();
    Some(
        EditStartState {
            editing_index,
            editing_label: action.label,
            pending_shortcut,
            pending_shortcut_valid,
        },
    )
}

/// Opens the editor as `state` says.
pub fn apply_edit_start_state(window: &mut AppWindowState, state: EditStartState)
    ensures
        final(window)@ == (AppWindowView {
            editing_index: state.editing_index,
            editing_label: state.editing_label@,
            pending_shortcut: state.pending_shortcut@,
            pending_shortcut_valid: state.pending_shortcut_valid,
            ..old(window)@
        }),
{
    window.editing_index = state.editing_index;
    window.editing_label = state.editing_label;
    window.pending_shortcut = state.pending_shortcut;
    window.pending_shortcut_valid = state.pending_shortcut_valid;
}

/// What a closed editor shows: no row, and nothing to accept.
#[derive(Clone, Copy, Debug, PartialEq, Eq, Structural)]
pub struct ClosedEditorState {
    pub editing_index: i32,
    pub pending_shortcut_valid: bool,
}

/// What a closed editor shows: no row (-1), and nothing to accept.
pub fn closed_editor_state() -> (r: ClosedEditorState)
    ensures
        r.editing_index == -1,
        !r.pending_shortcut_valid,
{
    ClosedEditorState { editing_index: -1, pending_shortcut_valid: false }
}

/// The window with the editor closed.
pub open spec fn closed_editor(w: AppWindowView) -> AppWindowView {
    AppWindowView { editing_index: -1i32, pending_shortcut_valid: false, ..w }
}

/// Closes the editor; the rest of the window stays as it was.
pub fn close_editor(window: &mut AppWindowState)
    ensures
        final(window)@ == closed_editor(old(window)@),
{
    let state = closed_editor_state();
    window.editing_index = state.editing_index;
    window.pending_shortcut_valid = state.pending_shortcut_valid;
}

/// The shortcut list with row `index` showing `shortcut`.
pub open spec fn with_shortcut(
    rows: Seq<ShortcutActionView>,
    index: int,
    shortcut: Seq<char>,
) -> Seq<ShortcutActionView> {
    rows.update(index, ShortcutActionView { label: rows[index].label, shortcut })
}

/// Stores a new shortcut into row `index` of the list; `false`, with the list
/// unchanged, when there is no such row.
pub fn save_shortcut(
    shortcuts: &mut Vec<ShortcutAction>,
    index: usize,
    pending_shortcut: String,
) -> (r: bool)
    ensures
        r == (index < old(shortcuts)@.len()),
        r ==> actions_view(final(shortcuts)@) == with_shortcut(
            actions_view(old(shortcuts)@),
            index as int,
            pending_shortcut@,
        ),
        !r ==> final(shortcuts)@ == old(shortcuts)@,
{
    if index >= shortcuts.len() {
        return false;
    }
    let label = shortcuts[index].label.clone();
    let ghost before = actions_view(shortcuts@);
    shortcuts.set(index, ShortcutAction { label, shortcut: pending_shortcut });
    assert(actions_view(shortcuts@) =~= with_shortcut(before, index as int, pending_shortcut@));
    true
}

/// The window with the editor showing a captured key combination.
pub open spec fn with_pending(w: AppWindowView, text: Seq<char>, valid: bool) -> AppWindowView {
    AppWindowView { pending_shortcut: text, pending_shortcut_valid: valid, ..w }
}

/// Shows a captured key combination in the editor.
pub fn update_pending_shortcut(window: &mut AppWindowState, input: ShortcutInput)
    ensures
        final(window)@ == with_pending(
            old(window)@,
            shortcut_display(input),
            completing_label(input.key) is Some,
        ),
{
    let render = render_shortcut(input);
    window.pending_shortcut = render.display;
    window.pending_shortcut_valid = render.valid;
}

/// The window after the user asks to edit row `index`: the editor opens on
/// that row when it exists; otherwise nothing changes.
pub open spec fn window_after_request_edit(
    w: AppWindowView,
    rows: Seq<ShortcutActionView>,
    index: i32,
) -> AppWindowView {
    if 0 <= index < rows.len() {
        AppWindowView {
            editing_index: index,
            editing_label: rows[index as int].label,
            pending_shortcut: rows[index as int].shortcut,
            pending_shortcut_valid: rows[index as int].shortcut.len() > 0,
            ..w
        }
    } else {
        w
    }
}

/// Opens the editor on row `index` of the shortcut list, as the user asked.
pub fn request_edit(window: &mut AppWindowState, shortcuts: &Vec<ShortcutAction>, index: i32)
    ensures
        final(window)@ == window_after_request_edit(old(window)@, actions_view(shortcuts@), index),
{
    if index < 0 {
        return;
    }
    let row = index as usize;
    if row >= shortcuts.len() {
        return;
    }
    let action = ShortcutAction {
        label: shortcuts[row].label.clone(),
        shortcut: shortcuts[row].shortcut.clone(),
    };
    match edit_start_state(row, action) {
        Some(state) => apply_edit_start_state(window, state),
        None => {},
    }
}

/// Whether accepting the editor stores its shortcut: it holds a valid
/// combination and is open on an existing row.
pub open spec fn accept_applies(w: AppWindowView, rows_len: int) -> bool {
    &&& w.pending_shortcut_valid
    &&& 0 <= w.editing_index < rows_len
}

/// Accepts the editor: stores the captured shortcut into the row being edited
/// and closes the editor. Nothing happens when the combination is not valid or
/// no row is being edited.
pub fn accept_edit(window: &mut AppWindowState, shortcuts: &mut Vec<ShortcutAction>)
    ensures
        accept_applies(old(window)@, old(shortcuts)@.len() as int) ==> {
            &&& actions_view(final(shortcuts)@) == with_shortcut(
                actions_view(old(shortcuts)@),
                old(window).editing_index as int,
                old(window)@.pending_shortcut,
            )
            &&& final(window)@ == closed_editor(old(window)@)
        },
        !accept_applies(old(window)@, old(shortcuts)@.len() as int) ==> {
            &&& final(shortcuts)@ == old(shortcuts)@
            &&& final(window)@ == old(window)@
        },
{
    if !window.pending_shortcut_valid {
        return;
    }
    if window.editing_index < 0 {
        return;
    }
    let index = window.editing_index as usize;
    if save_shortcut(shortcuts, index, window.pending_shortcut.clone()) {
        close_editor(window);
    }
}

/// A window event that the shortcut editor reacts to.
pub enum WindowEvent {
    /// The window gained (`true`) or lost (`false`) the keyboard focus.
    Focused(bool),
    /// The modifier keys held down changed.
    ModifiersChanged(ModifiersState),
    /// A key went down or up.
    KeyboardInput { physical_key: PhysicalKey, state: ElementState, repeat: bool, is_synthetic: bool },
    /// Any other event.
    Other,
}

/// Whether the event goes on to the rest of the user interface.
#[derive(Clone, Copy, Debug, PartialEq, Eq, Structural)]
pub enum EventResult {
    Propagate,
    PreventDefault,
}

/// Whether a key event shows a new combination in the editor: a real key going
/// down, not one repeated by holding the key.
pub open spec fn captures_key(state: ElementState, repeat: bool, is_synthetic: bool) -> bool {
    !is_synthetic && state is Pressed && !repeat
}

/// Follows the modifier keys and, while the editor is open on a row, captures
/// key combinations into it and keeps the keys from the rest of the window.
pub fn handle_shortcut_window_event(
    window: &mut AppWindowState,
    capture: &mut ShortcutCaptureState,
    event: WindowEvent,
) -> (r: EventResult)
    ensures
        match event {
            WindowEvent::Focused(focused) => {
                &&& final(window)@ == old(window)@
                &&& r is Propagate
                &&& final(capture).modifiers == if focused {
                    old(capture).modifiers
                } else {
                    no_modifiers()
                }
            },
            WindowEvent::ModifiersChanged(m) => {
                &&& final(window)@ == old(window)@
                &&& r is Propagate
                &&& final(capture).modifiers == modifiers_after_sync(old(capture).modifiers, m)
            },
            WindowEvent::KeyboardInput { physical_key, state, repeat, is_synthetic } => {
                let held = modifiers_after_key(old(capture).modifiers, physical_key, state is Pressed);
                &&& final(capture).modifiers == held
                &&& if old(window).editing_index < 0 {
                    final(window)@ == old(window)@ && r is Propagate
                } else {
                    &&& r is PreventDefault
                    &&& final(window)@ == if captures_key(state, repeat, is_synthetic) {
                        with_pending(
                            old(window)@,
                            display_text(held, key_completion(physical_key)),
                            key_completion(physical_key) is Some,
                        )
                    } else {
                        old(window)@
                    }
                }
            },
            WindowEvent::Other => {
                &&& final(window)@ == old(window)@
                &&& final(capture).modifiers == old(capture).modifiers
                &&& r is Propagate
            },
        },
{
    match event {
        WindowEvent::Focused(focused) => {
            if !focused {
                capture.reset();
            }
            EventResult::Propagate
        },
        WindowEvent::ModifiersChanged(modifiers) => {
            capture.sync_modifiers(modifiers);
            EventResult::Propagate
        },
        WindowEvent::KeyboardInput { physical_key, state, repeat, is_synthetic } => {
            let editing_active = window.editing_index >= 0;
            capture.apply_key_event(physical_key, state);

            if !editing_active {
                return EventResult::Propagate;
            }

            if !is_synthetic && state.is_pressed() && !repeat {
                let key = describe_physical_key(physical_key);
                update_pending_shortcut(window, ShortcutInput { key, modifiers: capture.modifiers });
            }

            EventResult::PreventDefault
        },
        WindowEvent::Other => EventResult::Propagate,
    }
}

} // verus!
