use vstd::prelude::*;

verus! {

/// A physical key position, named after the key at that place on a US layout.
///
/// Every key that the shortcut editor can show has a variant of its own; every
/// other key position is `Other`.
#[derive(Clone, Copy, Debug, PartialEq, Eq, Structural)]
pub enum KeyCode {
    KeyA,
    KeyB,
    KeyC,
    KeyD,
    KeyE,
    KeyF,
    KeyG,
    KeyH,
    KeyI,
    KeyJ,
    KeyK,
    KeyL,
    KeyM,
    KeyN,
    KeyO,
    KeyP,
    KeyQ,
    KeyR,
    KeyS,
    KeyT,
    KeyU,
    KeyV,
    KeyW,
    KeyX,
    KeyY,
    KeyZ,
    Digit0,
    Digit1,
    Digit2,
    Digit3,
    Digit4,
    Digit5,
    Digit6,
    Digit7,
    Digit8,
    Digit9,
    Backquote,
    Minus,
    Equal,
    BracketLeft,
    BracketRight,
    Backslash,
    IntlBackslash,
    IntlYen,
    Semicolon,
    Quote,
    Comma,
    Period,
    Slash,
    IntlRo,
    Space,
    Tab,
    Enter,
    NumpadEnter,
    Escape,
    Backspace,
    Delete,
    Insert,
    Home,
    End,
    PageUp,
    PageDown,
    ArrowUp,
    ArrowDown,
    ArrowLeft,
    ArrowRight,
    ContextMenu,
    Pause,
    ScrollLock,
    CapsLock,
    PrintScreen,
    NumLock,
    Fn,
    FnLock,
    ControlLeft,
    ControlRight,
    AltLeft,
    AltRight,
    ShiftLeft,
    ShiftRight,
    SuperLeft,
    SuperRight,
    Meta,
    F1,
    F2,
    F3,
    F4,
    F5,
    F6,
    F7,
    F8,
    F9,
    F10,
    F11,
    F12,
    F13,
    F14,
    F15,
    F16,
    F17,
    F18,
    F19,
    F20,
    F21,
    F22,
    F23,
    F24,
    Numpad0,
    Numpad1,
    Numpad2,
    Numpad3,
    Numpad4,
    Numpad5,
    Numpad6,
    Numpad7,
    Numpad8,
    Numpad9,
    NumpadAdd,
    NumpadSubtract,
    NumpadMultiply,
    NumpadDivide,
    NumpadDecimal,
    Other,
}

/// A key as the keyboard reports it: a known position, or one it could not identify.
#[derive(Clone, Copy, Debug, PartialEq, Eq, Structural)]
pub enum PhysicalKey {
    Code(KeyCode),
    Unidentified,
}

/// What the shortcut editor shows for a key, and whether the key is a modifier.
#[derive(Clone, Copy, Debug, PartialEq, Eq)]
pub struct KeyDescriptor {
    pub label: &'static str,
    pub is_modifier: bool,
}

/// The keys that act as modifiers: Ctrl, Alt, Shift, Win (Super or Meta) and Fn.
pub open spec fn is_modifier_key(code: KeyCode) -> bool {
    match code {
        KeyCode::ControlLeft | KeyCode::ControlRight | KeyCode::AltLeft | KeyCode::AltRight
        | KeyCode::ShiftLeft | KeyCode::ShiftRight | KeyCode::SuperLeft | KeyCode::SuperRight
        | KeyCode::Meta | KeyCode::Fn => true,
        _ => false,
    }
}

/// The label of each known key; `None` for a key position without one.
pub open spec fn key_label(code: KeyCode) -> Option<Seq<char>> {
    match code {
        KeyCode::KeyA => Some("A"@),
        KeyCode::KeyB => Some("B"@),
        KeyCode::KeyC => Some("C"@),
        KeyCode::KeyD => Some("D"@),
        KeyCode::KeyE => Some("E"@),
        KeyCode::KeyF => Some("F"@),
        KeyCode::KeyG => Some("G"@),
        KeyCode::KeyH => Some("H"@),
        KeyCode::KeyI => Some("I"@),
        KeyCode::KeyJ => Some("J"@),
        KeyCode::KeyK => Some("K"@),
        KeyCode::KeyL => Some("L"@),
        KeyCode::KeyM => Some("M"@),
        KeyCode::KeyN => Some("N"@),
        KeyCode::KeyO => Some("O"@),
        KeyCode::KeyP => Some("P"@),
        KeyCode::KeyQ => Some("Q"@),
        KeyCode::KeyR => Some("R"@),
        KeyCode::KeyS => Some("S"@),
        KeyCode::KeyT => Some("T"@),
        KeyCode::KeyU => Some("U"@),
        KeyCode::KeyV => Some("V"@),
        KeyCode::KeyW => Some("W"@),
        KeyCode::KeyX => Some("X"@),
        KeyCode::KeyY => Some("Y"@),
        KeyCode::KeyZ => Some("Z"@),
        KeyCode::Digit0 => Some("0"@),
        KeyCode::Digit1 => Some("1"@),
        KeyCode::Digit2 => Some("2"@),
        KeyCode::Digit3 => Some("3"@),
        KeyCode::Digit4 => Some("4"@),
        KeyCode::Digit5 => Some("5"@),
        KeyCode::Digit6 => Some("6"@),
        KeyCode::Digit7 => Some("7"@),
        KeyCode::Digit8 => Some("8"@),
        KeyCode::Digit9 => Some("9"@),
        KeyCode::Backquote => Some("`"@),
        KeyCode::Minus => Some("-"@),
        KeyCode::Equal => Some("="@),
        KeyCode::BracketLeft => Some("["@),
        KeyCode::BracketRight => Some("]"@),
        KeyCode::Backslash | KeyCode::IntlBackslash | KeyCode::IntlYen => Some("\\"@),
        KeyCode::Semicolon => Some(";"@),
        KeyCode::Quote => Some("'"@),
        KeyCode::Comma => Some(","@),
        KeyCode::Period => Some("."@),
        KeyCode::Slash | KeyCode::IntlRo => Some("/"@),
        KeyCode::Space => Some("Space"@),
        KeyCode::Tab => Some("Tab"@),
        KeyCode::Enter | KeyCode::NumpadEnter => Some("Enter"@),
        KeyCode::Escape => Some("Escape"@),
        KeyCode::Backspace => Some("Backspace"@),
        KeyCode::Delete => Some("Delete"@),
        KeyCode::Insert => Some("Insert"@),
        KeyCode::Home => Some("Home"@),
        KeyCode::End => Some("End"@),
        KeyCode::PageUp => Some("Page Up"@),
        KeyCode::PageDown => Some("Page Down"@),
        KeyCode::ArrowUp => Some("Up"@),
        KeyCode::ArrowDown => Some("Down"@),
        KeyCode::ArrowLeft => Some("Left"@),
        KeyCode::ArrowRight => Some("Right"@),
        KeyCode::ContextMenu => Some("Menu"@),
        KeyCode::Pause => Some("Pause"@),
        KeyCode::ScrollLock => Some("Scroll Lock"@),
        KeyCode::CapsLock => Some("Caps Lock"@),
        KeyCode::PrintScreen => Some("Print Screen"@),
        KeyCode::NumLock => Some("Num Lock"@),
        KeyCode::Fn => Some("Fn"@),
        KeyCode::FnLock => Some("Fn Lock"@),
        KeyCode::ControlLeft | KeyCode::ControlRight => Some("Ctrl"@),
        KeyCode::AltLeft | KeyCode::AltRight => Some("Alt"@),
        KeyCode::ShiftLeft | KeyCode::ShiftRight => Some("Shift"@),
        KeyCode::SuperLeft | KeyCode::SuperRight | KeyCode::Meta => Some("Win"@),
        KeyCode::F1 => Some("F1"@),
        KeyCode::F2 => Some("F2"@),
        KeyCode::F3 => Some("F3"@),
        KeyCode::F4 => Some("F4"@),
        KeyCode::F5 => Some("F5"@),
        KeyCode::F6 => Some("F6"@),
        KeyCode::F7 => Some("F7"@),
        KeyCode::F8 => Some("F8"@),
        KeyCode::F9 => Some("F9"@),
        KeyCode::F10 => Some("F10"@),
        KeyCode::F11 => Some("F11"@),
        KeyCode::F12 => Some("F12"@),
        KeyCode::F13 => Some("F13"@),
        KeyCode::F14 => Some("F14"@),
        KeyCode::F15 => Some("F15"@),
        KeyCode::F16 => Some("F16"@),
        KeyCode::F17 => Some("F17"@),
        KeyCode::F18 => Some("F18"@),
        KeyCode::F19 => Some("F19"@),
        KeyCode::F20 => Some("F20"@),
        KeyCode::F21 => Some("F21"@),
        KeyCode::F22 => Some("F22"@),
        KeyCode::F23 => Some("F23"@),
        KeyCode::F24 => Some("F24"@),
        KeyCode::Numpad0 => Some("Num 0"@),
        KeyCode::Numpad1 => Some("Num 1"@),
        KeyCode::Numpad2 => Some("Num 2"@),
        KeyCode::Numpad3 => Some("Num 3"@),
        KeyCode::Numpad4 => Some("Num 4"@),
        KeyCode::Numpad5 => Some("Num 5"@),
        KeyCode::Numpad6 => Some("Num 6"@),
        KeyCode::Numpad7 => Some("Num 7"@),
        KeyCode::Numpad8 => Some("Num 8"@),
        KeyCode::Numpad9 => Some("Num 9"@),
        KeyCode::NumpadAdd => Some("Num +"@),
        KeyCode::NumpadSubtract => Some("Num -"@),
        KeyCode::NumpadMultiply => Some("Num *"@),
        KeyCode::NumpadDivide => Some("Num /"@),
        KeyCode::NumpadDecimal => Some("Num ."@),
        KeyCode::Other => None,
    }
}

/// The descriptor of a known key position.
fn key_descriptor(code: KeyCode) -> (r: Option<KeyDescriptor>)
    ensures
        match key_label(code) {
            Some(label) => r matches Some(d) && d.label@ == label && d.is_modifier == is_modifier_key(code),
            None => r is None,
        },
{
    match code {
        KeyCode::KeyA => Some(KeyDescriptor { label: "A", is_modifier: false }),
        KeyCode::KeyB => Some(KeyDescriptor { label: "B", is_modifier: false }),
        KeyCode::KeyC => Some(KeyDescriptor { label: "C", is_modifier: false }),
        KeyCode::KeyD => Some(KeyDescriptor { label: "D", is_modifier: false }),
        KeyCode::KeyE => Some(KeyDescriptor { label: "E", is_modifier: false }),
        KeyCode::KeyF => Some(KeyDescriptor { label: "F", is_modifier: false }),
        KeyCode::KeyG => Some(KeyDescriptor { label: "G", is_modifier: false }),
        KeyCode::KeyH => Some(KeyDescriptor { label: "H", is_modifier: false }),
        KeyCode::KeyI => Some(KeyDescriptor { label: "I", is_modifier: false }),
        KeyCode::KeyJ => Some(KeyDescriptor { label: "J", is_modifier: false }),
        KeyCode::KeyK => Some(KeyDescriptor { label: "K", is_modifier: false }),
        KeyCode::KeyL => Some(KeyDescriptor { label: "L", is_modifier: false }),
        KeyCode::KeyM => Some(KeyDescriptor { label: "M", is_modifier: false }),
        KeyCode::KeyN => Some(KeyDescriptor { label: "N", is_modifier: false }),
        KeyCode::KeyO => Some(KeyDescriptor { label: "O", is_modifier: false }),
        KeyCode::KeyP => Some(KeyDescriptor { label: "P", is_modifier: false }),
        KeyCode::KeyQ => Some(KeyDescriptor { label: "Q", is_modifier: false }),
        KeyCode::KeyR => Some(KeyDescriptor { label: "R", is_modifier: false }),
        KeyCode::KeyS => Some(KeyDescriptor { label: "S", is_modifier: false }),
        KeyCode::KeyT => Some(KeyDescriptor { label: "T", is_modifier: false }),
        KeyCode::KeyU => Some(KeyDescriptor { label: "U", is_modifier: false }),
        KeyCode::KeyV => Some(KeyDescriptor { label: "V", is_modifier: false }),
        KeyCode::KeyW => Some(KeyDescriptor { label: "W", is_modifier: false }),
        KeyCode::KeyX => Some(KeyDescriptor { label: "X", is_modifier: false }),
        KeyCode::KeyY => Some(KeyDescriptor { label: "Y", is_modifier: false }),
        KeyCode::KeyZ => Some(KeyDescriptor { label: "Z", is_modifier: false }),
        KeyCode::Digit0 => Some(KeyDescriptor { label: "0", is_modifier: false }),
        KeyCode::Digit1 => Some(KeyDescriptor { label: "1", is_modifier: false }),
        KeyCode::Digit2 => Some(KeyDescriptor { label: "2", is_modifier: false }),
        KeyCode::Digit3 => Some(KeyDescriptor { label: "3", is_modifier: false }),
        KeyCode::Digit4 => Some(KeyDescriptor { label: "4", is_modifier: false }),
        KeyCode::Digit5 => Some(KeyDescriptor { label: "5", is_modifier: false }),
        KeyCode::Digit6 => Some(KeyDescriptor { label: "6", is_modifier: false }),
        KeyCode::Digit7 => Some(KeyDescriptor { label: "7", is_modifier: false }),
        KeyCode::Digit8 => Some(KeyDescriptor { label: "8", is_modifier: false }),
        KeyCode::Digit9 => Some(KeyDescriptor { label: "9", is_modifier: false }),
        KeyCode::Backquote => Some(KeyDescriptor { label: "`", is_modifier: false }),
        KeyCode::Minus => Some(KeyDescriptor { label: "-", is_modifier: false }),
        KeyCode::Equal => Some(KeyDescriptor { label: "=", is_modifier: false }),
        KeyCode::BracketLeft => Some(KeyDescriptor { label: "[", is_modifier: false }),
        KeyCode::BracketRight => Some(KeyDescriptor { label: "]", is_modifier: false }),
        KeyCode::Backslash | KeyCode::IntlBackslash | KeyCode::IntlYen => Some(KeyDescriptor { label: "\\", is_modifier: false }),
        KeyCode::Semicolon => Some(KeyDescriptor { label: ";", is_modifier: false }),
        KeyCode::Quote => Some(KeyDescriptor { label: "'", is_modifier: false }),
        KeyCode::Comma => Some(KeyDescriptor { label: ",", is_modifier: false }),
        KeyCode::Period => Some(KeyDescriptor { label: ".", is_modifier: false }),
        KeyCode::Slash | KeyCode::IntlRo => Some(KeyDescriptor { label: "/", is_modifier: false }),
        KeyCode::Space => Some(KeyDescriptor { label: "Space", is_modifier: false }),
        KeyCode::Tab => Some(KeyDescriptor { label: "Tab", is_modifier: false }),
        KeyCode::Enter | KeyCode::NumpadEnter => Some(KeyDescriptor { label: "Enter", is_modifier: false }),
        KeyCode::Escape => Some(KeyDescriptor { label: "Escape", is_modifier: false }),
        KeyCode::Backspace => Some(KeyDescriptor { label: "Backspace", is_modifier: false }),
        KeyCode::Delete => Some(KeyDescriptor { label: "Delete", is_modifier: false }),
        KeyCode::Insert => Some(KeyDescriptor { label: "Insert", is_modifier: false }),
        KeyCode::Home => Some(KeyDescriptor { label: "Home", is_modifier: false }),
        KeyCode::End => Some(KeyDescriptor { label: "End", is_modifier: false }),
        KeyCode::PageUp => Some(KeyDescriptor { label: "Page Up", is_modifier: false }),
        KeyCode::PageDown => Some(KeyDescriptor { label: "Page Down", is_modifier: false }),
        KeyCode::ArrowUp => Some(KeyDescriptor { label: "Up", is_modifier: false }),
        KeyCode::ArrowDown => Some(KeyDescriptor { label: "Down", is_modifier: false }),
        KeyCode::ArrowLeft => Some(KeyDescriptor { label: "Left", is_modifier: false }),
        KeyCode::ArrowRight => Some(KeyDescriptor { label: "Right", is_modifier: false }),
        KeyCode::ContextMenu => Some(KeyDescriptor { label: "Menu", is_modifier: false }),
        KeyCode::Pause => Some(KeyDescriptor { label: "Pause", is_modifier: false }),
        KeyCode::ScrollLock => Some(KeyDescriptor { label: "Scroll Lock", is_modifier: false }),
        KeyCode::CapsLock => Some(KeyDescriptor { label: "Caps Lock", is_modifier: false }),
        KeyCode::PrintScreen => Some(KeyDescriptor { label: "Print Screen", is_modifier: false }),
        KeyCode::NumLock => Some(KeyDescriptor { label: "Num Lock", is_modifier: false }),
        KeyCode::Fn => Some(KeyDescriptor { label: "Fn", is_modifier: true }),
        KeyCode::FnLock => Some(KeyDescriptor { label: "Fn Lock", is_modifier: false }),
        KeyCode::ControlLeft | KeyCode::ControlRight => Some(KeyDescriptor { label: "Ctrl", is_modifier: true }),
        KeyCode::AltLeft | KeyCode::AltRight => Some(KeyDescriptor { label: "Alt", is_modifier: true }),
        KeyCode::ShiftLeft | KeyCode::ShiftRight => Some(KeyDescriptor { label: "Shift", is_modifier: true }),
        KeyCode::SuperLeft | KeyCode::SuperRight | KeyCode::Meta => Some(KeyDescriptor { label: "Win", is_modifier: true }),
        KeyCode::F1 => Some(KeyDescriptor { label: "F1", is_modifier: false }),
        KeyCode::F2 => Some(KeyDescriptor { label: "F2", is_modifier: false }),
        KeyCode::F3 => Some(KeyDescriptor { label: "F3", is_modifier: false }),
        KeyCode::F4 => Some(KeyDescriptor { label: "F4", is_modifier: false }),
        KeyCode::F5 => Some(KeyDescriptor { label: "F5", is_modifier: false }),
        KeyCode::F6 => Some(KeyDescriptor { label: "F6", is_modifier: false }),
        KeyCode::F7 => Some(KeyDescriptor { label: "F7", is_modifier: false }),
        KeyCode::F8 => Some(KeyDescriptor { label: "F8", is_modifier: false }),
        KeyCode::F9 => Some(KeyDescriptor { label: "F9", is_modifier: false }),
        KeyCode::F10 => Some(KeyDescriptor { label: "F10", is_modifier: false }),
        KeyCode::F11 => Some(KeyDescriptor { label: "F11", is_modifier: false }),
        KeyCode::F12 => Some(KeyDescriptor { label: "F12", is_modifier: false }),
        KeyCode::F13 => Some(KeyDescriptor { label: "F13", is_modifier: false }),
        KeyCode::F14 => Some(KeyDescriptor { label: "F14", is_modifier: false }),
        KeyCode::F15 => Some(KeyDescriptor { label: "F15", is_modifier: false }),
        KeyCode::F16 => Some(KeyDescriptor { label: "F16", is_modifier: false }),
        KeyCode::F17 => Some(KeyDescriptor { label: "F17", is_modifier: false }),
        KeyCode::F18 => Some(KeyDescriptor { label: "F18", is_modifier: false }),
        KeyCode::F19 => Some(KeyDescriptor { label: "F19", is_modifier: false }),
        KeyCode::F20 => Some(KeyDescriptor { label: "F20", is_modifier: false }),
        KeyCode::F21 => Some(KeyDescriptor { label: "F21", is_modifier: false }),
        KeyCode::F22 => Some(KeyDescriptor { label: "F22", is_modifier: false }),
        KeyCode::F23 => Some(KeyDescriptor { label: "F23", is_modifier: false }),
        KeyCode::F24 => Some(KeyDescriptor { label: "F24", is_modifier: false }),
        KeyCode::Numpad0 => Some(KeyDescriptor { label: "Num 0", is_modifier: false }),
        KeyCode::Numpad1 => Some(KeyDescriptor { label: "Num 1", is_modifier: false }),
        KeyCode::Numpad2 => Some(KeyDescriptor { label: "Num 2", is_modifier: false }),
        KeyCode::Numpad3 => Some(KeyDescriptor { label: "Num 3", is_modifier: false }),
        KeyCode::Numpad4 => Some(KeyDescriptor { label: "Num 4", is_modifier: false }),
        KeyCode::Numpad5 => Some(KeyDescriptor { label: "Num 5", is_modifier: false }),
        KeyCode::Numpad6 => Some(KeyDescriptor { label: "Num 6", is_modifier: false }),
        KeyCode::Numpad7 => Some(KeyDescriptor { label: "Num 7", is_modifier: false }),
        KeyCode::Numpad8 => Some(KeyDescriptor { label: "Num 8", is_modifier: false }),
        KeyCode::Numpad9 => Some(KeyDescriptor { label: "Num 9", is_modifier: false }),
        KeyCode::NumpadAdd => Some(KeyDescriptor { label: "Num +", is_modifier: false }),
        KeyCode::NumpadSubtract => Some(KeyDescriptor { label: "Num -", is_modifier: false }),
        KeyCode::NumpadMultiply => Some(KeyDescriptor { label: "Num *", is_modifier: false }),
        KeyCode::NumpadDivide => Some(KeyDescriptor { label: "Num /", is_modifier: false }),
        KeyCode::NumpadDecimal => Some(KeyDescriptor { label: "Num .", is_modifier: false }),
        KeyCode::Other => None,
    }
}

/// Describes a physical key for the shortcut editor.
///
/// Keys are named by their position, so a letter key shows its English letter
/// whatever layout is active. Unidentified keys and key positions without a
/// label give `None`.
pub fn describe_physical_key(physical_key: PhysicalKey) -> (r: Option<KeyDescriptor>)
    ensures
        r is None <==> (physical_key is Unidentified || key_label(physical_key->Code_0) is None),
        r matches Some(d) ==> {
            &&& physical_key is Code
            &&& key_label(physical_key->Code_0) == Some(d.label@)
            &&& d.is_modifier == is_modifier_key(physical_key->Code_0)
        },
{
    match physical_key {
        PhysicalKey::Code(code) => key_descriptor(code),
        PhysicalKey::Unidentified => None,
    }
}

} // verus!
