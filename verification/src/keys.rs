//! The closed set of keys that a hotkey chord may name, with the
//! modifier / function-key classification that binding validation
//! and the chord matcher rely on.

use vstd::prelude::*;

verus! {

/// A key that may take part in a hotkey chord: modifiers in their left and
/// right variants, the function keys, letters, digits, arrows, navigation
/// keys and a handful of editing keys.
#[derive(Clone, Copy, Debug, PartialEq, Eq, Structural)]
pub enum HotkeyKey {
    ControlLeft,
    ControlRight,
    ShiftLeft,
    ShiftRight,
    AltLeft,
    AltRight,
    MetaLeft,
    MetaRight,
    F1,
    F2,
    F3,
    F4,
    F5,
    F6,
    F7,
    F8,
    F9,
    F10,
    F11,
    F12,
    Space,
    Tab,
    CapsLock,
    Escape,
    KeyA,
    KeyB,
    KeyC,
    KeyD,
    KeyE,
    KeyF,
    KeyG,
    KeyH,
    KeyI,
    KeyJ,
    KeyK,
    KeyL,
    KeyM,
    KeyN,
    KeyO,
    KeyP,
    KeyQ,
    KeyR,
    KeyS,
    KeyT,
    KeyU,
    KeyV,
    KeyW,
    KeyX,
    KeyY,
    KeyZ,
    Num0,
    Num1,
    Num2,
    Num3,
    Num4,
    Num5,
    Num6,
    Num7,
    Num8,
    Num9,
    Up,
    Down,
    Left,
    Right,
    Return,
    Backspace,
    Delete,
    Insert,
    Home,
    End,
    PageUp,
    PageDown,
}

/// A key counts as a modifier exactly when it is one of the eight
/// left/right variants of Ctrl, Shift, Alt and the super key.
pub open spec fn spec_is_modifier(k: HotkeyKey) -> bool {
    matches!(
        k,
        HotkeyKey::ControlLeft | HotkeyKey::ControlRight | HotkeyKey::ShiftLeft
            | HotkeyKey::ShiftRight | HotkeyKey::AltLeft | HotkeyKey::AltRight
            | HotkeyKey::MetaLeft | HotkeyKey::MetaRight,
    )
}

/// A key counts as a function key exactly when it is one of F1 through F12.
pub open spec fn spec_is_function_key(k: HotkeyKey) -> bool {
    matches!(
        k,
        HotkeyKey::F1 | HotkeyKey::F2 | HotkeyKey::F3 | HotkeyKey::F4 | HotkeyKey::F5
            | HotkeyKey::F6 | HotkeyKey::F7 | HotkeyKey::F8 | HotkeyKey::F9 | HotkeyKey::F10
            | HotkeyKey::F11 | HotkeyKey::F12,
    )
}

/// The display name of each key, as `display_name` returns it.
pub open spec fn spec_display_name(k: HotkeyKey) -> Seq<char> {
    match k {
        HotkeyKey::ControlLeft => "Ctrl(左)"@,
        HotkeyKey::ControlRight => "Ctrl(右)"@,
        HotkeyKey::ShiftLeft => "Shift(左)"@,
        HotkeyKey::ShiftRight => "Shift(右)"@,
        HotkeyKey::AltLeft => "Alt(左)"@,
        HotkeyKey::AltRight => "Alt(右)"@,
        HotkeyKey::MetaLeft => "Win(左)"@,
        HotkeyKey::MetaRight => "Win(右)"@,
        HotkeyKey::Space => "Space"@,
        HotkeyKey::Tab => "Tab"@,
        HotkeyKey::CapsLock => "CapsLock"@,
        HotkeyKey::Escape => "Esc"@,
        HotkeyKey::F1 => "F1"@,
        HotkeyKey::F2 => "F2"@,
        HotkeyKey::F3 => "F3"@,
        HotkeyKey::F4 => "F4"@,
        HotkeyKey::F5 => "F5"@,
        HotkeyKey::F6 => "F6"@,
        HotkeyKey::F7 => "F7"@,
        HotkeyKey::F8 => "F8"@,
        HotkeyKey::F9 => "F9"@,
        HotkeyKey::F10 => "F10"@,
        HotkeyKey::F11 => "F11"@,
        HotkeyKey::F12 => "F12"@,
        HotkeyKey::KeyA => "A"@,
        HotkeyKey::KeyB => "B"@,
        HotkeyKey::KeyC => "C"@,
        HotkeyKey::KeyD => "D"@,
        HotkeyKey::KeyE => "E"@,
        HotkeyKey::KeyF => "F"@,
        HotkeyKey::KeyG => "G"@,
        HotkeyKey::KeyH => "H"@,
        HotkeyKey::KeyI => "I"@,
        HotkeyKey::KeyJ => "J"@,
        HotkeyKey::KeyK => "K"@,
        HotkeyKey::KeyL => "L"@,
        HotkeyKey::KeyM => "M"@,
        HotkeyKey::KeyN => "N"@,
        HotkeyKey::KeyO => "O"@,
        HotkeyKey::KeyP => "P"@,
        HotkeyKey::KeyQ => "Q"@,
        HotkeyKey::KeyR => "R"@,
        HotkeyKey::KeyS => "S"@,
        HotkeyKey::KeyT => "T"@,
        HotkeyKey::KeyU => "U"@,
        HotkeyKey::KeyV => "V"@,
        HotkeyKey::KeyW => "W"@,
        HotkeyKey::KeyX => "X"@,
        HotkeyKey::KeyY => "Y"@,
        HotkeyKey::KeyZ => "Z"@,
        HotkeyKey::Num0 => "0"@,
        HotkeyKey::Num1 => "1"@,
        HotkeyKey::Num2 => "2"@,
        HotkeyKey::Num3 => "3"@,
        HotkeyKey::Num4 => "4"@,
        HotkeyKey::Num5 => "5"@,
        HotkeyKey::Num6 => "6"@,
        HotkeyKey::Num7 => "7"@,
        HotkeyKey::Num8 => "8"@,
        HotkeyKey::Num9 => "9"@,
        HotkeyKey::Up => "↑"@,
        HotkeyKey::Down => "↓"@,
        HotkeyKey::Left => "←"@,
        HotkeyKey::Right => "→"@,
        HotkeyKey::Return => "Enter"@,
        HotkeyKey::Backspace => "Backspace"@,
        HotkeyKey::Delete => "Delete"@,
        HotkeyKey::Insert => "Insert"@,
        HotkeyKey::Home => "Home"@,
        HotkeyKey::End => "End"@,
        HotkeyKey::PageUp => "PageUp"@,
        HotkeyKey::PageDown => "PageDown"@,
    }
}

impl HotkeyKey {
    /// Whether this key is a modifier key.
    pub fn is_modifier(&self) -> (r: bool)
        ensures
            r == spec_is_modifier(*self),
    {
        matches!(
            self,
            HotkeyKey::ControlLeft | HotkeyKey::ControlRight | HotkeyKey::ShiftLeft
                | HotkeyKey::ShiftRight | HotkeyKey::AltLeft | HotkeyKey::AltRight
                | HotkeyKey::MetaLeft | HotkeyKey::MetaRight,
        )
    }

    /// Whether this key is one of the function keys F1 through F12.
    pub fn is_function_key(&self) -> (r: bool)
        ensures
            r == spec_is_function_key(*self),
    {
        matches!(
            self,
            HotkeyKey::F1 | HotkeyKey::F2 | HotkeyKey::F3 | HotkeyKey::F4 | HotkeyKey::F5
                | HotkeyKey::F6 | HotkeyKey::F7 | HotkeyKey::F8 | HotkeyKey::F9 | HotkeyKey::F10
                | HotkeyKey::F11 | HotkeyKey::F12,
        )
    }

    /// Short human-readable name of the key, for logs and the debug report.
    pub fn display_name(&self) -> (r: &'static str)
        ensures
            r@ == spec_display_name(*self),
    {
        match self {
            HotkeyKey::ControlLeft => "Ctrl(左)",
            HotkeyKey::ControlRight => "Ctrl(右)",
            HotkeyKey::ShiftLeft => "Shift(左)",
            HotkeyKey::ShiftRight => "Shift(右)",
            HotkeyKey::AltLeft => "Alt(左)",
            HotkeyKey::AltRight => "Alt(右)",
            HotkeyKey::MetaLeft => "Win(左)",
            HotkeyKey::MetaRight => "Win(右)",
            HotkeyKey::Space => "Space",
            HotkeyKey::Tab => "Tab",
            HotkeyKey::CapsLock => "CapsLock",
            HotkeyKey::Escape => "Esc",
            HotkeyKey::F1 => "F1",
            HotkeyKey::F2 => "F2",
            HotkeyKey::F3 => "F3",
            HotkeyKey::F4 => "F4",
            HotkeyKey::F5 => "F5",
            HotkeyKey::F6 => "F6",
            HotkeyKey::F7 => "F7",
            HotkeyKey::F8 => "F8",
            HotkeyKey::F9 => "F9",
            HotkeyKey::F10 => "F10",
            HotkeyKey::F11 => "F11",
            HotkeyKey::F12 => "F12",
            HotkeyKey::KeyA => "A",
            HotkeyKey::KeyB => "B",
            HotkeyKey::KeyC => "C",
            HotkeyKey::KeyD => "D",
            HotkeyKey::KeyE => "E",
            HotkeyKey::KeyF => "F",
            HotkeyKey::KeyG => "G",
            HotkeyKey::KeyH => "H",
            HotkeyKey::KeyI => "I",
            HotkeyKey::KeyJ => "J",
            HotkeyKey::KeyK => "K",
            HotkeyKey::KeyL => "L",
            HotkeyKey::KeyM => "M",
            HotkeyKey::KeyN => "N",
            HotkeyKey::KeyO => "O",
            HotkeyKey::KeyP => "P",
            HotkeyKey::KeyQ => "Q",
            HotkeyKey::KeyR => "R",
            HotkeyKey::KeyS => "S",
            HotkeyKey::KeyT => "T",
            HotkeyKey::KeyU => "U",
            HotkeyKey::KeyV => "V",
            HotkeyKey::KeyW => "W",
            HotkeyKey::KeyX => "X",
            HotkeyKey::KeyY => "Y",
            HotkeyKey::KeyZ => "Z",
            HotkeyKey::Num0 => "0",
            HotkeyKey::Num1 => "1",
            HotkeyKey::Num2 => "2",
            HotkeyKey::Num3 => "3",
            HotkeyKey::Num4 => "4",
            HotkeyKey::Num5 => "5",
            HotkeyKey::Num6 => "6",
            HotkeyKey::Num7 => "7",
            HotkeyKey::Num8 => "8",
            HotkeyKey::Num9 => "9",
            HotkeyKey::Up => "↑",
            HotkeyKey::Down => "↓",
            HotkeyKey::Left => "←",
            HotkeyKey::Right => "→",
            HotkeyKey::Return => "Enter",
            HotkeyKey::Backspace => "Backspace",
            HotkeyKey::Delete => "Delete",
            HotkeyKey::Insert => "Insert",
            HotkeyKey::Home => "Home",
            HotkeyKey::End => "End",
            HotkeyKey::PageUp => "PageUp",
            HotkeyKey::PageDown => "PageDown",
        }
    }
}

} // verus!
