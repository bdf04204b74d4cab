//! Key codes: the native keyboard enumeration, the normalized key set, and
//! the table that takes one to the other.

use vstd::prelude::*;

verus! {

/// A virtual key code as the native windowing backend reports it.
#[derive(Clone, Copy, Debug, PartialEq, Eq, Structural)]
pub enum VirtualKeyCode {
    Key1,
    Key2,
    Key3,
    Key4,
    Key5,
    Key6,
    Key7,
    Key8,
    Key9,
    Key0,
    A,
    B,
    C,
    D,
    E,
    F,
    G,
    H,
    I,
    J,
    K,
    L,
    M,
    N,
    O,
    P,
    Q,
    R,
    S,
    T,
    U,
    V,
    W,
    X,
    Y,
    Z,
    Escape,
    F1,
    F2,
    F3,
    F4,
    F5,
    F6,
    F7,
    F8,
    F9,
    F10,
    F11,
    F12,
    F13,
    F14,
    F15,
    F16,
    F17,
    F18,
    F19,
    F20,
    F21,
    F22,
    F23,
    F24,
    Snapshot,
    Scroll,
    Pause,
    Insert,
    Home,
    Delete,
    End,
    PageDown,
    PageUp,
    Left,
    Up,
    Right,
    Down,
    Back,
    Return,
    Space,
    Compose,
    Caret,
    Numlock,
    Numpad0,
    Numpad1,
    Numpad2,
    Numpad3,
    Numpad4,
    Numpad5,
    Numpad6,
    Numpad7,
    Numpad8,
    Numpad9,
    AbntC1,
    AbntC2,
    Add,
    Apostrophe,
    Apps,
    At,
    Ax,
    Backslash,
    Calculator,
    Capital,
    Colon,
    Comma,
    Convert,
    Decimal,
    Divide,
    Equals,
    Grave,
    Kana,
    Kanji,
    LAlt,
    LBracket,
    LControl,
    LShift,
    LWin,
    Mail,
    MediaSelect,
    MediaStop,
    Minus,
    Multiply,
    Mute,
    MyComputer,
    NavigateForward,
    NavigateBackward,
    NextTrack,
    NoConvert,
    NumpadComma,
    NumpadEnter,
    NumpadEquals,
    OEM102,
    Period,
    PlayPause,
    Power,
    PrevTrack,
    RAlt,
    RBracket,
    RControl,
    RShift,
    RWin,
    Semicolon,
    Slash,
    Sleep,
    Stop,
    Subtract,
    Sysrq,
    Tab,
    Underline,
    Unlabeled,
    VolumeDown,
    VolumeUp,
    Wake,
    WebBack,
    WebFavorites,
    WebForward,
    WebHome,
    WebRefresh,
    WebSearch,
    WebStop,
    Yen,
    Copy,
    Paste,
    Cut,
}

/// A key of the normalized input vocabulary. `Unknown` stands for every
/// native key that has no counterpart.
#[derive(Clone, Copy, Debug, PartialEq, Eq, Structural)]
pub enum Key {
    Unknown,
    D0,
    D1,
    D2,
    D3,
    D4,
    D5,
    D6,
    D7,
    D8,
    D9,
    A,
    B,
    C,
    D,
    E,
    F,
    G,
    H,
    I,
    J,
    K,
    L,
    M,
    N,
    O,
    P,
    Q,
    R,
    S,
    T,
    U,
    V,
    W,
    X,
    Y,
    Z,
    Backslash,
    Backspace,
    Delete,
    Comma,
    Down,
    End,
    Return,
    Equals,
    Escape,
    F1,
    F2,
    F3,
    F4,
    F5,
    F6,
    F7,
    F8,
    F9,
    F10,
    F11,
    F12,
    F13,
    F14,
    F15,
    F16,
    F17,
    F18,
    F19,
    F20,
    F21,
    F22,
    F23,
    F24,
    NumPad0,
    NumPad1,
    NumPad2,
    NumPad3,
    NumPad4,
    NumPad5,
    NumPad6,
    NumPad7,
    NumPad8,
    NumPad9,
    NumPadDecimal,
    NumPadDivide,
    NumPadMultiply,
    NumPadMinus,
    NumPadPlus,
    NumPadEnter,
    NumPadEquals,
    LShift,
    LCtrl,
    LAlt,
    RShift,
    RCtrl,
    RAlt,
    Home,
    Insert,
    Left,
    LeftBracket,
    Minus,
    NumLockClear,
    PageDown,
    PageUp,
    Pause,
    Period,
    PrintScreen,
    Right,
    RightBracket,
    ScrollLock,
    Semicolon,
    Slash,
    Space,
    Tab,
    Up,
}

/// The key table: the normalized key of each native key code. A code that is
/// not listed has no counterpart and is `Key::Unknown`.
pub open spec fn key_of(keycode: VirtualKeyCode) -> Key {
    match keycode {
        VirtualKeyCode::Key0 => Key::D0,
        VirtualKeyCode::Key1 => Key::D1,
        VirtualKeyCode::Key2 => Key::D2,
        VirtualKeyCode::Key3 => Key::D3,
        VirtualKeyCode::Key4 => Key::D4,
        VirtualKeyCode::Key5 => Key::D5,
        VirtualKeyCode::Key6 => Key::D6,
        VirtualKeyCode::Key7 => Key::D7,
        VirtualKeyCode::Key8 => Key::D8,
        VirtualKeyCode::Key9 => Key::D9,
        VirtualKeyCode::A => Key::A,
        VirtualKeyCode::B => Key::B,
        VirtualKeyCode::C => Key::C,
        VirtualKeyCode::D => Key::D,
        VirtualKeyCode::E => Key::E,
        VirtualKeyCode::F => Key::F,
        VirtualKeyCode::G => Key::G,
        VirtualKeyCode::H => Key::H,
        VirtualKeyCode::I => Key::I,
        VirtualKeyCode::J => Key::J,
        VirtualKeyCode::K => Key::K,
        VirtualKeyCode::L => Key::L,
        VirtualKeyCode::M => Key::M,
        VirtualKeyCode::N => Key::N,
        VirtualKeyCode::O => Key::O,
        VirtualKeyCode::P => Key::P,
        VirtualKeyCode::Q => Key::Q,
        VirtualKeyCode::R => Key::R,
        VirtualKeyCode::S => Key::S,
        VirtualKeyCode::T => Key::T,
        VirtualKeyCode::U => Key::U,
        VirtualKeyCode::V => Key::V,
        VirtualKeyCode::W => Key::W,
        VirtualKeyCode::X => Key::X,
        VirtualKeyCode::Y => Key::Y,
        VirtualKeyCode::Z => Key::Z,
        VirtualKeyCode::Backslash => Key::Backslash,
        VirtualKeyCode::Back => Key::Backspace,
        VirtualKeyCode::Delete => Key::Delete,
        VirtualKeyCode::Comma => Key::Comma,
        VirtualKeyCode::Down => Key::Down,
        VirtualKeyCode::End => Key::End,
        VirtualKeyCode::Return => Key::Return,
        VirtualKeyCode::Equals => Key::Equals,
        VirtualKeyCode::Escape => Key::Escape,
        VirtualKeyCode::F1 => Key::F1,
        VirtualKeyCode::F2 => Key::F2,
        VirtualKeyCode::F3 => Key::F3,
        VirtualKeyCode::F4 => Key::F4,
        VirtualKeyCode::F5 => Key::F5,
        VirtualKeyCode::F6 => Key::F6,
        VirtualKeyCode::F7 => Key::F7,
        VirtualKeyCode::F8 => Key::F8,
        VirtualKeyCode::F9 => Key::F9,
        VirtualKeyCode::F10 => Key::F10,
        VirtualKeyCode::F11 => Key::F11,
        VirtualKeyCode::F12 => Key::F12,
        VirtualKeyCode::F13 => Key::F13,
        VirtualKeyCode::F14 => Key::F14,
        VirtualKeyCode::F15 => Key::F15,
        VirtualKeyCode::F16 => Key::F16,
        VirtualKeyCode::F17 => Key::F17,
        VirtualKeyCode::F18 => Key::F18,
        VirtualKeyCode::F19 => Key::F19,
        VirtualKeyCode::F20 => Key::F20,
        VirtualKeyCode::F21 => Key::F21,
        VirtualKeyCode::F22 => Key::F22,
        VirtualKeyCode::F23 => Key::F23,
        VirtualKeyCode::F24 => Key::F24,
        VirtualKeyCode::Numpad0 => Key::NumPad0,
        VirtualKeyCode::Numpad1 => Key::NumPad1,
        VirtualKeyCode::Numpad2 => Key::NumPad2,
        VirtualKeyCode::Numpad3 => Key::NumPad3,
        VirtualKeyCode::Numpad4 => Key::NumPad4,
        VirtualKeyCode::Numpad5 => Key::NumPad5,
        VirtualKeyCode::Numpad6 => Key::NumPad6,
        VirtualKeyCode::Numpad7 => Key::NumPad7,
        VirtualKeyCode::Numpad8 => Key::NumPad8,
        VirtualKeyCode::Numpad9 => Key::NumPad9,
        VirtualKeyCode::NumpadComma => Key::NumPadDecimal,
        VirtualKeyCode::Divide => Key::NumPadDivide,
        VirtualKeyCode::Multiply => Key::NumPadMultiply,
        VirtualKeyCode::Subtract => Key::NumPadMinus,
        VirtualKeyCode::Add => Key::NumPadPlus,
        VirtualKeyCode::NumpadEnter => Key::NumPadEnter,
        VirtualKeyCode::NumpadEquals => Key::NumPadEquals,
        VirtualKeyCode::LShift => Key::LShift,
        VirtualKeyCode::LControl => Key::LCtrl,
        VirtualKeyCode::LAlt => Key::LAlt,
        VirtualKeyCode::RShift => Key::RShift,
        VirtualKeyCode::RControl => Key::RCtrl,
        VirtualKeyCode::RAlt => Key::RAlt,
        VirtualKeyCode::Home => Key::Home,
        VirtualKeyCode::Insert => Key::Insert,
        VirtualKeyCode::Left => Key::Left,
        VirtualKeyCode::LBracket => Key::LeftBracket,
        VirtualKeyCode::Minus => Key::Minus,
        VirtualKeyCode::Numlock => Key::NumLockClear,
        VirtualKeyCode::PageDown => Key::PageDown,
        VirtualKeyCode::PageUp => Key::PageUp,
        VirtualKeyCode::Pause => Key::Pause,
        VirtualKeyCode::Period => Key::Period,
        VirtualKeyCode::Snapshot => Key::PrintScreen,
        VirtualKeyCode::Right => Key::Right,
        VirtualKeyCode::RBracket => Key::RightBracket,
        VirtualKeyCode::Scroll => Key::ScrollLock,
        VirtualKeyCode::Semicolon => Key::Semicolon,
        VirtualKeyCode::Slash => Key::Slash,
        VirtualKeyCode::Space => Key::Space,
        VirtualKeyCode::Tab => Key::Tab,
        VirtualKeyCode::Up => Key::Up,
        _ => Key::Unknown,
    }
}

/// Whether the key table lists `keycode` with a counterpart of its own.
pub open spec fn is_mapped(keycode: VirtualKeyCode) -> bool {
    ||| keycode == VirtualKeyCode::Key0
    ||| keycode == VirtualKeyCode::Key1
    ||| keycode == VirtualKeyCode::Key2
    ||| keycode == VirtualKeyCode::Key3
    ||| keycode == VirtualKeyCode::Key4
    ||| keycode == VirtualKeyCode::Key5
    ||| keycode == VirtualKeyCode::Key6
    ||| keycode == VirtualKeyCode::Key7
    ||| keycode == VirtualKeyCode::Key8
    ||| keycode == VirtualKeyCode::Key9
    ||| keycode == VirtualKeyCode::A
    ||| keycode == VirtualKeyCode::B
    ||| keycode == VirtualKeyCode::C
    ||| keycode == VirtualKeyCode::D
    ||| keycode == VirtualKeyCode::E
    ||| keycode == VirtualKeyCode::F
    ||| keycode == VirtualKeyCode::G
    ||| keycode == VirtualKeyCode::H
    ||| keycode == VirtualKeyCode::I
    ||| keycode == VirtualKeyCode::J
    ||| keycode == VirtualKeyCode::K
    ||| keycode == VirtualKeyCode::L
    ||| keycode == VirtualKeyCode::M
    ||| keycode == VirtualKeyCode::N
    ||| keycode == VirtualKeyCode::O
    ||| keycode == VirtualKeyCode::P
    ||| keycode == VirtualKeyCode::Q
    ||| keycode == VirtualKeyCode::R
    ||| keycode == VirtualKeyCode::S
    ||| keycode == VirtualKeyCode::T
    ||| keycode == VirtualKeyCode::U
    ||| keycode == VirtualKeyCode::V
    ||| keycode == VirtualKeyCode::W
    ||| keycode == VirtualKeyCode::X
    ||| keycode == VirtualKeyCode::Y
    ||| keycode == VirtualKeyCode::Z
    ||| keycode == VirtualKeyCode::Backslash
    ||| keycode == VirtualKeyCode::Back
    ||| keycode == VirtualKeyCode::Delete
    ||| keycode == VirtualKeyCode::Comma
    ||| keycode == VirtualKeyCode::Down
    ||| keycode == VirtualKeyCode::End
    ||| keycode == VirtualKeyCode::Return
    ||| keycode == VirtualKeyCode::Equals
    ||| keycode == VirtualKeyCode::Escape
    ||| keycode == VirtualKeyCode::F1
    ||| keycode == VirtualKeyCode::F2
    ||| keycode == VirtualKeyCode::F3
    ||| keycode == VirtualKeyCode::F4
    ||| keycode == VirtualKeyCode::F5
    ||| keycode == VirtualKeyCode::F6
    ||| keycode == VirtualKeyCode::F7
    ||| keycode == VirtualKeyCode::F8
    ||| keycode == VirtualKeyCode::F9
    ||| keycode == VirtualKeyCode::F10
    ||| keycode == VirtualKeyCode::F11
    ||| keycode == VirtualKeyCode::F12
    ||| keycode == VirtualKeyCode::F13
    ||| keycode == VirtualKeyCode::F14
    ||| keycode == VirtualKeyCode::F15
    ||| keycode == VirtualKeyCode::F16
    ||| keycode == VirtualKeyCode::F17
    ||| keycode == VirtualKeyCode::F18
    ||| keycode == VirtualKeyCode::F19
    ||| keycode == VirtualKeyCode::F20
    ||| keycode == VirtualKeyCode::F21
    ||| keycode == VirtualKeyCode::F22
    ||| keycode == VirtualKeyCode::F23
    ||| keycode == VirtualKeyCode::F24
    ||| keycode == VirtualKeyCode::Numpad0
    ||| keycode == VirtualKeyCode::Numpad1
    ||| keycode == VirtualKeyCode::Numpad2
    ||| keycode == VirtualKeyCode::Numpad3
    ||| keycode == VirtualKeyCode::Numpad4
    ||| keycode == VirtualKeyCode::Numpad5
    ||| keycode == VirtualKeyCode::Numpad6
    ||| keycode == VirtualKeyCode::Numpad7
    ||| keycode == VirtualKeyCode::Numpad8
    ||| keycode == VirtualKeyCode::Numpad9
    ||| keycode == VirtualKeyCode::NumpadComma
    ||| keycode == VirtualKeyCode::Divide
    ||| keycode == VirtualKeyCode::Multiply
    ||| keycode == VirtualKeyCode::Subtract
    ||| keycode == VirtualKeyCode::Add
    ||| keycode == VirtualKeyCode::NumpadEnter
    ||| keycode == VirtualKeyCode::NumpadEquals
    ||| keycode == VirtualKeyCode::LShift
    ||| keycode == VirtualKeyCode::LControl
    ||| keycode == VirtualKeyCode::LAlt
    ||| keycode == VirtualKeyCode::RShift
    ||| keycode == VirtualKeyCode::RControl
    ||| keycode == VirtualKeyCode::RAlt
    ||| keycode == VirtualKeyCode::Home
    ||| keycode == VirtualKeyCode::Insert
    ||| keycode == VirtualKeyCode::Left
    ||| keycode == VirtualKeyCode::LBracket
    ||| keycode == VirtualKeyCode::Minus
    ||| keycode == VirtualKeyCode::Numlock
    ||| keycode == VirtualKeyCode::PageDown
    ||| keycode == VirtualKeyCode::PageUp
    ||| keycode == VirtualKeyCode::Pause
    ||| keycode == VirtualKeyCode::Period
    ||| keycode == VirtualKeyCode::Snapshot
    ||| keycode == VirtualKeyCode::Right
    ||| keycode == VirtualKeyCode::RBracket
    ||| keycode == VirtualKeyCode::Scroll
    ||| keycode == VirtualKeyCode::Semicolon
    ||| keycode == VirtualKeyCode::Slash
    ||| keycode == VirtualKeyCode::Space
    ||| keycode == VirtualKeyCode::Tab
    ||| keycode == VirtualKeyCode::Up
}

/// Maps a native key code to the normalized key.
pub fn map_key(keycode: VirtualKeyCode) -> (key: Key)
    ensures
        key == key_of(keycode),
        !is_mapped(keycode) ==> key == Key::Unknown,
{
    match keycode {
        VirtualKeyCode::Key0 => Key::D0,
        VirtualKeyCode::Key1 => Key::D1,
        VirtualKeyCode::Key2 => Key::D2,
        VirtualKeyCode::Key3 => Key::D3,
        VirtualKeyCode::Key4 => Key::D4,
        VirtualKeyCode::Key5 => Key::D5,
        VirtualKeyCode::Key6 => Key::D6,
        VirtualKeyCode::Key7 => Key::D7,
        VirtualKeyCode::Key8 => Key::D8,
        VirtualKeyCode::Key9 => Key::D9,
        VirtualKeyCode::A => Key::A,
        VirtualKeyCode::B => Key::B,
        VirtualKeyCode::C => Key::C,
        VirtualKeyCode::D => Key::D,
        VirtualKeyCode::E => Key::E,
        VirtualKeyCode::F => Key::F,
        VirtualKeyCode::G => Key::G,
        VirtualKeyCode::H => Key::H,
        VirtualKeyCode::I => Key::I,
        VirtualKeyCode::J => Key::J,
        VirtualKeyCode::K => Key::K,
        VirtualKeyCode::L => Key::L,
        VirtualKeyCode::M => Key::M,
        VirtualKeyCode::N => Key::N,
        VirtualKeyCode::O => Key::O,
        VirtualKeyCode::P => Key::P,
        VirtualKeyCode::Q => Key::Q,
        VirtualKeyCode::R => Key::R,
        VirtualKeyCode::S => Key::S,
        VirtualKeyCode::T => Key::T,
        VirtualKeyCode::U => Key::U,
        VirtualKeyCode::V => Key::V,
        VirtualKeyCode::W => Key::W,
        VirtualKeyCode::X => Key::X,
        VirtualKeyCode::Y => Key::Y,
        VirtualKeyCode::Z => Key::Z,
        VirtualKeyCode::Apostrophe => Key::Unknown,
        VirtualKeyCode::Backslash => Key::Backslash,
        VirtualKeyCode::Back => Key::Backspace,
        VirtualKeyCode::Delete => Key::Delete,
        VirtualKeyCode::Comma => Key::Comma,
        VirtualKeyCode::Down => Key::Down,
        VirtualKeyCode::End => Key::End,
        VirtualKeyCode::Return => Key::Return,
        VirtualKeyCode::Equals => Key::Equals,
        VirtualKeyCode::Escape => Key::Escape,
        VirtualKeyCode::F1 => Key::F1,
        VirtualKeyCode::F2 => Key::F2,
        VirtualKeyCode::F3 => Key::F3,
        VirtualKeyCode::F4 => Key::F4,
        VirtualKeyCode::F5 => Key::F5,
        VirtualKeyCode::F6 => Key::F6,
        VirtualKeyCode::F7 => Key::F7,
        VirtualKeyCode::F8 => Key::F8,
        VirtualKeyCode::F9 => Key::F9,
        VirtualKeyCode::F10 => Key::F10,
        VirtualKeyCode::F11 => Key::F11,
        VirtualKeyCode::F12 => Key::F12,
        VirtualKeyCode::F13 => Key::F13,
        VirtualKeyCode::F14 => Key::F14,
        VirtualKeyCode::F15 => Key::F15,
        VirtualKeyCode::F16 => Key::F16,
        VirtualKeyCode::F17 => Key::F17,
        VirtualKeyCode::F18 => Key::F18,
        VirtualKeyCode::F19 => Key::F19,
        VirtualKeyCode::F20 => Key::F20,
        VirtualKeyCode::F21 => Key::F21,
        VirtualKeyCode::F22 => Key::F22,
        VirtualKeyCode::F23 => Key::F23,
        VirtualKeyCode::F24 => Key::F24,
        VirtualKeyCode::Numpad0 => Key::NumPad0,
        VirtualKeyCode::Numpad1 => Key::NumPad1,
        VirtualKeyCode::Numpad2 => Key::NumPad2,
        VirtualKeyCode::Numpad3 => Key::NumPad3,
        VirtualKeyCode::Numpad4 => Key::NumPad4,
        VirtualKeyCode::Numpad5 => Key::NumPad5,
        VirtualKeyCode::Numpad6 => Key::NumPad6,
        VirtualKeyCode::Numpad7 => Key::NumPad7,
        VirtualKeyCode::Numpad8 => Key::NumPad8,
        VirtualKeyCode::Numpad9 => Key::NumPad9,
        VirtualKeyCode::NumpadComma => Key::NumPadDecimal,
        VirtualKeyCode::Divide => Key::NumPadDivide,
        VirtualKeyCode::Multiply => Key::NumPadMultiply,
        VirtualKeyCode::Subtract => Key::NumPadMinus,
        VirtualKeyCode::Add => Key::NumPadPlus,
        VirtualKeyCode::NumpadEnter => Key::NumPadEnter,
        VirtualKeyCode::NumpadEquals => Key::NumPadEquals,
        VirtualKeyCode::LShift => Key::LShift,
        VirtualKeyCode::LControl => Key::LCtrl,
        VirtualKeyCode::LAlt => Key::LAlt,
        VirtualKeyCode::RShift => Key::RShift,
        VirtualKeyCode::RControl => Key::RCtrl,
        VirtualKeyCode::RAlt => Key::RAlt,
        VirtualKeyCode::Home => Key::Home,
        VirtualKeyCode::Insert => Key::Insert,
        VirtualKeyCode::Left => Key::Left,
        VirtualKeyCode::LBracket => Key::LeftBracket,
        VirtualKeyCode::Minus => Key::Minus,
        VirtualKeyCode::Numlock => Key::NumLockClear,
        VirtualKeyCode::PageDown => Key::PageDown,
        VirtualKeyCode::PageUp => Key::PageUp,
        VirtualKeyCode::Pause => Key::Pause,
        VirtualKeyCode::Period => Key::Period,
        VirtualKeyCode::Snapshot => Key::PrintScreen,
        VirtualKeyCode::Right => Key::Right,
        VirtualKeyCode::RBracket => Key::RightBracket,
        VirtualKeyCode::Scroll => Key::ScrollLock,
        VirtualKeyCode::Semicolon => Key::Semicolon,
        VirtualKeyCode::Slash => Key::Slash,
        VirtualKeyCode::Space => Key::Space,
        VirtualKeyCode::Tab => Key::Tab,
        VirtualKeyCode::Up => Key::Up,
        _ => Key::Unknown,
    }
}

/// No two native key codes share a normalized key other than `Unknown`, and
/// every listed code has a key other than `Unknown`.
pub proof fn lemma_key_table_injective(a: VirtualKeyCode, b: VirtualKeyCode)
    ensures
        is_mapped(a) <==> key_of(a) != Key::Unknown,
        key_of(a) == key_of(b) && key_of(a) != Key::Unknown ==> a == b,
{
}

/// Escape is the only native key code that maps to `Key::Escape`.
pub proof fn lemma_only_escape_maps_to_escape(keycode: VirtualKeyCode)
    ensures
        key_of(keycode) == Key::Escape <==> keycode == VirtualKeyCode::Escape,
{
}

} // verus!
