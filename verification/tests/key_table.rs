use winit_window::{map_key, Key, VirtualKeyCode};

#[test]
fn every_listed_key_maps_to_its_counterpart() {
    let table = [
        (VirtualKeyCode::Key0, Key::D0),
        (VirtualKeyCode::Key1, Key::D1),
        (VirtualKeyCode::Key2, Key::D2),
        (VirtualKeyCode::Key3, Key::D3),
        (VirtualKeyCode::Key4, Key::D4),
        (VirtualKeyCode::Key5, Key::D5),
        (VirtualKeyCode::Key6, Key::D6),
        (VirtualKeyCode::Key7, Key::D7),
        (VirtualKeyCode::Key8, Key::D8),
        (VirtualKeyCode::Key9, Key::D9),
        (VirtualKeyCode::A, Key::A),
        (VirtualKeyCode::B, Key::B),
        (VirtualKeyCode::C, Key::C),
        (VirtualKeyCode::D, Key::D),
        (VirtualKeyCode::E, Key::E),
        (VirtualKeyCode::F, Key::F),
        (VirtualKeyCode::G, Key::G),
        (VirtualKeyCode::H, Key::H),
        (VirtualKeyCode::I, Key::I),
        (VirtualKeyCode::J, Key::J),
        (VirtualKeyCode::K, Key::K),
        (VirtualKeyCode::L, Key::L),
        (VirtualKeyCode::M, Key::M),
        (VirtualKeyCode::N, Key::N),
        (VirtualKeyCode::O, Key::O),
        (VirtualKeyCode::P, Key::P),
        (VirtualKeyCode::Q, Key::Q),
        (VirtualKeyCode::R, Key::R),
        (VirtualKeyCode::S, Key::S),
        (VirtualKeyCode::T, Key::T),
        (VirtualKeyCode::U, Key::U),
        (VirtualKeyCode::V, Key::V),
        (VirtualKeyCode::W, Key::W),
        (VirtualKeyCode::X, Key::X),
        (VirtualKeyCode::Y, Key::Y),
        (VirtualKeyCode::Z, Key::Z),
        (VirtualKeyCode::Apostrophe, Key::Unknown),
        (VirtualKeyCode::Backslash, Key::Backslash),
        (VirtualKeyCode::Back, Key::Backspace),
        (VirtualKeyCode::Delete, Key::Delete),
        (VirtualKeyCode::Comma, Key::Comma),
        (VirtualKeyCode::Down, Key::Down),
        (VirtualKeyCode::End, Key::End),
        (VirtualKeyCode::Return, Key::Return),
        (VirtualKeyCode::Equals, Key::Equals),
        (VirtualKeyCode::Escape, Key::Escape),
        (VirtualKeyCode::F1, Key::F1),
        (VirtualKeyCode::F2, Key::F2),
        (VirtualKeyCode::F3, Key::F3),
        (VirtualKeyCode::F4, Key::F4),
        (VirtualKeyCode::F5, Key::F5),
        (VirtualKeyCode::F6, Key::F6),
        (VirtualKeyCode::F7, Key::F7),
        (VirtualKeyCode::F8, Key::F8),
        (VirtualKeyCode::F9, Key::F9),
        (VirtualKeyCode::F10, Key::F10),
        (VirtualKeyCode::F11, Key::F11),
        (VirtualKeyCode::F12, Key::F12),
        (VirtualKeyCode::F13, Key::F13),
        (VirtualKeyCode::F14, Key::F14),
        (VirtualKeyCode::F15, Key::F15),
        (VirtualKeyCode::F16, Key::F16),
        (VirtualKeyCode::F17, Key::F17),
        (VirtualKeyCode::F18, Key::F18),
        (VirtualKeyCode::F19, Key::F19),
        (VirtualKeyCode::F20, Key::F20),
        (VirtualKeyCode::F21, Key::F21),
        (VirtualKeyCode::F22, Key::F22),
        (VirtualKeyCode::F23, Key::F23),
        (VirtualKeyCode::F24, Key::F24),
        (VirtualKeyCode::Numpad0, Key::NumPad0),
        (VirtualKeyCode::Numpad1, Key::NumPad1),
        (VirtualKeyCode::Numpad2, Key::NumPad2),
        (VirtualKeyCode::Numpad3, Key::NumPad3),
        (VirtualKeyCode::Numpad4, Key::NumPad4),
        (VirtualKeyCode::Numpad5, Key::NumPad5),
        (VirtualKeyCode::Numpad6, Key::NumPad6),
        (VirtualKeyCode::Numpad7, Key::NumPad7),
        (VirtualKeyCode::Numpad8, Key::NumPad8),
        (VirtualKeyCode::Numpad9, Key::NumPad9),
        (VirtualKeyCode::NumpadComma, Key::NumPadDecimal),
        (VirtualKeyCode::Divide, Key::NumPadDivide),
        (VirtualKeyCode::Multiply, Key::NumPadMultiply),
        (VirtualKeyCode::Subtract, Key::NumPadMinus),
        (VirtualKeyCode::Add, Key::NumPadPlus),
        (VirtualKeyCode::NumpadEnter, Key::NumPadEnter),
        (VirtualKeyCode::NumpadEquals, Key::NumPadEquals),
        (VirtualKeyCode::LShift, Key::LShift),
        (VirtualKeyCode::LControl, Key::LCtrl),
        (VirtualKeyCode::LAlt, Key::LAlt),
        (VirtualKeyCode::RShift, Key::RShift),
        (VirtualKeyCode::RControl, Key::RCtrl),
        (VirtualKeyCode::RAlt, Key::RAlt),
        (VirtualKeyCode::Home, Key::Home),
        (VirtualKeyCode::Insert, Key::Insert),
        (VirtualKeyCode::Left, Key::Left),
        (VirtualKeyCode::LBracket, Key::LeftBracket),
        (VirtualKeyCode::Minus, Key::Minus),
        (VirtualKeyCode::Numlock, Key::NumLockClear),
        (VirtualKeyCode::PageDown, Key::PageDown),
        (VirtualKeyCode::PageUp, Key::PageUp),
        (VirtualKeyCode::Pause, Key::Pause),
        (VirtualKeyCode::Period, Key::Period),
        (VirtualKeyCode::Snapshot, Key::PrintScreen),
        (VirtualKeyCode::Right, Key::Right),
        (VirtualKeyCode::RBracket, Key::RightBracket),
        (VirtualKeyCode::Scroll, Key::ScrollLock),
        (VirtualKeyCode::Semicolon, Key::Semicolon),
        (VirtualKeyCode::Slash, Key::Slash),
        (VirtualKeyCode::Space, Key::Space),
        (VirtualKeyCode::Tab, Key::Tab),
        (VirtualKeyCode::Up, Key::Up),
    ];
    assert_eq!(table.len(), 112);
    for (code, key) in table {
        assert_eq!(map_key(code), key);
    }
}

#[test]
fn every_other_key_is_unknown() {
    let rest = [
        VirtualKeyCode::Compose,
        VirtualKeyCode::Caret,
        VirtualKeyCode::AbntC1,
        VirtualKeyCode::AbntC2,
        VirtualKeyCode::Apps,
        VirtualKeyCode::At,
        VirtualKeyCode::Ax,
        VirtualKeyCode::Calculator,
        VirtualKeyCode::Capital,
        VirtualKeyCode::Colon,
        VirtualKeyCode::Convert,
        VirtualKeyCode::Decimal,
        VirtualKeyCode::Grave,
        VirtualKeyCode::Kana,
        VirtualKeyCode::Kanji,
        VirtualKeyCode::LWin,
        VirtualKeyCode::Mail,
        VirtualKeyCode::MediaSelect,
        VirtualKeyCode::MediaStop,
        VirtualKeyCode::Mute,
        VirtualKeyCode::MyComputer,
        VirtualKeyCode::NavigateForward,
        VirtualKeyCode::NavigateBackward,
        VirtualKeyCode::NextTrack,
        VirtualKeyCode::NoConvert,
        VirtualKeyCode::OEM102,
        VirtualKeyCode::PlayPause,
        VirtualKeyCode::Power,
        VirtualKeyCode::PrevTrack,
        VirtualKeyCode::RWin,
        VirtualKeyCode::Sleep,
        VirtualKeyCode::Stop,
        VirtualKeyCode::Sysrq,
        VirtualKeyCode::Underline,
        VirtualKeyCode::Unlabeled,
        VirtualKeyCode::VolumeDown,
        VirtualKeyCode::VolumeUp,
        VirtualKeyCode::Wake,
        VirtualKeyCode::WebBack,
        VirtualKeyCode::WebFavorites,
        VirtualKeyCode::WebForward,
        VirtualKeyCode::WebHome,
        VirtualKeyCode::WebRefresh,
        VirtualKeyCode::WebSearch,
        VirtualKeyCode::WebStop,
        VirtualKeyCode::Yen,
        VirtualKeyCode::Copy,
        VirtualKeyCode::Paste,
        VirtualKeyCode::Cut,
    ];
    assert_eq!(rest.len(), 49);
    for code in rest {
        assert_eq!(map_key(code), Key::Unknown);
    }
}
