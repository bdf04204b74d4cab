use winit_window::event::{character_text, map_state, map_touch, scancode_to_i32, touch_id_to_i64};
use winit_window::{
    map_key, map_mouse, ButtonState, ElementState, Key, MouseButton, Touch, TouchPhase,
    VirtualKeyCode, WinitMouseButton,
};

#[test]
fn digits_and_letters_map_to_their_keys() {
    assert_eq!(map_key(VirtualKeyCode::Key0), Key::D0);
    assert_eq!(map_key(VirtualKeyCode::Key9), Key::D9);
    assert_eq!(map_key(VirtualKeyCode::A), Key::A);
    assert_eq!(map_key(VirtualKeyCode::Z), Key::Z);
}

#[test]
fn renamed_keys_map_to_their_counterparts() {
    assert_eq!(map_key(VirtualKeyCode::Back), Key::Backspace);
    assert_eq!(map_key(VirtualKeyCode::Return), Key::Return);
    assert_eq!(map_key(VirtualKeyCode::Escape), Key::Escape);
    assert_eq!(map_key(VirtualKeyCode::Snapshot), Key::PrintScreen);
    assert_eq!(map_key(VirtualKeyCode::Scroll), Key::ScrollLock);
    assert_eq!(map_key(VirtualKeyCode::Numlock), Key::NumLockClear);
    assert_eq!(map_key(VirtualKeyCode::LControl), Key::LCtrl);
    assert_eq!(map_key(VirtualKeyCode::RControl), Key::RCtrl);
    assert_eq!(map_key(VirtualKeyCode::LBracket), Key::LeftBracket);
    assert_eq!(map_key(VirtualKeyCode::RBracket), Key::RightBracket);
}

#[test]
fn numpad_keys_map_to_numpad_slots() {
    assert_eq!(map_key(VirtualKeyCode::Numpad0), Key::NumPad0);
    assert_eq!(map_key(VirtualKeyCode::Numpad9), Key::NumPad9);
    assert_eq!(map_key(VirtualKeyCode::NumpadComma), Key::NumPadDecimal);
    assert_eq!(map_key(VirtualKeyCode::Divide), Key::NumPadDivide);
    assert_eq!(map_key(VirtualKeyCode::Multiply), Key::NumPadMultiply);
    assert_eq!(map_key(VirtualKeyCode::Subtract), Key::NumPadMinus);
    assert_eq!(map_key(VirtualKeyCode::Add), Key::NumPadPlus);
    assert_eq!(map_key(VirtualKeyCode::NumpadEnter), Key::NumPadEnter);
    assert_eq!(map_key(VirtualKeyCode::NumpadEquals), Key::NumPadEquals);
}

#[test]
fn function_keys_map_one_to_one() {
    assert_eq!(map_key(VirtualKeyCode::F1), Key::F1);
    assert_eq!(map_key(VirtualKeyCode::F12), Key::F12);
    assert_eq!(map_key(VirtualKeyCode::F24), Key::F24);
}

#[test]
fn keys_without_counterpart_are_unknown() {
    assert_eq!(map_key(VirtualKeyCode::Apostrophe), Key::Unknown);
    assert_eq!(map_key(VirtualKeyCode::Capital), Key::Unknown);
    assert_eq!(map_key(VirtualKeyCode::Grave), Key::Unknown);
    assert_eq!(map_key(VirtualKeyCode::Decimal), Key::Unknown);
    assert_eq!(map_key(VirtualKeyCode::LWin), Key::Unknown);
    assert_eq!(map_key(VirtualKeyCode::VolumeUp), Key::Unknown);
    assert_eq!(map_key(VirtualKeyCode::Cut), Key::Unknown);
}

#[test]
fn main_mouse_buttons_map_one_to_one() {
    assert_eq!(map_mouse(WinitMouseButton::Left), MouseButton::Left);
    assert_eq!(map_mouse(WinitMouseButton::Right), MouseButton::Right);
    assert_eq!(map_mouse(WinitMouseButton::Middle), MouseButton::Middle);
}

#[test]
fn extra_mouse_buttons_map_to_extra_slots() {
    assert_eq!(map_mouse(WinitMouseButton::Other(0)), MouseButton::X1);
    assert_eq!(map_mouse(WinitMouseButton::Other(1)), MouseButton::X2);
    assert_eq!(map_mouse(WinitMouseButton::Other(2)), MouseButton::Button6);
    assert_eq!(map_mouse(WinitMouseButton::Other(3)), MouseButton::Button7);
    assert_eq!(map_mouse(WinitMouseButton::Other(4)), MouseButton::Button8);
}

#[test]
fn extra_mouse_buttons_beyond_the_slots_are_unknown() {
    let mut index: u8 = 5;
    loop {
        assert_eq!(map_mouse(WinitMouseButton::Other(index)), MouseButton::Unknown);
        if index == u8::MAX {
            break;
        }
        index += 1;
    }
}

#[test]
fn control_characters_give_no_text() {
    for ch in ['\u{7f}', '\u{1b}', '\u{8}', '\r', '\n', '\t'] {
        assert_eq!(character_text(ch), None);
    }
}

#[test]
fn other_characters_give_themselves() {
    assert_eq!(character_text('a'), Some('a'));
    assert_eq!(character_text(' '), Some(' '));
    assert_eq!(character_text('\u{e9}'), Some('\u{e9}'));
    assert_eq!(character_text('\u{0}'), Some('\u{0}'));
}

#[test]
fn scancodes_keep_their_bits() {
    assert_eq!(scancode_to_i32(0), 0);
    assert_eq!(scancode_to_i32(30), 30);
    assert_eq!(scancode_to_i32(0x7fff_ffff), i32::MAX);
    assert_eq!(scancode_to_i32(0x8000_0000), i32::MIN);
    assert_eq!(scancode_to_i32(u32::MAX), -1);
}

#[test]
fn touch_ids_keep_their_bits() {
    assert_eq!(touch_id_to_i64(7), 7);
    assert_eq!(touch_id_to_i64(0x7fff_ffff_ffff_ffff), i64::MAX);
    assert_eq!(touch_id_to_i64(0x8000_0000_0000_0000), i64::MIN);
    assert_eq!(touch_id_to_i64(u64::MAX), -1);
}

#[test]
fn touch_phases_and_states_map_one_to_one() {
    assert_eq!(map_touch(TouchPhase::Started), Touch::Start);
    assert_eq!(map_touch(TouchPhase::Moved), Touch::Move);
    assert_eq!(map_touch(TouchPhase::Ended), Touch::End);
    assert_eq!(map_touch(TouchPhase::Cancelled), Touch::Cancel);
    assert_eq!(map_state(ElementState::Pressed), ButtonState::Press);
    assert_eq!(map_state(ElementState::Released), ButtonState::Release);
}
