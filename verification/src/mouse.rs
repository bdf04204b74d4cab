//! Mouse buttons: the native button codes and their normalized slots.

use vstd::prelude::*;

verus! {

/// A mouse button as the native windowing backend reports it. `Other`
/// carries the backend's index for a button beyond the first three.
#[derive(Clone, Copy, Debug, PartialEq, Eq, Structural)]
pub enum WinitMouseButton {
    Left,
    Right,
    Middle,
    Other(u8),
}

/// A mouse button of the normalized input vocabulary.
#[derive(Clone, Copy, Debug, PartialEq, Eq, Structural)]
pub enum MouseButton {
    Unknown,
    Left,
    Right,
    Middle,
    X1,
    X2,
    Button6,
    Button7,
    Button8,
}

/// The slot of an extra button: indices 0 to 4 are the five extra slots in
/// order, and every other index has none.
pub open spec fn extra_button(index: u8) -> MouseButton {
    if index == 0 {
        MouseButton::X1
    } else if index == 1 {
        MouseButton::X2
    } else if index == 2 {
        MouseButton::Button6
    } else if index == 3 {
        MouseButton::Button7
    } else if index == 4 {
        MouseButton::Button8
    } else {
        MouseButton::Unknown
    }
}

/// The normalized button of each native button.
pub open spec fn button_of(mouse_button: WinitMouseButton) -> MouseButton {
    match mouse_button {
        WinitMouseButton::Left => MouseButton::Left,
        WinitMouseButton::Right => MouseButton::Right,
        WinitMouseButton::Middle => MouseButton::Middle,
        WinitMouseButton::Other(index) => extra_button(index),
    }
}

/// Maps a native mouse button to the normalized button.
pub fn map_mouse(mouse_button: WinitMouseButton) -> (button: MouseButton)
    ensures
        button == button_of(mouse_button),
        mouse_button matches WinitMouseButton::Other(index) ==> (button == MouseButton::Unknown
            <==> index > 4),
{
    match mouse_button {
        WinitMouseButton::Left => MouseButton::Left,
        WinitMouseButton::Right => MouseButton::Right,
        WinitMouseButton::Middle => MouseButton::Middle,
        WinitMouseButton::Other(0) => MouseButton::X1,
        WinitMouseButton::Other(1) => MouseButton::X2,
        WinitMouseButton::Other(2) => MouseButton::Button6,
        WinitMouseButton::Other(3) => MouseButton::Button7,
        WinitMouseButton::Other(4) => MouseButton::Button8,
        _ => MouseButton::Unknown,
    }
}

} // verus!
