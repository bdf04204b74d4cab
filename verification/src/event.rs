//! Raw events as the backend reports them, and the normalized input events
//! that they are translated to.
//!
//! Positions, deltas and the window's size are whole numbers of one fixed
//! sub-pixel unit that the embedding program chooses; the crate only
//! compares, halves and subtracts them. A position is already in
//! window-local, scale-corrected coordinates. The sizes of a resize are
//! handed on as they come.

use vstd::prelude::*;
use crate::keys::{Key, VirtualKeyCode};
use crate::mouse::{MouseButton, WinitMouseButton};

verus! {

/// A position in window-local coordinates.
#[derive(Clone, Copy, Debug, PartialEq, Eq, Structural)]
pub struct Position {
    pub x: i32,
    pub y: i32,
}

/// The difference of two positions.
#[derive(Clone, Copy, Debug, PartialEq, Eq, Structural)]
pub struct Delta {
    pub dx: i64,
    pub dy: i64,
}

/// A turn of the wheel along both axes.
#[derive(Clone, Copy, Debug, PartialEq, Eq, Structural)]
pub struct Scroll {
    pub dx: i32,
    pub dy: i32,
}

/// A width and a height.
#[derive(Clone, Copy, Debug, PartialEq, Eq, Structural)]
pub struct Size {
    pub width: u32,
    pub height: u32,
}

/// Whether a key or button went down or up.
#[derive(Clone, Copy, Debug, PartialEq, Eq, Structural)]
pub enum ElementState {
    Pressed,
    Released,
}

/// The phase of a touch as the backend reports it.
#[derive(Clone, Copy, Debug, PartialEq, Eq, Structural)]
pub enum TouchPhase {
    Started,
    Moved,
    Ended,
    Cancelled,
}

/// One event of the native backend, reduced to the kinds that are
/// translated. Everything else is `Unrecognized`.
#[derive(Clone, Debug, PartialEq, Eq)]
pub enum RawEvent {
    Resized { width: u32, height: u32 },
    ReceivedCharacter(char),
    Focused(bool),
    KeyboardInput { state: ElementState, virtual_keycode: Option<VirtualKeyCode>, scancode: u32 },
    Touch { phase: TouchPhase, x: i32, y: i32, id: u64 },
    CursorMoved { x: i32, y: i32 },
    CursorEntered,
    CursorLeft,
    MouseWheelPixels { dx: i32, dy: i32 },
    MouseWheelLines { dx: i32, dy: i32 },
    MouseInput { state: ElementState, button: WinitMouseButton },
    HoveredFile(String),
    DroppedFile(String),
    HoveredFileCancelled,
    CloseRequested,
    Unrecognized,
}

/// Press or release of a normalized button.
#[derive(Clone, Copy, Debug, PartialEq, Eq, Structural)]
pub enum ButtonState {
    Press,
    Release,
}

/// A keyboard key or a mouse button.
#[derive(Clone, Copy, Debug, PartialEq, Eq, Structural)]
pub enum Button {
    Keyboard(Key),
    Mouse(MouseButton),
}

/// A change of a button's state. Only keyboard events carry a scancode.
#[derive(Clone, Copy, Debug, PartialEq, Eq, Structural)]
pub struct ButtonArgs {
    pub state: ButtonState,
    pub button: Button,
    pub scancode: Option<i32>,
}

/// The normalized phase of a touch.
#[derive(Clone, Copy, Debug, PartialEq, Eq, Structural)]
pub enum Touch {
    Start,
    Move,
    End,
    Cancel,
}

/// A touch on device 0 at full pressure.
#[derive(Clone, Copy, Debug, PartialEq, Eq, Structural)]
pub struct TouchArgs {
    pub device: i64,
    pub id: i64,
    pub position: Position,
    pub touch: Touch,
}

/// Something moved: the cursor to a position, the cursor by a delta while
/// captured, the wheel, or a finger.
#[derive(Clone, Copy, Debug, PartialEq, Eq, Structural)]
pub enum Motion {
    MouseCursor(Position),
    MouseRelative(Delta),
    MouseScroll(Scroll),
    Touch(TouchArgs),
}

/// The window's new size and the size of its drawable area.
#[derive(Clone, Copy, Debug, PartialEq, Eq, Structural)]
pub struct ResizeArgs {
    pub window_size: Size,
    pub draw_size: Size,
}

/// A file dragged over the window, dropped on it, or taken away again.
#[derive(Clone, Debug, PartialEq, Eq)]
pub enum FileDrag {
    Hover(String),
    Drop(String),
    Cancel,
}

/// A normalized input event. `Text` holds the character typed, or nothing
/// where the character was a control character.
#[derive(Clone, Debug, PartialEq, Eq)]
pub enum Input {
    Button(ButtonArgs),
    Move(Motion),
    Text(Option<char>),
    Resize(ResizeArgs),
    Focus(bool),
    Cursor(bool),
    FileDrag(FileDrag),
    Close,
}

/// What a poll hands out: an input event and the time stamp it carries, if
/// any. Events made here carry none.
#[derive(Clone, Debug, PartialEq, Eq)]
pub enum Event {
    Input(Input, Option<u32>),
}

/// What the translator is told about the window with each call: its size
/// and the size of its drawable area, as the backend reports them now.
#[derive(Clone, Copy, Debug, PartialEq, Eq, Structural)]
pub struct Frame {
    pub size: Size,
    pub draw_size: Size,
}

/// The initial settings of a window. The size is for whoever creates the
/// native window.
#[derive(Clone, Debug, PartialEq, Eq)]
pub struct WindowSettings {
    pub title: String,
    pub size: Size,
    pub exit_on_esc: bool,
    pub automatic_close: bool,
}

/// The control characters that give an empty text: delete, escape,
/// backspace, carriage return, line feed and tab.
pub open spec fn is_control(ch: char) -> bool {
    ch == '\u{7f}' || ch == '\u{1b}' || ch == '\u{8}' || ch == '\r' || ch == '\n' || ch == '\t'
}

/// The text of a typed character.
pub open spec fn text_of(ch: char) -> Option<char> {
    if is_control(ch) {
        None
    } else {
        Some(ch)
    }
}

/// The normalized phase of a native touch phase.
pub open spec fn touch_of(phase: TouchPhase) -> Touch {
    match phase {
        TouchPhase::Started => Touch::Start,
        TouchPhase::Moved => Touch::Move,
        TouchPhase::Ended => Touch::End,
        TouchPhase::Cancelled => Touch::Cancel,
    }
}

/// The normalized state of a native element state.
pub open spec fn state_of(state: ElementState) -> ButtonState {
    match state {
        ElementState::Pressed => ButtonState::Press,
        ElementState::Released => ButtonState::Release,
    }
}

/// A 32-bit scancode read as a signed number of the same bits.
pub open spec fn signed32(code: u32) -> i32 {
    if code <= 0x7fff_ffff {
        code as i32
    } else {
        (code - 0x1_0000_0000) as i32
    }
}

/// A 64-bit touch id read as a signed number of the same bits.
pub open spec fn signed64(id: u64) -> i64 {
    if id <= 0x7fff_ffff_ffff_ffff {
        id as i64
    } else {
        (id - 0x1_0000_0000_0000_0000) as i64
    }
}

/// Reads a scancode as a signed number of the same bits.
pub fn scancode_to_i32(code: u32) -> (r: i32)
    ensures
        r == signed32(code),
{
    if code <= 0x7fff_ffff {
        code as i32
    } else {
        let low: u32 = code - 0x8000_0000;
        let low: i32 = low as i32;
        low + i32::MIN
    }
}

/// Reads a touch id as a signed number of the same bits.
pub fn touch_id_to_i64(id: u64) -> (r: i64)
    ensures
        r == signed64(id),
{
    if id <= 0x7fff_ffff_ffff_ffff {
        id as i64
    } else {
        let low: u64 = id - 0x8000_0000_0000_0000;
        let low: i64 = low as i64;
        low + i64::MIN
    }
}

/// The text of a typed character: nothing for a control character.
pub fn character_text(ch: char) -> (r: Option<char>)
    ensures
        r == text_of(ch),
{
    if ch == '\u{7f}' || ch == '\u{1b}' || ch == '\u{8}' || ch == '\r' || ch == '\n' || ch == '\t' {
        None
    } else {
        Some(ch)
    }
}

/// Maps a native touch phase to the normalized one.
pub fn map_touch(phase: TouchPhase) -> (r: Touch)
    ensures
        r == touch_of(phase),
{
    match phase {
        TouchPhase::Started => Touch::Start,
        TouchPhase::Moved => Touch::Move,
        TouchPhase::Ended => Touch::End,
        TouchPhase::Cancelled => Touch::Cancel,
    }
}

/// Maps a native element state to the normalized one.
pub fn map_state(state: ElementState) -> (r: ButtonState)
    ensures
        r == state_of(state),
{
    match state {
        ElementState::Pressed => ButtonState::Press,
        ElementState::Released => ButtonState::Release,
    }
}

} // verus!
