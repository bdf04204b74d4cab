//! The mathematical model of a window's state, and what translating one raw
//! event and polling the queue do to it.

use vstd::prelude::*;
use crate::event::{
    Button, ButtonArgs, Delta, ElementState, Event, FileDrag, Frame, Input, Motion, Position,
    RawEvent, ResizeArgs, Scroll, Size, TouchArgs, signed32, signed64, state_of, text_of,
    touch_of,
};
use crate::keys::{Key, key_of};
use crate::mouse::button_of;

verus! {

/// The state of a window as the contracts see it.
pub struct WindowState {
    pub title: Seq<char>,
    pub exit_on_esc: bool,
    pub should_close: bool,
    pub automatic_close: bool,
    /// Whether pointer capture is faked at the moment.
    pub is_capturing_cursor: bool,
    /// The last cursor position seen, if any.
    pub last_cursor_pos: Option<Position>,
    /// A relative motion that the next poll hands out.
    pub mouse_relative: Option<Delta>,
    /// A cursor position that the next poll hands out.
    pub cursor_pos: Option<Position>,
    /// A request to move the native cursor that is not answered yet.
    pub recenter: Option<Position>,
    /// The raw events not yet translated, oldest first.
    pub events: Seq<RawEvent>,
}

/// The state of a window that was just made from its settings.
pub open spec fn initial(title: Seq<char>, exit_on_esc: bool, automatic_close: bool) -> WindowState {
    WindowState {
        title,
        exit_on_esc,
        should_close: false,
        automatic_close,
        is_capturing_cursor: false,
        last_cursor_pos: None,
        mouse_relative: None,
        cursor_pos: None,
        recenter: None,
        events: Seq::empty(),
    }
}

/// The middle of a window of the given size.
pub open spec fn center(size: Size) -> Position {
    Position { x: (size.width / 2) as i32, y: (size.height / 2) as i32 }
}

/// The difference `to - from`.
pub open spec fn delta(from: Position, to: Position) -> Delta {
    Delta { dx: (to.x - from.x) as i64, dy: (to.y - from.y) as i64 }
}

/// The re-centering step: where a cursor position is known and is not the
/// middle of the window, ask for the native cursor to be moved there.
pub open spec fn recentered(st: WindowState, size: Size) -> WindowState {
    match st.last_cursor_pos {
        Some(pos) => if pos != center(size) {
            WindowState { recenter: Some(center(size)), ..st }
        } else {
            st
        },
        None => st,
    }
}

/// The state after the native backend answered a request to move the
/// cursor: the request is gone, and where the cursor was moved the position
/// asked for is the last one known.
pub open spec fn recenter_answered(st: WindowState, moved: bool) -> WindowState {
    match st.recenter {
        Some(pos) => WindowState {
            recenter: None,
            last_cursor_pos: if moved {
                Some(pos)
            } else {
                st.last_cursor_pos
            },
            ..st
        },
        None => st,
    }
}

/// The state after capture was switched on or off.
pub open spec fn capture_set(st: WindowState, value: bool, size: Size) -> WindowState {
    let switched = WindowState { is_capturing_cursor: value, ..st };
    if value {
        recentered(switched, size)
    } else {
        switched
    }
}

/// Whether a raw event is of a kind that is translated. A keyboard event
/// without a virtual key code is not.
pub open spec fn recognized(ev: RawEvent) -> bool {
    match ev {
        RawEvent::Unrecognized => false,
        RawEvent::KeyboardInput { virtual_keycode: None, .. } => false,
        _ => true,
    }
}

/// Whether a moved cursor is reported as relative motion: capture is on and
/// an earlier position is known.
pub open spec fn reports_relative(st: WindowState) -> bool {
    st.is_capturing_cursor && st.last_cursor_pos is Some
}

/// The input event that a raw event is translated to in a given state.
pub open spec fn translated(st: WindowState, ev: RawEvent, frame: Frame) -> Option<Input> {
    match ev {
        RawEvent::Resized { width, height } => Some(
            Input::Resize(
                ResizeArgs { window_size: Size { width, height }, draw_size: frame.draw_size },
            ),
        ),
        RawEvent::ReceivedCharacter(ch) => Some(Input::Text(text_of(ch))),
        RawEvent::Focused(focused) => Some(Input::Focus(focused)),
        RawEvent::KeyboardInput { state, virtual_keycode: Some(key), scancode } => Some(
            Input::Button(
                ButtonArgs {
                    state: state_of(state),
                    button: Button::Keyboard(key_of(key)),
                    scancode: Some(signed32(scancode)),
                },
            ),
        ),
        RawEvent::KeyboardInput { virtual_keycode: None, .. } => None,
        RawEvent::Touch { phase, x, y, id } => Some(
            Input::Move(
                Motion::Touch(
                    TouchArgs {
                        device: 0,
                        id: signed64(id),
                        position: Position { x, y },
                        touch: touch_of(phase),
                    },
                ),
            ),
        ),
        RawEvent::CursorMoved { x, y } => if reports_relative(st) {
            Some(Input::Move(Motion::MouseRelative(delta(st.last_cursor_pos->0, Position { x, y }))))
        } else {
            Some(Input::Move(Motion::MouseCursor(Position { x, y })))
        },
        RawEvent::CursorEntered => Some(Input::Cursor(true)),
        RawEvent::CursorLeft => Some(Input::Cursor(false)),
        RawEvent::MouseWheelPixels { dx, dy } => Some(
            Input::Move(Motion::MouseScroll(Scroll { dx, dy })),
        ),
        RawEvent::MouseWheelLines { dx, dy } => Some(
            Input::Move(Motion::MouseScroll(Scroll { dx, dy })),
        ),
        RawEvent::MouseInput { state, button } => Some(
            Input::Button(
                ButtonArgs {
                    state: state_of(state),
                    button: Button::Mouse(button_of(button)),
                    scancode: None,
                },
            ),
        ),
        RawEvent::HoveredFile(path) => Some(Input::FileDrag(FileDrag::Hover(path))),
        RawEvent::DroppedFile(path) => Some(Input::FileDrag(FileDrag::Drop(path))),
        RawEvent::HoveredFileCancelled => Some(Input::FileDrag(FileDrag::Cancel)),
        RawEvent::CloseRequested => Some(Input::Close),
        RawEvent::Unrecognized => None,
    }
}

/// The state after a raw event was translated. Only three kinds of event
/// touch it: a press of Escape, a moved cursor and a request to close.
pub open spec fn after_translation(st: WindowState, ev: RawEvent, frame: Frame) -> WindowState {
    match ev {
        RawEvent::KeyboardInput {
            state: ElementState::Pressed,
            virtual_keycode: Some(key),
            ..
        } => if st.exit_on_esc && key_of(key) == Key::Escape {
            WindowState { should_close: true, ..st }
        } else {
            st
        },
        RawEvent::CursorMoved { x, y } => {
            let moved = WindowState { last_cursor_pos: Some(Position { x, y }), ..st };
            if reports_relative(st) {
                recentered(moved, frame.size)
            } else {
                moved
            }
        },
        RawEvent::CloseRequested => if st.automatic_close {
            WindowState { should_close: true, ..st }
        } else {
            st
        },
        _ => st,
    }
}

/// The state with the oldest raw event taken off the queue.
pub open spec fn popped(st: WindowState) -> WindowState {
    WindowState { events: st.events.subrange(1, st.events.len() as int), ..st }
}

/// Whether the oldest raw event only tells a capturing window where the
/// cursor is: capture is on, no position is known, and the cursor moved.
pub open spec fn front_is_sample(st: WindowState) -> bool {
    st.events.len() > 0 && st.is_capturing_cursor && st.last_cursor_pos is None
        && st.events[0] is CursorMoved
}

/// The state after such a sample was taken in: the event is gone and its
/// position is the last one known.
pub open spec fn sampled(st: WindowState) -> WindowState {
    WindowState {
        last_cursor_pos: Some(
            Position { x: st.events[0]->CursorMoved_x, y: st.events[0]->CursorMoved_y },
        ),
        ..popped(st)
    }
}

/// Draining the raw queue: events are taken oldest first until one gives an
/// input event or none is left. A sample for a capturing window is taken in
/// without a translation, and the event behind it is translated whatever it
/// is. An event that gives nothing is passed over.
pub open spec fn drained(st: WindowState, frame: Frame) -> (WindowState, Option<Input>)
    decreases st.events.len(),
{
    if st.events.len() == 0 {
        (st, None)
    } else {
        let ready = if front_is_sample(st) {
            sampled(st)
        } else {
            st
        };
        if ready.events.len() == 0 {
            (ready, None)
        } else {
            let ev = ready.events[0];
            let out = translated(popped(ready), ev, frame);
            let next = after_translation(popped(ready), ev, frame);
            if out is Some {
                (next, out)
            } else {
                drained(next, frame)
            }
        }
    }
}

/// What is handed out before the raw queue is looked at: a pending cursor
/// position first, then a pending relative motion.
pub open spec fn pre_popped(st: WindowState) -> (WindowState, Option<Input>) {
    if st.cursor_pos is Some {
        (
            WindowState { cursor_pos: None, ..st },
            Some(Input::Move(Motion::MouseCursor(st.cursor_pos->0))),
        )
    } else if st.mouse_relative is Some {
        (
            WindowState { mouse_relative: None, ..st },
            Some(Input::Move(Motion::MouseRelative(st.mouse_relative->0))),
        )
    } else {
        (st, None)
    }
}

/// One poll: a pending event if there is one, else the first input event
/// that draining the raw queue gives.
pub open spec fn polled(st: WindowState, frame: Frame) -> (WindowState, Option<Input>) {
    if pre_popped(st).1 is Some {
        pre_popped(st)
    } else {
        drained(st, frame)
    }
}

/// An input event as a poll hands it out: with no time stamp.
pub open spec fn stamped(input: Option<Input>) -> Option<Event> {
    match input {
        Some(i) => Some(Event::Input(i, None)),
        None => None,
    }
}

} // verus!
