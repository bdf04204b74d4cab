//! The window's state machine: raw events go in, input events come out, and
//! the bookkeeping of faked pointer capture is kept in between.
//!
//! The window owns no native handle. Where the state machine wants the
//! native cursor moved, it leaves a request that the embedding program
//! reads with `recenter_request`, carries out, and answers with
//! `finish_recenter` before it polls again.

use std::collections::VecDeque;
use vstd::prelude::*;
use crate::event::{
    Button, ButtonArgs, Delta, ElementState, Event, FileDrag, Frame, Input, Motion, Position,
    RawEvent, ResizeArgs, Scroll, Size, TouchArgs, WindowSettings, character_text, map_state,
    map_touch, scancode_to_i32, touch_id_to_i64,
};
use crate::keys::{Key, map_key};
use crate::model::{
    WindowState, after_translation, capture_set, drained, initial, polled, pre_popped,
    recenter_answered, recentered, recognized, stamped, translated,
};
use crate::mouse::map_mouse;

verus! {

/// A window's title, flags, cursor bookkeeping and queue of raw events.
pub struct WinitWindow {
    title: String,
    exit_on_esc: bool,
    should_close: bool,
    automatic_close: bool,
    queued: VecDeque<RawEvent>,
    // Capture is faked: the cursor is hidden and moved back to the middle.
    is_capturing_cursor: bool,
    last_cursor_pos: Option<Position>,
    mouse_relative: Option<Delta>,
    cursor_pos: Option<Position>,
    recenter: Option<Position>,
}

impl View for WinitWindow {
    type V = WindowState;

    closed spec fn view(&self) -> WindowState {
        WindowState {
            title: self.title@,
            exit_on_esc: self.exit_on_esc,
            should_close: self.should_close,
            automatic_close: self.automatic_close,
            is_capturing_cursor: self.is_capturing_cursor,
            last_cursor_pos: self.last_cursor_pos,
            mouse_relative: self.mouse_relative,
            cursor_pos: self.cursor_pos,
            recenter: self.recenter,
            events: self.queued@,
        }
    }
}

impl WinitWindow {
    /// A window in its initial state: not closing, not capturing, no cursor
    /// position known, nothing pending and nothing queued.
    pub fn new(settings: &WindowSettings) -> (window: WinitWindow)
        ensures
            window@ == initial(settings.title@, settings.exit_on_esc, settings.automatic_close),
    {
        WinitWindow {
            title: settings.title.clone(),
            exit_on_esc: settings.exit_on_esc,
            should_close: false,
            automatic_close: settings.automatic_close,
            queued: VecDeque::new(),
            is_capturing_cursor: false,
            last_cursor_pos: None,
            mouse_relative: None,
            cursor_pos: None,
            recenter: None,
        }
    }

    /// Appends a raw event to the queue, behind all that wait there.
    pub fn push_event(&mut self, ev: RawEvent)
        ensures
            final(self)@ == (WindowState { events: old(self)@.events.push(ev), ..old(self)@ }),
    {
        self.queued.push_back(ev);
    }

    /// The number of raw events that wait in the queue.
    pub fn pending_events(&self) -> (n: usize)
        ensures
            n == self@.events.len(),
    {
        self.queued.len()
    }

    /// Translates one raw event to an input event and updates the cursor
    /// state and the close flag. An event of a kind that is not translated
    /// gives nothing and sets `unknown`; any other leaves `unknown` as it is.
    pub fn handle_event(&mut self, ev: &RawEvent, frame: Frame, unknown: &mut bool) -> (res: Option<
        Input,
    >)
        ensures
            res == translated(old(self)@, *ev, frame),
            final(self)@ == after_translation(old(self)@, *ev, frame),
            res is None <==> !recognized(*ev),
            *final(unknown) == (*old(unknown) || !recognized(*ev)),
            final(self)@.events == old(self)@.events,
            final(self)@.mouse_relative == old(self)@.mouse_relative,
            final(self)@.cursor_pos == old(self)@.cursor_pos,
    {
        match ev {
            RawEvent::Resized { width, height } => Some(
                Input::Resize(
                    ResizeArgs {
                        window_size: Size { width: *width, height: *height },
                        draw_size: frame.draw_size,
                    },
                ),
            ),
            RawEvent::ReceivedCharacter(ch) => Some(Input::Text(character_text(*ch))),
            RawEvent::Focused(focused) => Some(Input::Focus(*focused)),
            RawEvent::KeyboardInput { state, virtual_keycode: Some(key), scancode } => {
                let mapped = map_key(*key);
                match state {
                    ElementState::Pressed => {
                        if self.exit_on_esc && mapped == Key::Escape {
                            self.should_close = true;
                        }
                    },
                    ElementState::Released => {},
                }
                Some(
                    Input::Button(
                        ButtonArgs {
                            state: map_state(*state),
                            button: Button::Keyboard(mapped),
                            scancode: Some(scancode_to_i32(*scancode)),
                        },
                    ),
                )
            },
            RawEvent::Touch { phase, x, y, id } => Some(
                Input::Move(
                    Motion::Touch(
                        TouchArgs {
                            device: 0,
                            id: touch_id_to_i64(*id),
                            position: Position { x: *x, y: *y },
                            touch: map_touch(*phase),
                        },
                    ),
                ),
            ),
            RawEvent::CursorMoved { x, y } => {
                let now = Position { x: *x, y: *y };
                if let Some(prev) = self.last_cursor_pos {
                    if self.is_capturing_cursor {
                        let dx: i64 = *x as i64 - prev.x as i64;
                        let dy: i64 = *y as i64 - prev.y as i64;
                        self.last_cursor_pos = Some(now);
                        self.fake_capture(frame.size);
                        // No absolute position while capturing.
                        return Some(Input::Move(Motion::MouseRelative(Delta { dx, dy })));
                    }
                }
                self.last_cursor_pos = Some(now);
                Some(Input::Move(Motion::MouseCursor(now)))
            },
            RawEvent::CursorEntered => Some(Input::Cursor(true)),
            RawEvent::CursorLeft => Some(Input::Cursor(false)),
            RawEvent::MouseWheelPixels { dx, dy } => Some(
                Input::Move(Motion::MouseScroll(Scroll { dx: *dx, dy: *dy })),
            ),
            RawEvent::MouseWheelLines { dx, dy } => Some(
                Input::Move(Motion::MouseScroll(Scroll { dx: *dx, dy: *dy })),
            ),
            RawEvent::MouseInput { state, button } => Some(
                Input::Button(
                    ButtonArgs {
                        state: map_state(*state),
                        button: Button::Mouse(map_mouse(*button)),
                        scancode: None,
                    },
                ),
            ),
            RawEvent::HoveredFile(path) => Some(Input::FileDrag(FileDrag::Hover(path.clone()))),
            RawEvent::DroppedFile(path) => Some(Input::FileDrag(FileDrag::Drop(path.clone()))),
            RawEvent::HoveredFileCancelled => Some(Input::FileDrag(FileDrag::Cancel)),
            RawEvent::CloseRequested => {
                if self.automatic_close {
                    self.should_close = true;
                }
                Some(Input::Close)
            },
            _ => {
                *unknown = true;
                None
            },
        }
    }

    /// Hands out what is pending: a cursor position first, then a relative
    /// motion. What is handed out is pending no longer.
    pub fn pre_pop_front_event(&mut self) -> (res: Option<Input>)
        ensures
            (final(self)@, res) == pre_popped(old(self)@),
    {
        if let Some(pos) = self.cursor_pos {
            self.cursor_pos = None;
            return Some(Input::Move(Motion::MouseCursor(pos)));
        }
        if let Some(d) = self.mouse_relative {
            self.mouse_relative = None;
            return Some(Input::Move(Motion::MouseRelative(d)));
        }
        None
    }

    /// The re-centering step of faked capture: where a cursor position is
    /// known and is not the middle of the window, leaves a request to move
    /// the native cursor there.
    pub fn fake_capture(&mut self, size: Size)
        ensures
            final(self)@ == recentered(old(self)@, size),
    {
        if let Some(pos) = self.last_cursor_pos {
            let cx: i32 = (size.width / 2) as i32;
            let cy: i32 = (size.height / 2) as i32;
            if pos.x != cx || pos.y != cy {
                self.recenter = Some(Position { x: cx, y: cy });
            }
        }
    }

    /// The position that the native cursor is to be moved to, if a request
    /// waits for its answer.
    pub fn recenter_request(&self) -> (res: Option<Position>)
        ensures
            res == self@.recenter,
    {
        self.recenter
    }

    /// Takes the backend's answer to the request: it is gone either way, and
    /// where the cursor was moved, the position asked for is the last one
    /// known. A failure changes nothing else.
    pub fn finish_recenter(&mut self, moved: bool)
        ensures
            final(self)@ == recenter_answered(old(self)@, moved),
    {
        if let Some(pos) = self.recenter {
            self.recenter = None;
            if moved {
                self.last_cursor_pos = Some(pos);
            }
        }
    }

    /// One poll. A pending event is handed out first. Else raw events are
    /// taken from the queue, oldest first, until one gives an input event,
    /// which is returned without a time stamp, or the queue is empty.
    pub fn poll_event(&mut self, frame: Frame) -> (res: Option<Event>)
        ensures
            final(self)@ == polled(old(self)@, frame).0,
            res == stamped(polled(old(self)@, frame).1),
            old(self)@.events.len() == 0 && old(self)@.cursor_pos is None && old(
                self,
            )@.mouse_relative is None ==> res is None && final(self)@ == old(self)@,
    {
        let pending = self.pre_pop_front_event();
        if let Some(input) = pending {
            return Some(Event::Input(input, None));
        }
        let ghost start = self@;
        loop
            invariant
                polled(old(self)@, frame) == drained(start, frame),
                drained(self@, frame) == drained(start, frame),
            decreases self@.events.len(),
        {
            if self.queued.len() == 0 {
                return None;
            }
            let mut ev = self.queued.pop_front().unwrap();
            if self.is_capturing_cursor && self.last_cursor_pos.is_none() {
                if let RawEvent::CursorMoved { x, y } = ev {
                    // Positions are not handed out while capturing: this one
                    // only tells where the cursor is.
                    self.last_cursor_pos = Some(Position { x, y });
                    if self.queued.len() == 0 {
                        return None;
                    }
                    ev = self.queued.pop_front().unwrap();
                }
            }
            let mut unknown = false;
            let out = self.handle_event(&ev, frame, &mut unknown);
            if let Some(input) = out {
                return Some(Event::Input(input, None));
            }
        }
    }

    /// Polls where the caller knows that an event will come.
    pub fn wait_event(&mut self, frame: Frame) -> (res: Event)
        requires
            polled(old(self)@, frame).1 is Some,
        ensures
            final(self)@ == polled(old(self)@, frame).0,
            Some(res) == stamped(polled(old(self)@, frame).1),
    {
        self.poll_event(frame).unwrap()
    }

    /// A single poll: the time allowed is not looked at.
    pub fn wait_event_timeout(&mut self, frame: Frame, timeout_millis: u64) -> (res: Option<Event>)
        ensures
            final(self)@ == polled(old(self)@, frame).0,
            res == stamped(polled(old(self)@, frame).1),
    {
        self.poll_event(frame)
    }

    /// Sets the close flag.
    pub fn set_should_close(&mut self, value: bool)
        ensures
            final(self)@ == (WindowState { should_close: value, ..old(self)@ }),
    {
        self.should_close = value;
    }

    /// Whether the window is to close.
    pub fn should_close(&self) -> (res: bool)
        ensures
            res == self@.should_close,
    {
        self.should_close
    }

    /// The title.
    pub fn get_title(&self) -> (res: String)
        ensures
            res@ == self@.title,
    {
        self.title.clone()
    }

    /// Sets the title.
    pub fn set_title(&mut self, value: String)
        ensures
            final(self)@ == (WindowState { title: value@, ..old(self)@ }),
    {
        self.title = value;
    }

    /// Whether a press of Escape closes the window.
    pub fn get_exit_on_esc(&self) -> (res: bool)
        ensures
            res == self@.exit_on_esc,
    {
        self.exit_on_esc
    }

    /// Sets whether a press of Escape closes the window.
    pub fn set_exit_on_esc(&mut self, value: bool)
        ensures
            final(self)@ == (WindowState { exit_on_esc: value, ..old(self)@ }),
    {
        self.exit_on_esc = value;
    }

    /// Switches faked capture on or off. Switched on, it re-centers at once
    /// if a cursor position is known. The native cursor is to be hidden
    /// exactly while capture is on.
    pub fn set_capture_cursor(&mut self, value: bool, size: Size)
        ensures
            final(self)@ == capture_set(old(self)@, value, size),
    {
        self.is_capturing_cursor = value;
        if value {
            self.fake_capture(size);
        }
    }

    /// Whether capture is on.
    pub fn is_capturing_cursor(&self) -> (res: bool)
        ensures
            res == self@.is_capturing_cursor,
    {
        self.is_capturing_cursor
    }

    /// The last cursor position seen, if any.
    pub fn last_cursor_pos(&self) -> (res: Option<Position>)
        ensures
            res == self@.last_cursor_pos,
    {
        self.last_cursor_pos
    }

    /// Always `false`: the setting is kept for close requests, but it is not
    /// reported.
    pub fn get_automatic_close(&self) -> (res: bool)
        ensures
            !res,
    {
        false
    }

    /// Changes nothing.
    pub fn set_automatic_close(&mut self, value: bool)
        ensures
            final(self)@ == old(self)@,
    {
    }
}

} // verus!
