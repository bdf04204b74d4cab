//! Event translation and cursor-capture bookkeeping for a desktop window.
//!
//! The crate turns the raw events of a native windowing backend into a small
//! normalized vocabulary of input events, and keeps the state that faked
//! pointer capture needs. It owns no native window: the embedding program
//! feeds raw events in, performs the few native requests the state machine
//! asks for, and reports how they went.

pub mod event;
pub mod keys;
pub mod laws;
pub mod model;
pub mod mouse;
pub mod window;

pub use event::{
    Button, ButtonArgs, ButtonState, Delta, ElementState, Event, FileDrag, Frame, Input, Motion,
    Position, RawEvent, ResizeArgs, Scroll, Size, Touch, TouchArgs, TouchPhase, WindowSettings,
};
pub use keys::{map_key, Key, VirtualKeyCode};
pub use mouse::{map_mouse, MouseButton, WinitMouseButton};
pub use window::WinitWindow;
