//! What holds of translating and polling in every state.

use vstd::prelude::*;
use crate::event::{Delta, ElementState, Frame, Input, Motion, Position, RawEvent};
use crate::keys::VirtualKeyCode;
use crate::model::{
    WindowState, after_translation, drained, front_is_sample, polled, popped, recognized,
    sampled, translated,
};

verus! {

/// Whether nothing is pending: a poll then goes to the raw queue at once.
pub open spec fn nothing_pending(st: WindowState) -> bool {
    st.cursor_pos is None && st.mouse_relative is None
}

/// Whether a raw event is a press of the Escape key.
pub open spec fn is_escape_press(ev: RawEvent) -> bool {
    ev matches RawEvent::KeyboardInput {
        state: ElementState::Pressed,
        virtual_keycode: Some(VirtualKeyCode::Escape),
        ..
    }
}

/// A raw event gives an input event exactly if it is of a recognized kind,
/// and one that gives none leaves the state as it was.
pub proof fn lemma_translation_is_total(st: WindowState, ev: RawEvent, frame: Frame)
    ensures
        translated(st, ev, frame) is Some <==> recognized(ev),
        !recognized(ev) ==> after_translation(st, ev, frame) == st,
{
}

/// Translating never touches the queue, the flags set by the caller, the
/// title or what is pending.
pub proof fn lemma_translation_keeps_rest(st: WindowState, ev: RawEvent, frame: Frame)
    ensures
        after_translation(st, ev, frame).events == st.events,
        after_translation(st, ev, frame).mouse_relative == st.mouse_relative,
        after_translation(st, ev, frame).cursor_pos == st.cursor_pos,
        after_translation(st, ev, frame).is_capturing_cursor == st.is_capturing_cursor,
        after_translation(st, ev, frame).exit_on_esc == st.exit_on_esc,
        after_translation(st, ev, frame).automatic_close == st.automatic_close,
        after_translation(st, ev, frame).title == st.title,
{
}

/// The close flag is set by a translation exactly where the event asks to
/// close and the window closes by itself, or the event is a press of Escape
/// and Escape closes the window. It is never cleared.
pub proof fn lemma_close_flag(st: WindowState, ev: RawEvent, frame: Frame)
    ensures
        after_translation(st, ev, frame).should_close == (st.should_close || (ev is CloseRequested
            && st.automatic_close) || (is_escape_press(ev) && st.exit_on_esc)),
{
}

/// While capture is off, a moved cursor gives its position as it came, and
/// that position is the last one known afterwards.
pub proof fn lemma_cursor_moved_uncaptured(st: WindowState, x: i32, y: i32, frame: Frame)
    requires
        !st.is_capturing_cursor,
    ensures
        translated(st, RawEvent::CursorMoved { x, y }, frame) == Some(
            Input::Move(Motion::MouseCursor(Position { x, y })),
        ),
        after_translation(st, RawEvent::CursorMoved { x, y }, frame) == (WindowState {
            last_cursor_pos: Some(Position { x, y }),
            ..st
        }),
{
}

/// While capture is on and an earlier position is known, a moved cursor
/// gives the difference to that position, and no absolute position.
pub proof fn lemma_cursor_moved_captured(
    st: WindowState,
    prev: Position,
    x: i32,
    y: i32,
    frame: Frame,
)
    requires
        st.is_capturing_cursor,
        st.last_cursor_pos == Some(prev),
    ensures
        translated(st, RawEvent::CursorMoved { x, y }, frame) == Some(
            Input::Move(Motion::MouseRelative(Delta { dx: (x - prev.x) as i64, dy: (y - prev.y) as i64 })),
        ),
        !(translated(st, RawEvent::CursorMoved { x, y }, frame) matches Some(
            Input::Move(Motion::MouseCursor(_)),
        )),
        x - prev.x == ((x - prev.x) as i64) as int,
        y - prev.y == ((y - prev.y) as i64) as int,
{
}

/// With nothing pending and nothing queued, a poll gives nothing and leaves
/// the state as it was, so every later poll does the same.
pub proof fn lemma_poll_empty_is_idle(st: WindowState, frame: Frame)
    requires
        st.events.len() == 0,
        nothing_pending(st),
    ensures
        polled(st, frame) == (st, None::<Input>),
        polled(polled(st, frame).0, frame) == (st, None::<Input>),
{
}

/// With nothing queued, a poll never touches the cursor state, whatever is
/// pending.
pub proof fn lemma_poll_empty_keeps_cursor(st: WindowState, frame: Frame)
    requires
        st.events.len() == 0,
    ensures
        polled(st, frame).0.is_capturing_cursor == st.is_capturing_cursor,
        polled(st, frame).0.last_cursor_pos == st.last_cursor_pos,
        polled(st, frame).0.recenter == st.recenter,
        polled(st, frame).0.events == st.events,
{
}

/// With nothing pending, a poll whose oldest raw event is recognized, and
/// is not a sample for a capturing window, gives the translation of that
/// event and takes that event only.
pub proof fn lemma_poll_translates_front(st: WindowState, frame: Frame)
    requires
        nothing_pending(st),
        st.events.len() > 0,
        !front_is_sample(st),
        recognized(st.events[0]),
    ensures
        polled(st, frame).1 == translated(popped(st), st.events[0], frame),
        polled(st, frame).0 == after_translation(popped(st), st.events[0], frame),
        polled(st, frame).0.events == st.events.subrange(1, st.events.len() as int),
{
}

/// With nothing pending, a poll passes over an oldest raw event that is not
/// recognized: it does what it would do without that event.
pub proof fn lemma_poll_skips_unrecognized(st: WindowState, frame: Frame)
    requires
        nothing_pending(st),
        st.events.len() > 0,
        !front_is_sample(st),
        !recognized(st.events[0]),
    ensures
        polled(st, frame) == polled(popped(st), frame),
{
    lemma_translation_is_total(popped(st), st.events[0], frame);
}

/// A translation reads of the state only whether the window captures and
/// which cursor position it knows.
pub proof fn lemma_translation_reads_cursor_only(
    a: WindowState,
    b: WindowState,
    ev: RawEvent,
    frame: Frame,
)
    requires
        a.is_capturing_cursor == b.is_capturing_cursor,
        a.last_cursor_pos == b.last_cursor_pos,
    ensures
        translated(a, ev, frame) == translated(b, ev, frame),
{
}

/// Whether a poll that starts in `st` may pass over `ev` without handing
/// anything out: the event is not recognized, or it is a moved cursor while
/// the window captures and knows no position.
pub open spec fn passed_over(st: WindowState, ev: RawEvent) -> bool {
    !recognized(ev) || (st.is_capturing_cursor && st.last_cursor_pos is None && ev is CursorMoved)
}

/// Draining translates in queue order. It takes the `k` oldest raw events.
/// All but the last of them are passed over. Where an input event comes
/// out, it is the translation of the last one taken, in a state that
/// differs from the first at most in the cursor position known. Where none
/// comes out, the queue is used up.
#[verifier::spinoff_prover]
#[verifier::rlimit(60)]
pub proof fn lemma_drain_translates_in_order(st: WindowState, frame: Frame) -> (k: int)
    ensures
        0 <= k <= st.events.len(),
        drained(st, frame).0.events == st.events.subrange(k, st.events.len() as int),
        forall|i: int| 0 <= i < k - 1 ==> passed_over(st, #[trigger] st.events[i]),
        drained(st, frame).1 is Some ==> k >= 1 && recognized(st.events[k - 1]) && exists|
            at: Option<Position>,
        |
            drained(st, frame).1 == translated(
                WindowState { last_cursor_pos: at, ..st },
                st.events[k - 1],
                frame,
            ),
        drained(st, frame).1 is None ==> k == st.events.len() && (k >= 1 ==> passed_over(
            st,
            st.events[k - 1],
        )),
        drained(st, frame).0.is_capturing_cursor == st.is_capturing_cursor,
        st.last_cursor_pos is Some ==> drained(st, frame).0.last_cursor_pos is Some,
    decreases st.events.len(),
{
    let n = st.events.len() as int;
    if n == 0 {
        assert(st.events.subrange(0, n) == st.events);
        0
    } else {
        let ready = if front_is_sample(st) {
            sampled(st)
        } else {
            st
        };
        let taken: int = if front_is_sample(st) {
            1
        } else {
            0
        };
        assert(ready.events == st.events.subrange(taken, n));
        if ready.events.len() == 0 {
            taken
        } else {
            let ev = ready.events[0];
            assert(ev == st.events[taken]);
            let out = translated(popped(ready), ev, frame);
            let next = after_translation(popped(ready), ev, frame);
            assert(next.events == st.events.subrange(taken + 1, n));
            if out is Some {
                lemma_translation_reads_cursor_only(
                    popped(ready),
                    WindowState { last_cursor_pos: ready.last_cursor_pos, ..st },
                    ev,
                    frame,
                );
                lemma_translation_is_total(popped(ready), ev, frame);
                taken + 1
            } else {
                lemma_translation_is_total(popped(ready), ev, frame);
                assert(next == popped(ready));
                let j = lemma_drain_translates_in_order(next, frame);
                let k = taken + 1 + j;
                assert(next.events.subrange(j, next.events.len() as int) == st.events.subrange(
                    k,
                    n,
                ));
                assert forall|i: int| 0 <= i < k - 1 implies passed_over(
                    st,
                    #[trigger] st.events[i],
                ) by {
                    if i > taken {
                        assert(next.events[i - taken - 1] == st.events[i]);
                        assert(passed_over(next, next.events[i - taken - 1]));
                    }
                }
                if j >= 1 {
                    assert(next.events[j - 1] == st.events[k - 1]);
                }
                if drained(st, frame).1 is Some {
                    let at = choose|at: Option<Position>|
                        drained(next, frame).1 == translated(
                            WindowState { last_cursor_pos: at, ..next },
                            next.events[j - 1],
                            frame,
                        );
                    lemma_translation_reads_cursor_only(
                        WindowState { last_cursor_pos: at, ..next },
                        WindowState { last_cursor_pos: at, ..st },
                        st.events[k - 1],
                        frame,
                    );
                }
                k
            }
        }
    }
}

/// A poll translates in queue order: with nothing pending it takes the `k`
/// oldest raw events, passes over all but the last of them, and hands out
/// the translation of the last one taken, or uses the queue up.
pub proof fn lemma_poll_translates_in_order(st: WindowState, frame: Frame) -> (k: int)
    requires
        nothing_pending(st),
    ensures
        0 <= k <= st.events.len(),
        polled(st, frame).0.events == st.events.subrange(k, st.events.len() as int),
        forall|i: int| 0 <= i < k - 1 ==> passed_over(st, #[trigger] st.events[i]),
        polled(st, frame).1 is Some ==> k >= 1 && recognized(st.events[k - 1]) && exists|
            at: Option<Position>,
        |
            polled(st, frame).1 == translated(
                WindowState { last_cursor_pos: at, ..st },
                st.events[k - 1],
                frame,
            ),
        polled(st, frame).1 is None ==> k == st.events.len() && (k >= 1 ==> passed_over(
            st,
            st.events[k - 1],
        )),
{
    lemma_drain_translates_in_order(st, frame)
}

/// Draining leaves the title, the settings, the capture flag and what is
/// pending as they were, and never clears the close flag.
pub proof fn lemma_drain_keeps_settings(st: WindowState, frame: Frame)
    ensures
        drained(st, frame).0.title == st.title,
        drained(st, frame).0.exit_on_esc == st.exit_on_esc,
        drained(st, frame).0.automatic_close == st.automatic_close,
        drained(st, frame).0.is_capturing_cursor == st.is_capturing_cursor,
        drained(st, frame).0.mouse_relative == st.mouse_relative,
        drained(st, frame).0.cursor_pos == st.cursor_pos,
        st.should_close ==> drained(st, frame).0.should_close,
    decreases st.events.len(),
{
    if st.events.len() > 0 {
        let ready = if front_is_sample(st) {
            sampled(st)
        } else {
            st
        };
        if ready.events.len() > 0 {
            let ev = ready.events[0];
            lemma_translation_keeps_rest(popped(ready), ev, frame);
            lemma_close_flag(popped(ready), ev, frame);
            if translated(popped(ready), ev, frame) is None {
                lemma_drain_keeps_settings(after_translation(popped(ready), ev, frame), frame);
            }
        }
    }
}

/// A poll arms nothing: what is pending after it was pending before, and at
/// most one of the two pending events is handed out by it.
pub proof fn lemma_poll_arms_nothing(st: WindowState, frame: Frame)
    ensures
        polled(st, frame).0.cursor_pos is Some ==> polled(st, frame).0.cursor_pos == st.cursor_pos,
        polled(st, frame).0.mouse_relative is Some ==> polled(st, frame).0.mouse_relative
            == st.mouse_relative,
        st.cursor_pos is Some && st.mouse_relative is Some ==> polled(st, frame).0.mouse_relative
            == st.mouse_relative,
{
    lemma_drain_keeps_settings(st, frame);
}

/// A poll takes raw events from the front only and never reorders them.
pub proof fn lemma_poll_keeps_order(st: WindowState, frame: Frame) -> (k: int)
    ensures
        0 <= k <= st.events.len(),
        polled(st, frame).0.events == st.events.subrange(k, st.events.len() as int),
{
    if nothing_pending(st) {
        lemma_drain_translates_in_order(st, frame)
    } else {
        assert(st.events.subrange(0, st.events.len() as int) == st.events);
        0
    }
}

/// A poll that meets a request to close at the front of the queue gives
/// `Close`, and the close flag is set by it exactly if the window closes by
/// itself.
pub proof fn lemma_poll_close_request(st: WindowState, frame: Frame)
    requires
        nothing_pending(st),
        st.events.len() > 0,
        st.events[0] == RawEvent::CloseRequested,
    ensures
        polled(st, frame).1 == Some(Input::Close),
        polled(st, frame).0.should_close == (st.should_close || st.automatic_close),
{
}

/// A poll that meets a press of Escape at the front of the queue sets the
/// close flag exactly if Escape closes the window.
pub proof fn lemma_poll_escape_press(st: WindowState, frame: Frame)
    requires
        nothing_pending(st),
        st.events.len() > 0,
        is_escape_press(st.events[0]),
    ensures
        polled(st, frame).1 is Some,
        polled(st, frame).0.should_close == (st.should_close || st.exit_on_esc),
{
}

} // verus!
