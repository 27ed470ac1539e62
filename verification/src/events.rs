//! The unified event stream. A background producer multiplexes keyboard
//! input, pointer input and periodic ticks onto one channel; this module
//! defines the event type that channel carries, the reduced input-source
//! events the producer reads, and the producer's per-input decision: which
//! event to forward and how a rate-adjustment key changes its local tick
//! interval.

use vstd::prelude::*;

use crate::clock;
use crate::geometry::{Point, Rect};

verus! {

/// A key press, reduced to what the state machines distinguish.
#[derive(Clone, Copy, Debug, PartialEq, Eq, Structural)]
pub enum Key {
    Enter,
    Char(char),
    Other,
}

/// Which pointer button went down.
#[derive(Clone, Copy, Debug, PartialEq, Eq, Structural)]
pub enum ClickType {
    Left,
    Right,
}

/// One event on the producer-to-consumer channel. Events are consumed in
/// exactly the order the single-threaded producer emitted them.
#[derive(Clone, Copy, Debug, PartialEq, Eq, Structural)]
pub enum GameEvent {
    /// A key press that is not a rate adjustment.
    KeyInput(Key),
    /// A pointer button pressed at an absolute screen position.
    Click(ClickType, Point),
    /// The tick deadline passed: advance one generation if running.
    Tick,
    /// The producer changed its tick interval; carries the new value in
    /// milliseconds so the consumer's displayed rate stays in sync.
    TickSet(u64),
    /// The renderer reported a drawing area that differs from the cached
    /// viewport.
    Resize(Rect),
}

/// What the producer read from the input source, reduced to plain values.
#[derive(Clone, Copy, Debug, PartialEq, Eq, Structural)]
pub enum InputEvent {
    Key(Key),
    MouseDown(ClickType, Point),
    Other,
}

/// The producer's decision on one input-source event: `'+'` and `'-'`
/// adjust the producer's local tick interval (clamped below) and forward the
/// new value as a [`GameEvent::TickSet`]; every other key is forwarded as
/// [`GameEvent::KeyInput`]; a button press is forwarded as a
/// [`GameEvent::Click`] at its screen position; anything else is dropped.
pub open spec fn producer_step_ok(
    interval_ms: u64,
    input: InputEvent,
    new_interval_ms: u64,
    forwarded: Option<GameEvent>,
) -> bool {
    match input {
        InputEvent::Key(k) => {
            if k == Key::Char('+') {
                &&& new_interval_ms == clock::spec_increase_tick(interval_ms)
                &&& forwarded == Some(GameEvent::TickSet(new_interval_ms))
            } else if k == Key::Char('-') {
                &&& new_interval_ms == clock::spec_decrease_tick(interval_ms)
                &&& forwarded == Some(GameEvent::TickSet(new_interval_ms))
            } else {
                &&& new_interval_ms == interval_ms
                &&& forwarded == Some(GameEvent::KeyInput(k))
            }
        },
        InputEvent::MouseDown(button, position) => {
            &&& new_interval_ms == interval_ms
            &&& forwarded == Some(GameEvent::Click(button, position))
        },
        InputEvent::Other => {
            &&& new_interval_ms == interval_ms
            &&& forwarded is None
        },
    }
}

/// Apply the producer's decision to one input-source event: returns the
/// producer's new tick interval and the event to forward, if any.
pub fn producer_handle_input(interval_ms: u64, input: InputEvent) -> (r: (u64, Option<GameEvent>))
    ensures
        producer_step_ok(interval_ms, input, r.0, r.1),
{
    match input {
        InputEvent::Key(k) => match k {
            Key::Char(ch) => {
                if ch == '+' {
                    let next = clock::increase_tick(interval_ms);
                    (next, Some(GameEvent::TickSet(next)))
                } else if ch == '-' {
                    let next = clock::decrease_tick(interval_ms);
                    (next, Some(GameEvent::TickSet(next)))
                } else {
                    (interval_ms, Some(GameEvent::KeyInput(k)))
                }
            },
            _ => (interval_ms, Some(GameEvent::KeyInput(k))),
        },
        InputEvent::MouseDown(button, position) => (
            interval_ms,
            Some(GameEvent::Click(button, position)),
        ),
        InputEvent::Other => (interval_ms, None),
    }
}

} // verus!
