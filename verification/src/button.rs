//! Debouncing of the push button: a press is classified by how long the
//! contact stayed closed.

use vstd::prelude::*;
use crate::event::InputEvent;

verus! {

/// Presses shorter than this many milliseconds are contact bounce.
pub const DEBOUNCE_MS: u128 = 50;

/// Presses of at least this many milliseconds are long presses.
pub const LONG_PRESS_MS: u128 = 600;

/// The event that a press of `duration_ms` milliseconds stands for, if any.
pub open spec fn press_event(duration_ms: u128) -> Option<InputEvent> {
    if duration_ms < DEBOUNCE_MS {
        None
    } else if duration_ms < LONG_PRESS_MS {
        Some(InputEvent::ShortPress)
    } else {
        Some(InputEvent::LongPress)
    }
}

/// Classifies one press-release cycle by the time between the falling and
/// the rising edge. At most one event comes out of a cycle.
pub fn classify_press(duration_ms: u128) -> (event: Option<InputEvent>)
    ensures
        event == press_event(duration_ms),
        duration_ms < 50 ==> event.is_none(),
        50 <= duration_ms < 600 ==> event == Some(InputEvent::ShortPress),
        600 <= duration_ms ==> event == Some(InputEvent::LongPress),
{
    if duration_ms < DEBOUNCE_MS {
        None
    } else if duration_ms < LONG_PRESS_MS {
        Some(InputEvent::ShortPress)
    } else {
        Some(InputEvent::LongPress)
    }
}

} // verus!
