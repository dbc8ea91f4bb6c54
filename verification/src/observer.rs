//! The global input observer's decision: which observed input events become
//! control messages. The surrounding program subscribes to the system-wide
//! event stream and calls in here once per event.

use vstd::prelude::*;
use crate::control::ControlMessage;
use crate::control::Key;

verus! {

/// One system-wide input event, as the boundary reports it: a key transition
/// or anything else (pointer motion, clicks, ...).
#[derive(Clone, Copy, PartialEq, Eq, Structural, Debug)]
pub enum InputEvent {
    KeyPressed(Key),
    KeyReleased(Key),
    Other,
}

/// The observer forwards every key press as `KeyObserved` and discards
/// everything else; it never filters, throttles or deduplicates key presses.
pub fn observer_message(ev: &InputEvent) -> (m: Option<ControlMessage>)
    ensures
        match *ev {
            InputEvent::KeyPressed(k) => m == Some(ControlMessage::KeyObserved(k)),
            _ => m is None,
        },
{
    match ev {
        InputEvent::KeyPressed(k) => Some(ControlMessage::KeyObserved(*k)),
        _ => None,
    }
}

} // verus!
