//! Input events as the frame driver sees them.
//!
//! The event source delivers a queue of pending events once per loop
//! iteration. The driver reacts to three of them: a quit signal, the Escape
//! key, and the key that toggles fullscreen (the "9" key). Everything else is
//! ignored.

use vstd::prelude::*;

verus! {

/// A key the frame driver distinguishes. Every key it does not react to is
/// mapped to `Other` by the caller.
#[derive(Clone, Copy, Debug, PartialEq, Eq, Structural)]
pub enum Key {
    /// Ends the loop.
    Escape,
    /// Toggles fullscreen.
    Num9,
    /// Any key the driver ignores.
    Other,
}

/// A pending input event.
#[derive(Clone, Copy, Debug, PartialEq, Eq, Structural)]
pub enum Event {
    /// The window manager asked the program to quit.
    Quit,
    /// A key was pressed.
    KeyDown(Key),
    /// Any event the driver ignores.
    Other,
}

/// An event that ends the loop: a quit signal or an Escape key press.
pub open spec fn is_stop_event(e: Event) -> bool {
    e == Event::Quit || e == Event::KeyDown(Key::Escape)
}

/// Whether some pending event ends the loop.
pub open spec fn has_stop_event(events: Seq<Event>) -> bool {
    exists|i: int| 0 <= i < events.len() && is_stop_event(events[i])
}

/// How many fullscreen-toggle presses a queue of events holds.
pub open spec fn toggle_count(events: Seq<Event>) -> nat
    decreases events.len(),
{
    if events.len() == 0 {
        0
    } else {
        toggle_count(events.drop_last())
            + if events.last() == Event::KeyDown(Key::Num9) { 1nat } else { 0nat }
    }
}

} // verus!
