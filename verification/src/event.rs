//! The event carried from the edge monitor to the scheduler.

use vstd::prelude::*;

verus! {

/// One confirmed transition of the input line.
#[derive(Clone, Copy, Debug, PartialEq, Eq, Structural)]
pub struct InputEvent {
    /// `true` for pressed, `false` for released.
    pub pressed: bool,
}

impl InputEvent {
    /// The event for a transition to the pressed level.
    pub fn pressed() -> (e: InputEvent)
        ensures
            e.pressed,
    {
        InputEvent { pressed: true }
    }

    /// The event for a transition to the released level.
    pub fn released() -> (e: InputEvent)
        ensures
            !e.pressed,
    {
        InputEvent { pressed: false }
    }

    /// The event that reports `level`: pressed when the line is high.
    pub fn from_level(level: bool) -> (e: InputEvent)
        ensures
            e.pressed == level,
    {
        InputEvent { pressed: level }
    }
}

} // verus!
