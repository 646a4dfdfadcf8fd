//! Input events as the kernel's `(type, code, value)` triples.

use vstd::prelude::*;

verus! {

/// Event type of a synchronization marker.
pub const EV_SYN: u16 = 0;

/// Event type of a key or button edge.
pub const EV_KEY: u16 = 1;

/// Event type of a relative axis movement.
pub const EV_REL: u16 = 2;

/// Event type of an absolute axis position.
pub const EV_ABS: u16 = 3;

/// Code of the synchronization marker that closes a frame of events.
pub const SYN_REPORT: u16 = 0;

/// Code of the horizontal relative axis.
pub const REL_X: u16 = 0;

/// Code of the vertical relative axis.
pub const REL_Y: u16 = 1;

/// One input event. The engine looks at nothing but these three numbers.
#[derive(Clone, Copy, Debug, PartialEq, Eq, Structural)]
pub struct Event {
    pub kind: u16,
    pub code: u16,
    pub value: i32,
}

impl Event {
    /// The key event `(EV_KEY, code, value)`.
    pub open spec fn spec_key(code: u16, value: i32) -> Event {
        Event { kind: EV_KEY, code, value }
    }

    /// The relative-axis event `(EV_REL, axis, value)`.
    pub open spec fn spec_relative(axis: u16, value: i32) -> Event {
        Event { kind: EV_REL, code: axis, value }
    }

    #[verifier::when_used_as_spec(spec_key)]
    pub fn key(code: u16, value: i32) -> (ev: Event)
        ensures
            ev == Event::spec_key(code, value),
    {
        Event { kind: EV_KEY, code, value }
    }

    #[verifier::when_used_as_spec(spec_relative)]
    pub fn relative(axis: u16, value: i32) -> (ev: Event)
        ensures
            ev == Event::spec_relative(axis, value),
    {
        Event { kind: EV_REL, code: axis, value }
    }

    /// Whether this event is the marker that closes a frame.
    pub open spec fn is_sync_report(self) -> bool {
        self.kind == EV_SYN && self.code == SYN_REPORT
    }
}

/// Which edge of a button or of an action is firing.
#[derive(Clone, Copy, Debug, PartialEq, Eq, Structural)]
pub enum Direction {
    Up,
    Down,
}

impl Direction {
    /// The event value of the edge: 0 for `Up`, 1 for `Down`.
    pub open spec fn spec_value(self) -> i32 {
        match self {
            Direction::Up => 0,
            Direction::Down => 1,
        }
    }

    #[verifier::when_used_as_spec(spec_value)]
    pub fn value(self) -> (v: i32)
        ensures
            v == self.spec_value(),
    {
        match self {
            Direction::Up => 0,
            Direction::Down => 1,
        }
    }
}

} // verus!
