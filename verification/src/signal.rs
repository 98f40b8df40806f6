//! Logic levels of a digital input line and the rotation directions decoded from them.

use vstd::prelude::*;

verus! {

/// The state of a pull-up biased digital input line.
///
/// `High` is the idle state of an open line, `Low` means that the line is pulled to
/// ground: the contact is closed. There is no state in between.
#[derive(Clone, Copy, Debug, PartialEq, Eq, Structural)]
pub enum Level {
    High,
    Low,
}

/// The sense in which an encoder shaft was turned by one detent.
#[derive(Clone, Copy, Debug, PartialEq, Eq, Structural)]
pub enum Direction {
    Clockwise,
    CounterClockwise,
}

/// The direction that phase B's level stands for at the moment phase A falls:
/// `Low` for a clockwise turn, `High` for a counter-clockwise one.
pub open spec fn direction_at_fall(b: Level) -> Direction {
    if b == Level::Low {
        Direction::Clockwise
    } else {
        Direction::CounterClockwise
    }
}

/// What one poll of a quadrature decoder reports: a direction exactly when phase A fell
/// since the poll before, that is when it was `High` then and is `Low` now. The
/// direction is the one that phase B's level stands for.
pub open spec fn decode(last_a: Level, a: Level, b: Level) -> Option<Direction> {
    if last_a == Level::High && a == Level::Low {
        Some(direction_at_fall(b))
    } else {
        None
    }
}

} // verus!
