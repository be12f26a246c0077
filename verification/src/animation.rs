//! The drawer's snap animation: which way a tick moves the drawer, and how
//! far.

use crate::window::UNIT;
use vstd::prelude::*;

verus! {

/// Distance that one tick moves the drawer: 20 logical units.
pub const ANIMATION_STEP: i64 = 20 * UNIT;

/// Milliseconds between two ticks: a 120th of a second, rounded down.
pub const ANIMATION_INTERVAL: u64 = 1000 / 120;

/// No offset leaves this range: it holds every touch coordinate and every
/// window height, in sub-units.
pub const OFFSET_LIMIT: i64 = 0x80_0000_0000;

/// What the gesture that came before the animation was doing.
#[derive(Copy, Clone, Debug, PartialEq, Eq, Structural)]
pub enum Direction {
    Opening,
    Closing,
}

/// A running animation.
#[derive(Copy, Clone, Debug, PartialEq, Eq)]
pub struct Animation {
    pub direction: Direction,
    /// When the next tick is due, in milliseconds.
    pub deadline: u64,
}

/// What the timer does after a tick.
#[derive(Copy, Clone, Debug, PartialEq, Eq)]
pub enum TickAction {
    /// The animation is over: the timer is dropped.
    Stop,
    /// The next tick is due at this time.
    Continue(u64),
}

/// Whether the drawer is past the point from which it snaps open: a quarter
/// of the way when it was being opened, three quarters when it was being
/// closed.
pub open spec fn passes_threshold(direction: Direction, offset: int, max_offset: int) -> bool {
    match direction {
        Direction::Opening => 4 * offset >= max_offset,
        Direction::Closing => 4 * offset >= 3 * max_offset,
    }
}

/// The offset one tick later, before it is held to the drawer's range.
pub open spec fn advance(direction: Direction, offset: int, max_offset: int) -> int {
    if passes_threshold(direction, offset, max_offset) {
        offset + ANIMATION_STEP
    } else {
        offset - ANIMATION_STEP
    }
}

/// The time `interval` milliseconds after `now`, held to the range of `u64`.
pub open spec fn deadline_after(now: u64, interval: u64) -> u64 {
    if now + interval > u64::MAX {
        u64::MAX
    } else {
        (now + interval) as u64
    }
}

/// The number of ticks after which every animation of a drawer with this
/// largest offset is over: the largest offset divided by the step, rounded
/// up.
pub open spec fn tick_bound(max_offset: int) -> int {
    (max_offset + ANIMATION_STEP - 1) / (ANIMATION_STEP as int)
}

/// Computes `passes_threshold`.
pub fn is_past_threshold(direction: Direction, offset: i64, max_offset: i64) -> (passes: bool)
    ensures
        passes == passes_threshold(direction, offset as int, max_offset as int),
{
    let offset: i128 = offset as i128;
    let max_offset: i128 = max_offset as i128;
    match direction {
        Direction::Opening => 4 * offset >= max_offset,
        Direction::Closing => 4 * offset >= 3 * max_offset,
    }
}

} // verus!
