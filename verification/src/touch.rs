//! Touch positions and the single touch session.

use crate::window::WindowKind;
use vstd::prelude::*;

verus! {

/// A position on a surface, in sub-units of its logical coordinates.
#[derive(Copy, Clone, Debug, PartialEq, Eq)]
pub struct Position {
    pub x: i32,
    pub y: i32,
}

/// The touch that drags the drawer.
#[derive(Copy, Clone, Debug, PartialEq, Eq)]
pub struct TouchSession {
    pub touch_id: i32,
    /// Where the touch went down.
    pub start_position: Position,
    /// The drawer offset that the touch has set.
    pub current_offset: i64,
    /// The window on which the touch went down.
    pub origin: WindowKind,
    /// Whether the touch opens the drawer.
    pub is_opening: bool,
}

/// The recognizer's state.
#[derive(Copy, Clone, Debug, PartialEq, Eq, Structural)]
pub enum Gesture {
    Idle,
    TrackingOpen,
    TrackingClose,
}

/// Whether a height on the drawer lies in its handle: the lowest twentieth,
/// from which the drawer can be dragged shut.
pub open spec fn in_close_handle(y: int, max_offset: int) -> bool {
    20 * y >= 19 * max_offset
}

/// Computes `in_close_handle`.
pub fn is_in_close_handle(y: i32, max_offset: i64) -> (inside: bool)
    ensures
        inside == in_close_handle(y as int, max_offset as int),
{
    let y: i128 = y as i128;
    let max_offset: i128 = max_offset as i128;
    20 * y >= 19 * max_offset
}

} // verus!
