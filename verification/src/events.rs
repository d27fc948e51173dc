//! Input events as the application sees them, and the bookkeeping that turns
//! raw window-system reports into them.
use vstd::prelude::*;

use crate::math::{Vec2i32, Vec2u32};

verus! {

#[derive(PartialEq, Eq, Structural, Debug, Clone)]
pub enum MouseButtons {
    Left,
    Right,
    Middle,
    Back,
    Forward,
    Other(u8),
}

#[derive(PartialEq, Eq, Structural, Debug, Clone)]
pub enum ElementState {
    Pressed,
    Released,
}

/// What the application asks of the event loop after handling an event.
#[derive(PartialEq, Eq, Structural, Debug, Copy, Clone)]
pub enum EventResult {
    Continue,
    Redraw,
    Exit,
}

/// `v`, raised to 1 when it is 0.
pub open spec fn at_least_one(v: u32) -> u32 {
    if v == 0 {
        1
    } else {
        v
    }
}

/// The window size reported to the application after a resize: a minimized
/// window reports 0 on a side, which is raised to 1 so that the size is
/// always a valid surface size.
pub fn resized_window_size(width: u32, height: u32) -> (r: Vec2u32)
    ensures
        r.x == at_least_one(width),
        r.y == at_least_one(height),
        r.x >= 1 && r.y >= 1,
        width >= 1 ==> r.x == width,
        height >= 1 ==> r.y == height,
{
    let x: u32 = if width == 0 {
        1
    } else {
        width
    };
    let y: u32 = if height == 0 {
        1
    } else {
        height
    };
    Vec2u32::new(x, y)
}

/// Whether the movement from `previous` to `position` can be measured in
/// `i32` coordinates: with no previous position nothing is converted, else
/// both positions must fit in an `i32`.
pub open spec fn cursor_move_measurable(previous: Option<Vec2u32>, position: Vec2u32) -> bool {
    previous matches Some(p) ==> {
        &&& position.x <= i32::MAX && position.y <= i32::MAX
        &&& p.x <= i32::MAX && p.y <= i32::MAX
    }
}

/// How far the cursor travelled to `position` since the recorded position
/// `previous`: nothing when no position was recorded yet.
pub open spec fn cursor_travel(previous: Option<Vec2u32>, position: Vec2u32) -> (int, int) {
    match previous {
        Some(p) => (position.x - p.x, position.y - p.y),
        None => (0, 0),
    }
}

/// Records a cursor move to `position` and returns how far the cursor moved
/// since the last recorded position (zero for the first move).
pub fn cursor_moved(mouse_position: &mut Option<Vec2u32>, position: Vec2u32) -> (delta: Vec2i32)
    requires
        cursor_move_measurable(*old(mouse_position), position),
    ensures
        *final(mouse_position) == Some(position),
        (delta.x as int, delta.y as int) == cursor_travel(*old(mouse_position), position),
        *old(mouse_position) matches Some(p) ==> p.x + delta.x == position.x && p.y + delta.y == position.y,
        *old(mouse_position) is None ==> delta.x == 0 && delta.y == 0,
{
    let delta = match mouse_position {
        Some(prev) => {
            let to = Vec2i32::new(position.x as i32, position.y as i32);
            let from = Vec2i32::new(prev.x as i32, prev.y as i32);
            to - from
        },
        None => Vec2i32::all(0),
    };
    *mouse_position = Some(position);
    delta
}

/// The position at which a button or wheel event happened: the last recorded
/// cursor position, or the origin when the cursor has not moved yet.
pub fn cursor_or_origin(mouse_position: &Option<Vec2u32>) -> (r: Vec2u32)
    ensures
        r == match *mouse_position {
            Some(p) => p,
            None => Vec2u32 { x: 0, y: 0 },
        },
{
    match mouse_position {
        Some(p) => *p,
        None => Vec2u32::all(0),
    }
}

/// The moves reported for successive cursor positions add up: moving from
/// `a` to `b` and then to `c` reports, in sum, the move from `a` to `c`.
pub proof fn lemma_cursor_travel_adds_up(a: Vec2u32, b: Vec2u32, c: Vec2u32)
    ensures
        cursor_travel(Some(a), b).0 + cursor_travel(Some(b), c).0 == cursor_travel(Some(a), c).0,
        cursor_travel(Some(a), b).1 + cursor_travel(Some(b), c).1 == cursor_travel(Some(a), c).1,
{
}

/// Staying in place reports no move.
pub proof fn lemma_cursor_rest_is_zero(previous: Option<Vec2u32>, position: Vec2u32)
    requires
        previous is None || previous == Some(position),
    ensures
        cursor_travel(previous, position) == (0int, 0int),
{
}

/// A side of a resized window keeps its length unless it is 0, which becomes 1.
pub proof fn lemma_at_least_one(v: u32)
    ensures
        at_least_one(v) >= 1,
        v >= 1 ==> at_least_one(v) == v,
        v == 0 ==> at_least_one(v) == 1,
{
}

/// The travel from a recorded position, added to that position, gives the new
/// position; with no recorded position the travel is zero.
pub proof fn lemma_cursor_travel_exact(p: Vec2u32, q: Vec2u32)
    ensures
        p.x + cursor_travel(Some(p), q).0 == q.x,
        p.y + cursor_travel(Some(p), q).1 == q.y,
        cursor_travel(None, q) == (0int, 0int),
{
}

} // verus!
