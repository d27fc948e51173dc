//! A second event interface: the same button, state and result types,
//! with a cursor position that starts at the origin instead of being absent.
use vstd::prelude::*;

pub use crate::events::{ElementState, EventResult, MouseButtons};
use crate::math::{Vec2i32, Vec2u32};

verus! {

/// Records a cursor move to `position` and returns the move since the last
/// recorded position, each coordinate reinterpreted as `i32` (Rust's `as`)
/// before subtracting; the subtraction must not overflow.
pub fn cursor_moved(mouse_position: &mut Vec2u32, position: Vec2u32) -> (delta: Vec2i32)
    requires
        position.to_i32().can_sub(old(mouse_position).to_i32()),
    ensures
        *final(mouse_position) == position,
        delta == position.to_i32().minus(old(mouse_position).to_i32()),
        delta.x == (position.x as i32) - (old(mouse_position).x as i32),
        delta.y == (position.y as i32) - (old(mouse_position).y as i32),
{
    let prev_pos = *mouse_position;
    *mouse_position = position;
    Vec2i32::from(position) - Vec2i32::from(prev_pos)
}

} // verus!
