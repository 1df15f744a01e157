//! The wall stage: a body that reaches past a wall has its velocity inverted
//! on that axis. Its position is left alone, so it may stand across the wall
//! for a frame before it moves back.

use vstd::prelude::*;
use crate::body::{Arena, Body};

verus! {

/// Whether the body reaches past the left or the right wall.
pub fn beyond_side_walls(body: &Body, arena: &Arena) -> (beyond: bool)
    ensures
        beyond == body@.beyond_side_walls(arena@),
{
    let center: i128 = body.position().x as i128;
    let extent: i128 = body.extent() as i128;
    let half_width: i128 = arena.half_width as i128;
    center + extent > half_width || center - extent < -half_width
}

/// Whether the body reaches past the top or the bottom wall.
pub fn beyond_end_walls(body: &Body, arena: &Arena) -> (beyond: bool)
    ensures
        beyond == body@.beyond_end_walls(arena@),
{
    let center: i128 = body.position().y as i128;
    let extent: i128 = body.extent() as i128;
    let half_height: i128 = arena.half_height as i128;
    center + extent > half_height || center - extent < -half_height
}

/// The body after the wall stage. The two axes are tested independently, so a
/// body in a corner has both components of its velocity inverted.
pub fn reflect_off_walls(body: &Body, arena: &Arena) -> (reflected: Body)
    ensures
        reflected@ == body@.wall_reflected(arena@),
{
    let across: Body = if beyond_side_walls(body, arena) { body.flipped_x() } else { *body };
    if beyond_end_walls(body, arena) {
        across.flipped_y()
    } else {
        across
    }
}

} // verus!
