//! The movement stage: a body advances by its velocity times the time step.

use vstd::prelude::*;
use crate::body::{valid_coordinate, Body, SimError};
use crate::vector::Vector;

verus! {

/// `start + speed * dt` when that fits in 64 bits.
fn advance(start: i64, speed: i64, dt: u64) -> (end: Option<i64>)
    requires
        speed > i64::MIN,
    ensures
        valid_coordinate(start + speed * dt) ==> end == Some((start + speed * dt) as i64),
        !valid_coordinate(start + speed * dt) ==> end is None,
{
    proof {
        lemma_product_bound(speed as int, dt as int);
    }
    let travelled: i128 = speed as i128 * dt as i128;
    let end: i128 = start as i128 + travelled;
    if end < i64::MIN as i128 || end > i64::MAX as i128 {
        None
    } else {
        Some(end as i64)
    }
}

/// The product of a speed that can be inverted and a time step stays well
/// inside 128 bits.
proof fn lemma_product_bound(speed: int, dt: int)
    by (nonlinear_arith)
    requires
        -0x7fff_ffff_ffff_ffff <= speed <= 0x7fff_ffff_ffff_ffff,
        0 <= dt <= 0xffff_ffff_ffff_ffff,
    ensures
        -0x7fff_ffff_ffff_ffff * 0xffff_ffff_ffff_ffff <= speed * dt,
        speed * dt <= 0x7fff_ffff_ffff_ffff * 0xffff_ffff_ffff_ffff,
{
}

/// The body after `dt` ticks of free movement: its position advances by
/// `velocity * dt`, its velocity and extent stay. A step of zero ticks changes
/// nothing. The step fails, and only then, when the new position does not fit
/// in 64-bit coordinates.
pub fn integrate(body: &Body, dt: u64) -> (moved: Result<Body, SimError>)
    ensures
        match moved {
            Ok(after) => after@ == body@.integrated(dt as nat),
            Err(error) => error == SimError::PositionOverflow,
        },
        moved is Ok <==> body@.integrated(dt as nat).valid(),
{
    let position = body.position();
    let velocity = body.velocity();
    match (advance(position.x, velocity.x, dt), advance(position.y, velocity.y, dt)) {
        (Some(x), Some(y)) => Ok(body.moved_to(Vector { x, y })),
        _ => Err(SimError::PositionOverflow),
    }
}

} // verus!
