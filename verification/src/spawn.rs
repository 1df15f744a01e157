//! The initial population: a row of equal squares with random velocities,
//! drawn from a generator that the caller hands in.

use rand::rngs::StdRng;
use rand::Rng;
use vstd::prelude::*;
use crate::body::{valid_coordinate, valid_speed, Body, SimError};
use crate::model::BodyView;
use crate::vector::{Vector, VectorView};

verus! {

/// The standard generator of the `rand` crate. Nothing is known of its state.
#[verifier::external_type_specification]
#[verifier::external_body]
pub struct ExStdRng(StdRng);

/// Draws one speed with `rand::Rng::gen_range` on the half-open range
/// `low..high`. That method panics on an empty range, so the range must not be
/// empty; its result lies in the range. Which value comes out depends on the
/// state of the generator and is not stated.
#[verifier::external_body]
fn draw_speed(rng: &mut StdRng, low: i64, high: i64) -> (speed: i64)
    requires
        low < high,
    ensures
        low <= speed < high,
{
    rng.gen_range(low..high)
}

/// A row of `count` squares: the first is centred at `origin`, each next one
/// `spacing` further along the horizontal axis. Every square has half side
/// `extent`, and each component of its velocity lies in
/// `speed_low..speed_high`, the upper end excluded.
#[derive(Clone, Copy, Debug, PartialEq, Eq, Structural)]
pub struct RowPlan {
    pub count: u32,
    pub origin: Vector,
    pub spacing: i64,
    pub extent: i64,
    pub speed_low: i64,
    pub speed_high: i64,
}

impl RowPlan {
    /// The centre of the square with index `k`.
    pub open spec fn place(self, k: int) -> VectorView {
        VectorView { x: self.origin.x + k * self.spacing, y: self.origin.y as int }
    }

    /// The square with index `k` when it moves with `velocity`.
    pub open spec fn body(self, k: int, velocity: VectorView) -> BodyView {
        BodyView { position: self.place(k), velocity, extent: self.extent as int }
    }

    /// Why the square with index `k` and the given velocity cannot be built,
    /// if it cannot.
    pub open spec fn body_fault(self, k: int, velocity: VectorView) -> Option<SimError> {
        if self.extent <= 0 {
            Some(SimError::NonPositiveExtent)
        } else if !(valid_speed(velocity.x) && valid_speed(velocity.y)) {
            Some(SimError::VelocityOutOfRange)
        } else if !valid_coordinate(self.place(k).x) {
            Some(SimError::PositionOverflow)
        } else {
            None
        }
    }

    /// Why the row cannot be built, if it cannot: the extent is not positive;
    /// or the range of speeds is empty; or it holds `i64::MIN`, which cannot be
    /// inverted; or the last square lies outside 64-bit coordinates.
    pub open spec fn fault(self) -> Option<SimError> {
        if self.extent <= 0 {
            Some(SimError::NonPositiveExtent)
        } else if self.speed_low >= self.speed_high {
            Some(SimError::EmptySpeedRange)
        } else if self.speed_low == i64::MIN {
            Some(SimError::VelocityOutOfRange)
        } else if self.count > 0 && !valid_coordinate(self.place(self.count - 1).x) {
            Some(SimError::PositionOverflow)
        } else {
            None
        }
    }

    /// A speed that the plan allows.
    pub open spec fn allows(self, speed: int) -> bool {
        self.speed_low <= speed < self.speed_high
    }
}

/// The horizontal coordinate of the square with index `k`, when it fits in 64
/// bits.
fn place_x(plan: &RowPlan, k: u32) -> (x: Option<i64>)
    ensures
        valid_coordinate(plan.place(k as int).x) ==> x == Some(plan.place(k as int).x as i64),
        !valid_coordinate(plan.place(k as int).x) ==> x is None,
{
    proof {
        lemma_offset_bound(k as int, plan.spacing as int);
    }
    let offset: i128 = k as i128 * plan.spacing as i128;
    let x: i128 = plan.origin.x as i128 + offset;
    if x < i64::MIN as i128 || x > i64::MAX as i128 {
        None
    } else {
        Some(x as i64)
    }
}

/// An index times a spacing stays well inside 128 bits.
proof fn lemma_offset_bound(k: int, spacing: int)
    by (nonlinear_arith)
    requires
        0 <= k <= 0xffff_ffff,
        -0x8000_0000_0000_0000 <= spacing <= 0x7fff_ffff_ffff_ffff,
    ensures
        -0x8000_0000_0000_0000 * 0xffff_ffff <= k * spacing,
        k * spacing <= 0x7fff_ffff_ffff_ffff * 0xffff_ffff,
{
}

/// Every square of a row lies between its first and its last one.
proof fn lemma_row_between(origin: int, spacing: int, k: int, last: int)
    by (nonlinear_arith)
    requires
        0 <= k <= last,
    ensures
        origin <= origin + k * spacing <= origin + last * spacing || origin + last * spacing
            <= origin + k * spacing <= origin,
{
}

/// The square with index `k` of the row, moving with `velocity`.
pub fn place_body(plan: &RowPlan, k: u32, velocity: Vector) -> (made: Result<Body, SimError>)
    ensures
        match made {
            Ok(body) => plan.body_fault(k as int, velocity@) is None && body@ == plan.body(
                k as int,
                velocity@,
            ),
            Err(error) => plan.body_fault(k as int, velocity@) == Some(error),
        },
{
    if plan.extent <= 0 {
        return Err(SimError::NonPositiveExtent);
    }
    if velocity.x == i64::MIN || velocity.y == i64::MIN {
        return Err(SimError::VelocityOutOfRange);
    }
    match place_x(plan, k) {
        Some(x) => Body::new(Vector { x, y: plan.origin.y }, velocity, plan.extent),
        None => Err(SimError::PositionOverflow),
    }
}

/// Whether the row can be built, and why not if it cannot.
pub fn check_plan(plan: &RowPlan) -> (checked: Result<(), SimError>)
    ensures
        match checked {
            Ok(()) => plan.fault() is None,
            Err(error) => plan.fault() == Some(error),
        },
{
    if plan.extent <= 0 {
        Err(SimError::NonPositiveExtent)
    } else if plan.speed_low >= plan.speed_high {
        Err(SimError::EmptySpeedRange)
    } else if plan.speed_low == i64::MIN {
        Err(SimError::VelocityOutOfRange)
    } else if plan.count > 0 && place_x(plan, plan.count - 1).is_none() {
        Err(SimError::PositionOverflow)
    } else {
        Ok(())
    }
}

/// Builds the row. For each square in turn the horizontal speed is drawn
/// first, then the vertical one. A plan with a fault is refused before
/// anything is drawn. The places and the extent of the squares are those of
/// the plan; of the speeds it is known only that the plan allows them.
pub fn spawn_row(rng: &mut StdRng, plan: &RowPlan) -> (made: Result<Vec<Body>, SimError>)
    ensures
        match made {
            Ok(bodies) => {
                &&& plan.fault() is None
                &&& bodies.len() == plan.count
                &&& forall|k: int|
                    0 <= k < bodies.len() ==> {
                        let body = (#[trigger] bodies[k])@;
                        &&& body == plan.body(k, body.velocity)
                        &&& plan.allows(body.velocity.x)
                        &&& plan.allows(body.velocity.y)
                    }
            },
            Err(error) => plan.fault() == Some(error),
        },
{
    match check_plan(plan) {
        Ok(()) => {},
        Err(error) => {
            return Err(error);
        },
    }
    let mut bodies: Vec<Body> = Vec::new();
    let mut k: u32 = 0;
    while k < plan.count
        invariant
            k <= plan.count,
            plan.fault() is None,
            bodies.len() == k,
            forall|j: int|
                0 <= j < k ==> {
                    let body = (#[trigger] bodies[j])@;
                    &&& body == plan.body(j, body.velocity)
                    &&& plan.allows(body.velocity.x)
                    &&& plan.allows(body.velocity.y)
                },
        decreases plan.count - k,
    {
        let x_speed: i64 = draw_speed(rng, plan.speed_low, plan.speed_high);
        let y_speed: i64 = draw_speed(rng, plan.speed_low, plan.speed_high);
        proof {
            lemma_row_between(
                plan.origin.x as int,
                plan.spacing as int,
                k as int,
                plan.count - 1,
            );
        }
        match place_body(plan, k, Vector { x: x_speed, y: y_speed }) {
            Ok(body) => {
                bodies.push(body);
            },
            Err(error) => {
                return Err(error);
            },
        }
        k += 1;
    }
    Ok(bodies)
}

} // verus!
