//! The records of the simulation: moving bodies, fixed colliders and the
//! arena. A body or a collider can only be built with a positive extent, and a
//! body only with a velocity that can be inverted.

use vstd::prelude::*;
use crate::model::{ArenaView, BodyView, ColliderView};
use crate::vector::Vector;

verus! {

/// Why a value was refused or a frame could not be computed.
#[derive(Clone, Copy, Debug, PartialEq, Eq, Structural)]
pub enum SimError {
    /// An extent was zero or negative.
    NonPositiveExtent,
    /// A velocity component was `i64::MIN`, which has no negation.
    VelocityOutOfRange,
    /// A position left the range of 64-bit coordinates.
    PositionOverflow,
    /// A range of speeds was empty.
    EmptySpeedRange,
}

/// An extent that a body or a collider may have.
pub open spec fn valid_extent(extent: int) -> bool {
    0 < extent <= i64::MAX
}

/// A velocity component that a body may have: a 64-bit integer whose negation
/// is one too.
pub open spec fn valid_speed(speed: int) -> bool {
    -i64::MAX <= speed <= i64::MAX
}

/// A coordinate that fits in 64 bits.
pub open spec fn valid_coordinate(coordinate: int) -> bool {
    i64::MIN <= coordinate <= i64::MAX
}

impl BodyView {
    /// The body can be held in a `Body`.
    pub open spec fn valid(self) -> bool {
        &&& valid_coordinate(self.position.x)
        &&& valid_coordinate(self.position.y)
        &&& valid_speed(self.velocity.x)
        &&& valid_speed(self.velocity.y)
        &&& valid_extent(self.extent)
    }
}

impl ColliderView {
    /// The collider can be held in a `Collider`.
    pub open spec fn valid(self) -> bool {
        &&& valid_coordinate(self.position.x)
        &&& valid_coordinate(self.position.y)
        &&& valid_extent(self.extent)
    }
}

/// The boundary of the simulation. The walls stand at `-half_width` and
/// `half_width`, and at `-half_height` and `half_height`.
#[derive(Clone, Copy, Debug, PartialEq, Eq, Structural)]
pub struct Arena {
    pub half_width: i64,
    pub half_height: i64,
}

impl View for Arena {
    type V = ArenaView;

    open spec fn view(&self) -> ArenaView {
        ArenaView { half_width: self.half_width as int, half_height: self.half_height as int }
    }
}

impl Arena {
    /// The arena with the given half extents.
    pub fn new(half_width: i64, half_height: i64) -> (arena: Arena)
        ensures
            arena.half_width == half_width,
            arena.half_height == half_height,
    {
        Arena { half_width, half_height }
    }
}

/// A fixed square that moving bodies reflect off.
#[derive(Clone, Copy, Debug)]
pub struct Collider {
    position: Vector,
    extent: i64,
}

impl View for Collider {
    type V = ColliderView;

    closed spec fn view(&self) -> ColliderView {
        ColliderView { position: self.position@, extent: self.extent as int }
    }
}

impl Collider {
    #[verifier::type_invariant]
    spec fn well_formed(self) -> bool {
        self.extent > 0
    }

    /// A collider centred at `position` with half side `extent`. An extent
    /// that is not positive is refused.
    pub fn new(position: Vector, extent: i64) -> (made: Result<Collider, SimError>)
        ensures
            extent > 0 ==> made is Ok && made->Ok_0@ == (ColliderView {
                position: position@,
                extent: extent as int,
            }),
            extent <= 0 ==> made == Err::<Collider, SimError>(SimError::NonPositiveExtent),
    {
        if extent <= 0 {
            Err(SimError::NonPositiveExtent)
        } else {
            Ok(Collider { position, extent })
        }
    }

    /// The centre of the collider.
    pub fn position(&self) -> (position: Vector)
        ensures
            position@ == self@.position,
    {
        self.position
    }

    /// Half the side of the collider.
    pub fn extent(&self) -> (extent: i64)
        ensures
            extent == self@.extent,
            self@.valid(),
    {
        proof {
            use_type_invariant(self);
        }
        self.extent
    }
}

/// A moving square.
#[derive(Clone, Copy, Debug)]
pub struct Body {
    position: Vector,
    velocity: Vector,
    extent: i64,
}

impl View for Body {
    type V = BodyView;

    closed spec fn view(&self) -> BodyView {
        BodyView { position: self.position@, velocity: self.velocity@, extent: self.extent as int }
    }
}

impl Body {
    #[verifier::type_invariant]
    spec fn well_formed(self) -> bool {
        &&& self.extent > 0
        &&& self.velocity.x > i64::MIN
        &&& self.velocity.y > i64::MIN
    }

    /// A body centred at `position` that moves with `velocity` and has half
    /// side `extent`. An extent that is not positive is refused, and then a
    /// velocity with a component that cannot be inverted.
    pub fn new(position: Vector, velocity: Vector, extent: i64) -> (made: Result<Body, SimError>)
        ensures
            match made {
                Ok(body) => body@ == (BodyView {
                    position: position@,
                    velocity: velocity@,
                    extent: extent as int,
                }) && body@.valid(),
                Err(SimError::NonPositiveExtent) => extent <= 0,
                Err(SimError::VelocityOutOfRange) => extent > 0 && !(valid_speed(velocity.x as int)
                    && valid_speed(velocity.y as int)),
                Err(_) => false,
            },
    {
        if extent <= 0 {
            Err(SimError::NonPositiveExtent)
        } else if velocity.x == i64::MIN || velocity.y == i64::MIN {
            Err(SimError::VelocityOutOfRange)
        } else {
            Ok(Body { position, velocity, extent })
        }
    }

    /// The centre of the body.
    pub fn position(&self) -> (position: Vector)
        ensures
            position@ == self@.position,
    {
        self.position
    }

    /// The velocity of the body.
    pub fn velocity(&self) -> (velocity: Vector)
        ensures
            velocity@ == self@.velocity,
            self@.valid(),
    {
        proof {
            use_type_invariant(self);
        }
        self.velocity
    }

    /// Half the side of the body.
    pub fn extent(&self) -> (extent: i64)
        ensures
            extent == self@.extent,
            self@.valid(),
    {
        proof {
            use_type_invariant(self);
        }
        self.extent
    }

    /// The same body at another place.
    pub fn moved_to(&self, position: Vector) -> (moved: Body)
        ensures
            moved@ == (BodyView {
                position: position@,
                velocity: self@.velocity,
                extent: self@.extent,
            }),
    {
        proof {
            use_type_invariant(self);
        }
        Body { position, velocity: self.velocity, extent: self.extent }
    }

    /// The same body with the horizontal component of its velocity inverted.
    pub fn flipped_x(&self) -> (flipped: Body)
        ensures
            flipped@ == self@.flipped_x(),
    {
        proof {
            use_type_invariant(self);
        }
        Body {
            position: self.position,
            velocity: Vector { x: -self.velocity.x, y: self.velocity.y },
            extent: self.extent,
        }
    }

    /// The same body with the vertical component of its velocity inverted.
    pub fn flipped_y(&self) -> (flipped: Body)
        ensures
            flipped@ == self@.flipped_y(),
    {
        proof {
            use_type_invariant(self);
        }
        Body {
            position: self.position,
            velocity: Vector { x: self.velocity.x, y: -self.velocity.y },
            extent: self.extent,
        }
    }
}

} // verus!
