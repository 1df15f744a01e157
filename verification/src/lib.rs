//! Frame-by-frame simulation of squares that move inside a bounded arena,
//! bounce off its walls and reflect off fixed square colliders.
//!
//! All quantities are integers. The caller picks the scale: a position is a
//! number of sub-units, a velocity is a number of sub-units per tick, and a
//! time step is a number of ticks. An `extent` is always half the side of a
//! square, for the wall test and for the overlap test alike.

pub mod body;
pub mod integrator;
pub mod laws;
pub mod model;
pub mod overlap;
pub mod spawn;
pub mod vector;
pub mod walls;
pub mod world;

pub use body::{Arena, Body, Collider, SimError};
pub use integrator::integrate;
pub use model::{ArenaView, BodyView, BoxView, ColliderView, Contact};
pub use overlap::{contact_side, reflect_on_contact, resolve, resolve_against};
pub use spawn::{check_plan, place_body, spawn_row, RowPlan};
pub use vector::{Vector, VectorView};
pub use walls::{beyond_end_walls, beyond_side_walls, reflect_off_walls};
pub use world::{World, WorldView};
