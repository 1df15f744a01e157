//! The pool of bodies and colliders, and the frame: movement, then the walls,
//! then the colliders, each stage over every body before the next begins.

use vstd::prelude::*;
use crate::body::{Arena, Body, Collider, SimError};
use crate::integrator::integrate;
use crate::model::{ArenaView, BodyView, ColliderView};
use crate::overlap::{collider_views, resolve};
use crate::walls::reflect_off_walls;

verus! {

/// The bodies and the colliders of a simulation, each in the order in which
/// they were added. The index of a record is its identifier.
pub struct WorldView {
    pub bodies: Seq<BodyView>,
    pub colliders: Seq<ColliderView>,
}

impl WorldView {
    /// Every body can move for `dt` ticks without leaving the range of 64-bit
    /// coordinates.
    pub open spec fn can_integrate(self, dt: nat) -> bool {
        forall|i: int| 0 <= i < self.bodies.len() ==> (#[trigger] self.bodies[i]).integrated(dt).valid()
    }

    /// The world after the movement stage.
    pub open spec fn integrated(self, dt: nat) -> WorldView {
        WorldView {
            bodies: self.bodies.map_values(|body: BodyView| body.integrated(dt)),
            colliders: self.colliders,
        }
    }

    /// The world after the wall stage.
    pub open spec fn wall_reflected(self, arena: ArenaView) -> WorldView {
        WorldView {
            bodies: self.bodies.map_values(|body: BodyView| body.wall_reflected(arena)),
            colliders: self.colliders,
        }
    }

    /// The world after the overlap stage: every body has met every collider.
    pub open spec fn resolved(self) -> WorldView {
        WorldView {
            bodies: self.bodies.map_values(|body: BodyView| body.resolved(self.colliders)),
            colliders: self.colliders,
        }
    }

    /// The world after one frame.
    pub open spec fn stepped(self, dt: nat, arena: ArenaView) -> WorldView {
        self.integrated(dt).wall_reflected(arena).resolved()
    }
}

/// The views of a sequence of bodies, in the same order.
pub open spec fn body_views(bodies: Seq<Body>) -> Seq<BodyView> {
    bodies.map_values(|body: Body| body@)
}

/// The pool of records that the stages of a frame work on.
pub struct World {
    bodies: Vec<Body>,
    colliders: Vec<Collider>,
}

impl View for World {
    type V = WorldView;

    closed spec fn view(&self) -> WorldView {
        WorldView { bodies: body_views(self.bodies@), colliders: collider_views(self.colliders@) }
    }
}

impl World {
    /// A world without bodies or colliders.
    pub fn new() -> (world: World)
        ensures
            world@.bodies == Seq::<BodyView>::empty(),
            world@.colliders == Seq::<ColliderView>::empty(),
    {
        World { bodies: Vec::new(), colliders: Vec::new() }
    }

    /// Adds a body behind those that are there and returns its identifier.
    pub fn add_body(&mut self, body: Body) -> (id: usize)
        ensures
            id == old(self)@.bodies.len(),
            final(self)@.bodies == old(self)@.bodies.push(body@),
            final(self)@.colliders == old(self)@.colliders,
    {
        let id: usize = self.bodies.len();
        self.bodies.push(body);
        id
    }

    /// Adds a collider behind those that are there and returns its identifier.
    pub fn add_collider(&mut self, collider: Collider) -> (id: usize)
        ensures
            id == old(self)@.colliders.len(),
            final(self)@.colliders == old(self)@.colliders.push(collider@),
            final(self)@.bodies == old(self)@.bodies,
    {
        let id: usize = self.colliders.len();
        self.colliders.push(collider);
        id
    }

    /// The number of bodies.
    pub fn body_count(&self) -> (count: usize)
        ensures
            count == self@.bodies.len(),
    {
        self.bodies.len()
    }

    /// The number of colliders.
    pub fn collider_count(&self) -> (count: usize)
        ensures
            count == self@.colliders.len(),
    {
        self.colliders.len()
    }

    /// The body with the given identifier, if there is one.
    pub fn body(&self, id: usize) -> (found: Option<Body>)
        ensures
            id < self@.bodies.len() ==> found is Some && found->Some_0@ == self@.bodies[id as int],
            id >= self@.bodies.len() ==> found is None,
    {
        if id < self.bodies.len() {
            Some(self.bodies[id])
        } else {
            None
        }
    }

    /// The collider with the given identifier, if there is one.
    pub fn collider(&self, id: usize) -> (found: Option<Collider>)
        ensures
            id < self@.colliders.len() ==> found is Some && found->Some_0@ == self@.colliders[
                id as int],
            id >= self@.colliders.len() ==> found is None,
    {
        if id < self.colliders.len() {
            Some(self.colliders[id])
        } else {
            None
        }
    }

    /// The extent of every body, in the order of the identifiers.
    pub fn extents(&self) -> (extents: Vec<i64>)
        ensures
            extents.len() == self@.bodies.len(),
            forall|i: int| 0 <= i < extents.len() ==> #[trigger] extents[i] == self@.bodies[i].extent,
    {
        let mut extents: Vec<i64> = Vec::new();
        let mut i: usize = 0;
        while i < self.bodies.len()
            invariant
                i <= self.bodies.len(),
                extents.len() == i,
                forall|k: int| 0 <= k < i ==> #[trigger] extents[k] == self@.bodies[k].extent,
            decreases self.bodies.len() - i,
        {
            extents.push(self.bodies[i].extent());
            i += 1;
        }
        extents
    }

    /// The movement stage: every body advances by its velocity times `dt`.
    /// When the new position of some body does not fit in 64-bit coordinates
    /// the stage fails and the world stays as it was.
    pub fn integrate(&mut self, dt: u64) -> (done: Result<(), SimError>)
        ensures
            old(self)@.can_integrate(dt as nat) ==> done is Ok && final(self)@ == old(
                self,
            )@.integrated(dt as nat),
            !old(self)@.can_integrate(dt as nat) ==> done == Err::<(), SimError>(
                SimError::PositionOverflow,
            ) && final(self)@ == old(self)@,
    {
        let ghost before = self@;
        let mut next: Vec<Body> = Vec::new();
        let mut i: usize = 0;
        while i < self.bodies.len()
            invariant
                i <= self.bodies.len(),
                self@ == before,
                next.len() == i,
                forall|k: int| 0 <= k < i ==> (#[trigger] before.bodies[k]).integrated(dt as nat).valid(),
                forall|k: int| 0 <= k < i ==> (#[trigger] next@[k])@ == before.bodies[k].integrated(
                    dt as nat,
                ),
            decreases self.bodies.len() - i,
        {
            match integrate(&self.bodies[i], dt) {
                Ok(moved) => {
                    next.push(moved);
                },
                Err(error) => {
                    assert(!before.bodies[i as int].integrated(dt as nat).valid());
                    return Err(error);
                },
            }
            i += 1;
        }
        self.bodies = next;
        assert(self@.bodies =~= before.integrated(dt as nat).bodies);
        Ok(())
    }

    /// The wall stage: every body that reaches past a wall has its velocity
    /// inverted on that axis.
    pub fn reflect_off_walls(&mut self, arena: &Arena)
        ensures
            final(self)@ == old(self)@.wall_reflected(arena@),
    {
        let ghost before = self@;
        let mut next: Vec<Body> = Vec::new();
        let mut i: usize = 0;
        while i < self.bodies.len()
            invariant
                i <= self.bodies.len(),
                self@ == before,
                next.len() == i,
                forall|k: int| 0 <= k < i ==> (#[trigger] next@[k])@ == before.bodies[k].wall_reflected(
                    arena@,
                ),
            decreases self.bodies.len() - i,
        {
            next.push(reflect_off_walls(&self.bodies[i], arena));
            i += 1;
        }
        self.bodies = next;
        assert(self@.bodies =~= before.wall_reflected(arena@).bodies);
    }

    /// The overlap stage: every body meets every collider, in the order of
    /// the colliders' identifiers.
    pub fn resolve_overlaps(&mut self)
        ensures
            final(self)@ == old(self)@.resolved(),
    {
        let ghost before = self@;
        let mut next: Vec<Body> = Vec::new();
        let mut i: usize = 0;
        while i < self.bodies.len()
            invariant
                i <= self.bodies.len(),
                self@ == before,
                next.len() == i,
                forall|k: int| 0 <= k < i ==> (#[trigger] next@[k])@ == before.bodies[k].resolved(
                    before.colliders,
                ),
            decreases self.bodies.len() - i,
        {
            next.push(resolve(&self.bodies[i], &self.colliders));
            i += 1;
        }
        self.bodies = next;
        assert(self@.bodies =~= before.resolved().bodies);
    }

    /// One frame: the movement stage, then the wall stage, then the overlap
    /// stage. When the movement stage fails the world stays as it was.
    pub fn step(&mut self, dt: u64, arena: &Arena) -> (done: Result<(), SimError>)
        ensures
            old(self)@.can_integrate(dt as nat) ==> done is Ok && final(self)@ == old(
                self,
            )@.stepped(dt as nat, arena@),
            !old(self)@.can_integrate(dt as nat) ==> done == Err::<(), SimError>(
                SimError::PositionOverflow,
            ) && final(self)@ == old(self)@,
    {
        match self.integrate(dt) {
            Ok(()) => {
                self.reflect_off_walls(arena);
                self.resolve_overlaps();
                Ok(())
            },
            Err(error) => Err(error),
        }
    }
}

} // verus!
