//! The mathematical model of the simulation: bodies, colliders and the arena
//! over unbounded integers, and the three stages of a frame as functions on
//! them. Every contract of the executable code is stated over this model.

use vstd::prelude::*;
use crate::vector::VectorView;

verus! {

/// The side of a collider that an overlapping body touches, or `Inside` when
/// no side dominates.
#[derive(Clone, Copy, Debug, PartialEq, Eq, Structural)]
pub enum Contact {
    Left,
    Right,
    Top,
    Bottom,
    Inside,
}

/// An axis-aligned box, given by its lowest and its highest corner.
pub struct BoxView {
    pub min: VectorView,
    pub max: VectorView,
}

/// The edge of an interval that another interval straddles.
#[derive(Clone, Copy, Debug, PartialEq, Eq, Structural)]
pub enum Edge {
    Low,
    High,
}

/// Which edge of `[b_min, b_max]` the interval `[a_min, a_max]` straddles, and
/// how deep it reaches past that edge. `None` when it straddles neither edge or
/// both: the first interval then lies within the second, covers it, or shares
/// an end with it.
pub open spec fn straddled_edge(a_min: int, a_max: int, b_min: int, b_max: int) -> Option<(Edge, int)> {
    if a_min < b_min && b_min < a_max && a_max < b_max {
        Some((Edge::Low, a_max - b_min))
    } else if b_min < a_min && a_min < b_max && b_max < a_max {
        Some((Edge::High, b_max - a_min))
    } else {
        None
    }
}

impl BoxView {
    /// The square with the given centre and half side.
    pub open spec fn around(center: VectorView, extent: int) -> BoxView {
        BoxView {
            min: VectorView { x: center.x - extent, y: center.y - extent },
            max: VectorView { x: center.x + extent, y: center.y + extent },
        }
    }

    /// The interiors of the two boxes meet.
    pub open spec fn overlaps(self, other: BoxView) -> bool {
        &&& self.min.x < other.max.x
        &&& other.min.x < self.max.x
        &&& self.min.y < other.max.y
        &&& other.min.y < self.max.y
    }

    /// The side of `other` that `self` touches: `None` when the boxes do not
    /// overlap; otherwise the straddled edge with the least penetration, the
    /// horizontal one when both axes penetrate equally; `Inside` when no edge
    /// is straddled on either axis. This is the rule of bevy's
    /// `collide_aabb::collide`, over the integers.
    pub open spec fn contact_with(self, other: BoxView) -> Option<Contact> {
        if !self.overlaps(other) {
            None
        } else {
            let across = straddled_edge(self.min.x, self.max.x, other.min.x, other.max.x);
            let along = straddled_edge(self.min.y, self.max.y, other.min.y, other.max.y);
            match (across, along) {
                (None, None) => Some(Contact::Inside),
                (Some((edge, _)), None) => Some(horizontal_contact(edge)),
                (None, Some((edge, _))) => Some(vertical_contact(edge)),
                (Some((x_edge, x_depth)), Some((y_edge, y_depth))) => if y_depth < x_depth {
                    Some(vertical_contact(y_edge))
                } else {
                    Some(horizontal_contact(x_edge))
                },
            }
        }
    }
}

/// The contact that a straddled edge of the horizontal axis stands for.
pub open spec fn horizontal_contact(edge: Edge) -> Contact {
    match edge {
        Edge::Low => Contact::Left,
        Edge::High => Contact::Right,
    }
}

/// The contact that a straddled edge of the vertical axis stands for.
pub open spec fn vertical_contact(edge: Edge) -> Contact {
    match edge {
        Edge::Low => Contact::Bottom,
        Edge::High => Contact::Top,
    }
}

/// The boundary of the simulation: the rectangle from
/// `(-half_width, -half_height)` to `(half_width, half_height)`.
pub struct ArenaView {
    pub half_width: int,
    pub half_height: int,
}

/// A fixed square that moving bodies reflect off.
pub struct ColliderView {
    pub position: VectorView,
    pub extent: int,
}

impl ColliderView {
    /// The box that the collider covers.
    pub open spec fn bounds(self) -> BoxView {
        BoxView::around(self.position, self.extent)
    }
}

/// A moving square.
pub struct BodyView {
    pub position: VectorView,
    pub velocity: VectorView,
    pub extent: int,
}

impl BodyView {
    /// The box that the body covers.
    pub open spec fn bounds(self) -> BoxView {
        BoxView::around(self.position, self.extent)
    }

    /// The body with the horizontal component of its velocity inverted.
    pub open spec fn flipped_x(self) -> BodyView {
        BodyView {
            position: self.position,
            velocity: VectorView { x: -self.velocity.x, y: self.velocity.y },
            extent: self.extent,
        }
    }

    /// The body with the vertical component of its velocity inverted.
    pub open spec fn flipped_y(self) -> BodyView {
        BodyView {
            position: self.position,
            velocity: VectorView { x: self.velocity.x, y: -self.velocity.y },
            extent: self.extent,
        }
    }

    /// The body after `dt` ticks of free movement.
    pub open spec fn integrated(self, dt: nat) -> BodyView {
        BodyView {
            position: VectorView {
                x: self.position.x + self.velocity.x * dt,
                y: self.position.y + self.velocity.y * dt,
            },
            velocity: self.velocity,
            extent: self.extent,
        }
    }

    /// The body reaches past the left or the right wall.
    pub open spec fn beyond_side_walls(self, arena: ArenaView) -> bool {
        ||| self.position.x + self.extent > arena.half_width
        ||| self.position.x - self.extent < -arena.half_width
    }

    /// The body reaches past the top or the bottom wall.
    pub open spec fn beyond_end_walls(self, arena: ArenaView) -> bool {
        ||| self.position.y + self.extent > arena.half_height
        ||| self.position.y - self.extent < -arena.half_height
    }

    /// The body lies within the arena on both axes.
    pub open spec fn within(self, arena: ArenaView) -> bool {
        !self.beyond_side_walls(arena) && !self.beyond_end_walls(arena)
    }

    /// The body after the wall stage: each velocity component is inverted
    /// exactly when the body reaches past a wall of that axis. The position
    /// stays as it is.
    pub open spec fn wall_reflected(self, arena: ArenaView) -> BodyView {
        let across = if self.beyond_side_walls(arena) { self.flipped_x() } else { self };
        if self.beyond_end_walls(arena) { across.flipped_y() } else { across }
    }

    /// The velocity points into the touched side.
    pub open spec fn heads_into(self, contact: Contact) -> bool {
        match contact {
            Contact::Left => self.velocity.x > 0,
            Contact::Right => self.velocity.x < 0,
            Contact::Top => self.velocity.y < 0,
            Contact::Bottom => self.velocity.y > 0,
            Contact::Inside => false,
        }
    }

    /// The body after one contact: the velocity component across the touched
    /// side is inverted when it points into that side, and nothing changes
    /// otherwise.
    pub open spec fn contact_reflected(self, contact: Option<Contact>) -> BodyView {
        match contact {
            Some(side) if self.heads_into(side) => match side {
                Contact::Left | Contact::Right => self.flipped_x(),
                _ => self.flipped_y(),
            },
            _ => self,
        }
    }

    /// The body after meeting one collider.
    pub open spec fn resolved_against(self, collider: ColliderView) -> BodyView {
        self.contact_reflected(self.bounds().contact_with(collider.bounds()))
    }

    /// The body after meeting every collider in turn, the first one first.
    pub open spec fn resolved(self, colliders: Seq<ColliderView>) -> BodyView
        decreases colliders.len(),
    {
        if colliders.len() == 0 {
            self
        } else {
            self.resolved(colliders.drop_last()).resolved_against(colliders.last())
        }
    }

    /// The body after one frame: movement, then the walls, then the colliders.
    pub open spec fn stepped(self, dt: nat, arena: ArenaView, colliders: Seq<ColliderView>) -> BodyView {
        self.integrated(dt).wall_reflected(arena).resolved(colliders)
    }
}

} // verus!
