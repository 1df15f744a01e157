//! What holds of the stages for all inputs, proved over the model.

use vstd::prelude::*;
use crate::model::{ArenaView, BodyView, ColliderView, Contact};
use crate::vector::VectorView;
use crate::world::WorldView;

verus! {

/// Movement is exact: the new position is the old one plus velocity times
/// time, and velocity and extent are not touched.
pub proof fn movement_is_exact(body: BodyView, dt: nat)
    ensures
        body.integrated(dt).position.x == body.position.x + body.velocity.x * dt,
        body.integrated(dt).position.y == body.position.y + body.velocity.y * dt,
        body.integrated(dt).velocity == body.velocity,
        body.integrated(dt).extent == body.extent,
{
}

/// A step of zero ticks changes nothing.
pub proof fn zero_step_changes_nothing(body: BodyView)
    ensures
        body.integrated(0) == body,
{
}

/// Movement is linear in time: two steps in a row are one step of their sum.
pub proof fn steps_add_up(body: BodyView, first: nat, second: nat)
    ensures
        body.integrated(first).integrated(second) == body.integrated(first + second),
{
    assert(body.velocity.x * (first + second) == body.velocity.x * first + body.velocity.x * second)
        by (nonlinear_arith);
    assert(body.velocity.y * (first + second) == body.velocity.y * first + body.velocity.y * second)
        by (nonlinear_arith);
}

/// Movement is linear in time: a step of `times * dt` ticks displaces the body
/// `times` times as far as a step of `dt` ticks.
pub proof fn displacement_scales(body: BodyView, dt: nat, times: nat)
    ensures
        body.integrated(times * dt).position.x - body.position.x == times * (body.integrated(
            dt,
        ).position.x - body.position.x),
        body.integrated(times * dt).position.y - body.position.y == times * (body.integrated(
            dt,
        ).position.y - body.position.y),
{
    assert(body.velocity.x * (times * dt) == times * (body.velocity.x * dt)) by (nonlinear_arith);
    assert(body.velocity.y * (times * dt) == times * (body.velocity.y * dt)) by (nonlinear_arith);
}

/// A body that reaches one sub-unit past the right wall and moves along the
/// horizontal axis leaves the wall stage with its velocity inverted, and so
/// does its mirror image at the left wall.
pub proof fn wall_reflection_is_symmetric(extent: int, speed: int, arena: ArenaView)
    ensures
        ({
            let body = BodyView {
                position: VectorView { x: arena.half_width - extent + 1, y: 0 },
                velocity: VectorView { x: speed, y: 0 },
                extent,
            };
            body.wall_reflected(arena) == body.flipped_x() && body.flipped_x().velocity == (
            VectorView { x: -speed, y: 0 })
        }),
        ({
            let mirrored = BodyView {
                position: VectorView { x: -(arena.half_width - extent + 1), y: 0 },
                velocity: VectorView { x: -speed, y: 0 },
                extent,
            };
            mirrored.wall_reflected(arena) == mirrored.flipped_x() && mirrored.flipped_x().velocity
                == (VectorView { x: speed, y: 0 })
        }),
{
}

/// The wall stage leaves a body that lies within the arena as it is.
pub proof fn walls_spare_bodies_within(body: BodyView, arena: ArenaView)
    requires
        body.within(arena),
    ensures
        body.wall_reflected(arena) == body,
{
}

/// A body that reaches past a side wall and past an end wall in the same
/// frame has both components of its velocity inverted.
pub proof fn corner_inverts_both_axes(body: BodyView, arena: ArenaView)
    requires
        body.beyond_side_walls(arena),
        body.beyond_end_walls(arena),
    ensures
        body.wall_reflected(arena).velocity == (VectorView {
            x: -body.velocity.x,
            y: -body.velocity.y,
        }),
{
}

/// The wall stage decides each axis by itself: the horizontal component is
/// inverted exactly when the body reaches past a side wall, the vertical one
/// exactly when it reaches past an end wall.
pub proof fn walls_decide_each_axis(body: BodyView, arena: ArenaView)
    ensures
        body.wall_reflected(arena).velocity.x == if body.beyond_side_walls(arena) {
            -body.velocity.x
        } else {
            body.velocity.x
        },
        body.wall_reflected(arena).velocity.y == if body.beyond_end_walls(arena) {
            -body.velocity.y
        } else {
            body.velocity.y
        },
        body.wall_reflected(arena).position == body.position,
        body.wall_reflected(arena).extent == body.extent,
{
}

/// A body that moves away from the side it touches, or along it, is not
/// changed by the contact; so a body that touches the left side of a collider
/// while it moves to the left keeps its velocity.
pub proof fn receding_body_is_spared(body: BodyView, collider: ColliderView)
    requires
        body.bounds().contact_with(collider.bounds()) matches Some(side) && !body.heads_into(side),
    ensures
        body.resolved_against(collider) == body,
{
}

/// A contact on the left side does not change a body that moves to the left.
pub proof fn left_contact_spares_leftward_body(body: BodyView, collider: ColliderView)
    requires
        body.bounds().contact_with(collider.bounds()) == Some(Contact::Left),
        body.velocity.x < 0,
    ensures
        body.resolved_against(collider) == body,
{
}

/// Once a body has met a collider, meeting it again changes nothing: the
/// contact has turned it away from the side it touches.
pub proof fn second_contact_changes_nothing(body: BodyView, collider: ColliderView)
    ensures
        body.resolved_against(collider).resolved_against(collider) == body.resolved_against(
            collider,
        ),
{
}

/// The contact `Inside` changes nothing.
pub proof fn inside_changes_nothing(body: BodyView)
    ensures
        body.contact_reflected(Some(Contact::Inside)) == body,
        body.contact_reflected(None) == body,
{
}

/// A body that lies within a collider on both axes is classified `Inside`
/// and keeps its velocity.
pub proof fn contained_body_is_inside(body: BodyView, collider: ColliderView)
    requires
        body.extent > 0,
        collider.bounds().min.x <= body.bounds().min.x,
        body.bounds().max.x <= collider.bounds().max.x,
        collider.bounds().min.y <= body.bounds().min.y,
        body.bounds().max.y <= collider.bounds().max.y,
    ensures
        body.bounds().contact_with(collider.bounds()) == Some(Contact::Inside),
        body.resolved_against(collider) == body,
{
}

/// There is a contact exactly when the interiors of the two squares meet.
pub proof fn contact_means_overlap(body: BodyView, collider: ColliderView)
    ensures
        body.bounds().contact_with(collider.bounds()) is Some <==> body.bounds().overlaps(
            collider.bounds(),
        ),
{
}

/// The touched side faces the body: with a contact on the left the centre of
/// the body lies left of the centre of the collider, and so on for the other
/// three sides.
pub proof fn touched_side_faces_body(body: BodyView, collider: ColliderView)
    ensures
        body.bounds().contact_with(collider.bounds()) == Some(Contact::Left) ==> body.position.x
            < collider.position.x,
        body.bounds().contact_with(collider.bounds()) == Some(Contact::Right) ==> body.position.x
            > collider.position.x,
        body.bounds().contact_with(collider.bounds()) == Some(Contact::Bottom) ==> body.position.y
            < collider.position.y,
        body.bounds().contact_with(collider.bounds()) == Some(Contact::Top) ==> body.position.y
            > collider.position.y,
{
}

/// Mirroring both squares at the vertical axis exchanges `Left` and `Right`
/// and keeps every other outcome.
pub proof fn mirror_exchanges_left_and_right(body: BodyView, collider: ColliderView)
    ensures
        ({
            let mirrored_body = BodyView {
                position: VectorView { x: -body.position.x, y: body.position.y },
                velocity: body.velocity,
                extent: body.extent,
            };
            let mirrored_collider = ColliderView {
                position: VectorView { x: -collider.position.x, y: collider.position.y },
                extent: collider.extent,
            };
            mirrored_body.bounds().contact_with(mirrored_collider.bounds()) == match body.bounds().contact_with(
                collider.bounds(),
            ) {
                Some(Contact::Left) => Some(Contact::Right),
                Some(Contact::Right) => Some(Contact::Left),
                other => other,
            }
        }),
{
}

/// A contact leaves position and extent alone, and each component of the
/// velocity keeps its size.
pub proof fn contact_keeps_place_and_speed(body: BodyView, contact: Option<Contact>)
    ensures
        body.contact_reflected(contact).position == body.position,
        body.contact_reflected(contact).extent == body.extent,
        body.contact_reflected(contact).velocity.x == body.velocity.x || body.contact_reflected(
            contact,
        ).velocity.x == -body.velocity.x,
        body.contact_reflected(contact).velocity.y == body.velocity.y || body.contact_reflected(
            contact,
        ).velocity.y == -body.velocity.y,
{
}

/// The overlap stage leaves position and extent alone, and each component of
/// the velocity keeps its size, however many colliders there are.
pub proof fn overlap_keeps_place_and_speed(body: BodyView, colliders: Seq<ColliderView>)
    ensures
        body.resolved(colliders).position == body.position,
        body.resolved(colliders).extent == body.extent,
        body.resolved(colliders).velocity.x == body.velocity.x || body.resolved(
            colliders,
        ).velocity.x == -body.velocity.x,
        body.resolved(colliders).velocity.y == body.velocity.y || body.resolved(
            colliders,
        ).velocity.y == -body.velocity.y,
    decreases colliders.len(),
{
    if colliders.len() > 0 {
        let before = body.resolved(colliders.drop_last());
        overlap_keeps_place_and_speed(body, colliders.drop_last());
        contact_keeps_place_and_speed(
            before,
            before.bounds().contact_with(colliders.last().bounds()),
        );
    }
}

/// Without colliders the overlap stage changes nothing.
pub proof fn no_colliders_no_change(body: BodyView)
    ensures
        body.resolved(Seq::<ColliderView>::empty()) == body,
{
}

/// A body that overlaps none of the colliders leaves the overlap stage as it
/// entered it.
pub proof fn clear_body_is_unchanged(body: BodyView, colliders: Seq<ColliderView>)
    requires
        forall|i: int|
            0 <= i < colliders.len() ==> !body.bounds().overlaps((#[trigger] colliders[i]).bounds()),
    ensures
        body.resolved(colliders) == body,
    decreases colliders.len(),
{
    if colliders.len() > 0 {
        clear_body_is_unchanged(body, colliders.drop_last());
        assert(colliders.last() == colliders[colliders.len() - 1]);
    }
}

/// A frame never changes the extent of a body, and it moves the body exactly
/// as the movement stage does; only the sign of a velocity component can
/// differ.
pub proof fn frame_keeps_extent_and_speed(
    body: BodyView,
    dt: nat,
    arena: ArenaView,
    colliders: Seq<ColliderView>,
)
    ensures
        body.stepped(dt, arena, colliders).extent == body.extent,
        body.stepped(dt, arena, colliders).position == body.integrated(dt).position,
        body.stepped(dt, arena, colliders).velocity.x == body.velocity.x || body.stepped(
            dt,
            arena,
            colliders,
        ).velocity.x == -body.velocity.x,
        body.stepped(dt, arena, colliders).velocity.y == body.velocity.y || body.stepped(
            dt,
            arena,
            colliders,
        ).velocity.y == -body.velocity.y,
{
    overlap_keeps_place_and_speed(body.integrated(dt).wall_reflected(arena), colliders);
}

/// Running each stage over all bodies before the next stage begins gives every
/// body what the three stages give it alone: no body depends on another one.
/// A frame neither adds nor removes a record, and it leaves the colliders as
/// they are.
pub proof fn frame_treats_bodies_alone(world: WorldView, dt: nat, arena: ArenaView)
    ensures
        world.stepped(dt, arena).colliders == world.colliders,
        world.stepped(dt, arena).bodies.len() == world.bodies.len(),
        forall|i: int|
            0 <= i < world.bodies.len() ==> #[trigger] world.stepped(dt, arena).bodies[i]
                == world.bodies[i].stepped(dt, arena, world.colliders),
{
}

/// No frame changes the extent of any body.
pub proof fn frame_keeps_every_extent(world: WorldView, dt: nat, arena: ArenaView)
    ensures
        forall|i: int|
            0 <= i < world.bodies.len() ==> (#[trigger] world.stepped(dt, arena).bodies[i]).extent
                == world.bodies[i].extent,
{
    frame_treats_bodies_alone(world, dt, arena);
    assert forall|i: int| 0 <= i < world.bodies.len() implies (#[trigger] world.stepped(
        dt,
        arena,
    ).bodies[i]).extent == world.bodies[i].extent by {
        frame_keeps_extent_and_speed(world.bodies[i], dt, arena, world.colliders);
    }
}

} // verus!
