//! The overlap stage: every body is tested against every collider, the
//! touched side is classified, and the velocity is inverted across that side
//! when it points into it.

use vstd::prelude::*;
use crate::body::{Body, Collider};
use crate::model::{
    horizontal_contact, straddled_edge, vertical_contact, ColliderView, Contact, Edge,
};

verus! {

/// The views of a sequence of colliders, in the same order.
pub open spec fn collider_views(colliders: Seq<Collider>) -> Seq<ColliderView> {
    colliders.map_values(|collider: Collider| collider@)
}

/// Which edge of `[b_min, b_max]` the interval `[a_min, a_max]` straddles, and
/// how deep it reaches past it.
fn straddle(a_min: i128, a_max: i128, b_min: i128, b_max: i128) -> (found: Option<(Edge, i128)>)
    requires
        -0x1_0000_0000_0000_0000 <= a_min <= 0x1_0000_0000_0000_0000,
        -0x1_0000_0000_0000_0000 <= a_max <= 0x1_0000_0000_0000_0000,
        -0x1_0000_0000_0000_0000 <= b_min <= 0x1_0000_0000_0000_0000,
        -0x1_0000_0000_0000_0000 <= b_max <= 0x1_0000_0000_0000_0000,
    ensures
        match found {
            Some((edge, depth)) => straddled_edge(a_min as int, a_max as int, b_min as int, b_max as int)
                == Some((edge, depth as int)),
            None => straddled_edge(a_min as int, a_max as int, b_min as int, b_max as int) is None,
        },
{
    if a_min < b_min && b_min < a_max && a_max < b_max {
        Some((Edge::Low, a_max - b_min))
    } else if b_min < a_min && a_min < b_max && b_max < a_max {
        Some((Edge::High, b_max - a_min))
    } else {
        None
    }
}

/// The side of `collider` that `body` touches, or `None` when the two squares
/// do not overlap.
pub fn contact_side(body: &Body, collider: &Collider) -> (contact: Option<Contact>)
    ensures
        contact == body@.bounds().contact_with(collider@.bounds()),
{
    let a_pos = body.position();
    let a_extent: i128 = body.extent() as i128;
    let b_pos = collider.position();
    let b_extent: i128 = collider.extent() as i128;
    let a_min_x: i128 = a_pos.x as i128 - a_extent;
    let a_max_x: i128 = a_pos.x as i128 + a_extent;
    let a_min_y: i128 = a_pos.y as i128 - a_extent;
    let a_max_y: i128 = a_pos.y as i128 + a_extent;
    let b_min_x: i128 = b_pos.x as i128 - b_extent;
    let b_max_x: i128 = b_pos.x as i128 + b_extent;
    let b_min_y: i128 = b_pos.y as i128 - b_extent;
    let b_max_y: i128 = b_pos.y as i128 + b_extent;
    if !(a_min_x < b_max_x && b_min_x < a_max_x && a_min_y < b_max_y && b_min_y < a_max_y) {
        return None;
    }
    let across = straddle(a_min_x, a_max_x, b_min_x, b_max_x);
    let along = straddle(a_min_y, a_max_y, b_min_y, b_max_y);
    match (across, along) {
        (None, None) => Some(Contact::Inside),
        (Some((edge, _)), None) => Some(horizontal(edge)),
        (None, Some((edge, _))) => Some(vertical(edge)),
        (Some((x_edge, x_depth)), Some((y_edge, y_depth))) => if y_depth < x_depth {
            Some(vertical(y_edge))
        } else {
            Some(horizontal(x_edge))
        },
    }
}

/// The contact that a straddled edge of the horizontal axis stands for.
fn horizontal(edge: Edge) -> (contact: Contact)
    ensures
        contact == horizontal_contact(edge),
{
    match edge {
        Edge::Low => Contact::Left,
        Edge::High => Contact::Right,
    }
}

/// The contact that a straddled edge of the vertical axis stands for.
fn vertical(edge: Edge) -> (contact: Contact)
    ensures
        contact == vertical_contact(edge),
{
    match edge {
        Edge::Low => Contact::Bottom,
        Edge::High => Contact::Top,
    }
}

/// The body after one contact: the velocity component across the touched side
/// is inverted when it points into that side; without a contact, or with
/// `Inside`, the body stays as it is.
pub fn reflect_on_contact(body: &Body, contact: Option<Contact>) -> (reflected: Body)
    ensures
        reflected@ == body@.contact_reflected(contact),
{
    let velocity = body.velocity();
    match contact {
        Some(Contact::Left) => if velocity.x > 0 { body.flipped_x() } else { *body },
        Some(Contact::Right) => if velocity.x < 0 { body.flipped_x() } else { *body },
        Some(Contact::Top) => if velocity.y < 0 { body.flipped_y() } else { *body },
        Some(Contact::Bottom) => if velocity.y > 0 { body.flipped_y() } else { *body },
        Some(Contact::Inside) => *body,
        None => *body,
    }
}

/// The body after meeting one collider.
pub fn resolve_against(body: &Body, collider: &Collider) -> (resolved: Body)
    ensures
        resolved@ == body@.resolved_against(collider@),
{
    reflect_on_contact(body, contact_side(body, collider))
}

/// The body after meeting every collider in turn, the first one first. Each
/// collider sees the velocity that the ones before it left.
pub fn resolve(body: &Body, colliders: &Vec<Collider>) -> (resolved: Body)
    ensures
        resolved@ == body@.resolved(collider_views(colliders@)),
{
    let mut current: Body = *body;
    let mut i: usize = 0;
    while i < colliders.len()
        invariant
            i <= colliders.len(),
            current@ == body@.resolved(collider_views(colliders@).take(i as int)),
        decreases colliders.len() - i,
    {
        proof {
            let views = collider_views(colliders@);
            assert(views.take(i + 1).drop_last() =~= views.take(i as int));
            assert(views.take(i + 1).last() == colliders@[i as int]@);
        }
        current = resolve_against(&current, &colliders[i]);
        i += 1;
    }
    proof {
        let views = collider_views(colliders@);
        assert(views.take(colliders.len() as int) =~= views);
    }
    current
}

} // verus!
