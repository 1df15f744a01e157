use bevy::math::{Vec2, Vec3};
use bevy::sprite::collide_aabb::{collide, Collision};
use bouncing_squares::{contact_side, Body, Collider, Contact, Vector};

fn by_bevy(a: (i64, i64, i64), b: (i64, i64, i64)) -> Option<Contact> {
    let found = collide(
        Vec3::new(a.0 as f32, a.1 as f32, 0.0),
        Vec2::new(2.0 * a.2 as f32, 2.0 * a.2 as f32),
        Vec3::new(b.0 as f32, b.1 as f32, 0.0),
        Vec2::new(2.0 * b.2 as f32, 2.0 * b.2 as f32),
    );
    match found {
        Some(Collision::Left) => Some(Contact::Left),
        Some(Collision::Right) => Some(Contact::Right),
        Some(Collision::Top) => Some(Contact::Top),
        Some(Collision::Bottom) => Some(Contact::Bottom),
        Some(Collision::Inside) => Some(Contact::Inside),
        None => None,
    }
}

fn by_library(a: (i64, i64, i64), b: (i64, i64, i64)) -> Option<Contact> {
    let body = Body::new(Vector::new(a.0, a.1), Vector::new(1, 1), a.2).unwrap();
    let collider = Collider::new(Vector::new(b.0, b.1), b.2).unwrap();
    contact_side(&body, &collider)
}

#[test]
fn contact_side_agrees_with_bevy_on_a_grid() {
    let mut seen = [0usize; 6];
    for a_extent in 1..5i64 {
        for b_extent in 1..5i64 {
            for x in -10..11i64 {
                for y in -10..11i64 {
                    let a = (x, y, a_extent);
                    let b = (0, 0, b_extent);
                    let ours = by_library(a, b);
                    assert_eq!(ours, by_bevy(a, b), "body {:?}, collider {:?}", a, b);
                    let slot = match ours {
                        None => 0,
                        Some(Contact::Left) => 1,
                        Some(Contact::Right) => 2,
                        Some(Contact::Top) => 3,
                        Some(Contact::Bottom) => 4,
                        Some(Contact::Inside) => 5,
                    };
                    seen[slot] += 1;
                }
            }
        }
    }
    assert!(seen.iter().all(|&count| count > 0));
}

#[test]
fn contact_side_agrees_with_bevy_away_from_the_origin() {
    for dx in -30..31i64 {
        for dy in -30..31i64 {
            let a = (1000 + dx, -2000 + dy, 10);
            let b = (1000, -2000, 10);
            assert_eq!(by_library(a, b), by_bevy(a, b), "body {:?}, collider {:?}", a, b);
        }
    }
}
