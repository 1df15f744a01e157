use bouncing_squares::{
    beyond_end_walls, beyond_side_walls, reflect_off_walls, Arena, Body, Vector,
};

fn body(px: i64, py: i64, vx: i64, vy: i64, extent: i64) -> Body {
    Body::new(Vector::new(px, py), Vector::new(vx, vy), extent).unwrap()
}

#[test]
fn body_one_past_the_right_wall_turns_back() {
    let arena = Arena::new(45, 100);
    let reflected = reflect_off_walls(&body(45 - 10 + 1, 0, 7, 0, 10), &arena);
    assert_eq!(reflected.velocity(), Vector::new(-7, 0));
    assert_eq!(reflected.position(), Vector::new(36, 0));
    assert_eq!(reflected.extent(), 10);
}

#[test]
fn body_one_past_the_left_wall_turns_back() {
    let arena = Arena::new(45, 100);
    let reflected = reflect_off_walls(&body(-(45 - 10 + 1), 0, -7, 0, 10), &arena);
    assert_eq!(reflected.velocity(), Vector::new(7, 0));
    assert_eq!(reflected.position(), Vector::new(-36, 0));
}

#[test]
fn body_past_a_wall_is_inverted_whatever_its_direction() {
    let arena = Arena::new(45, 100);
    let reflected = reflect_off_walls(&body(36, 0, -7, 3, 10), &arena);
    assert_eq!(reflected.velocity(), Vector::new(7, 3));
}

#[test]
fn body_within_the_arena_is_left_alone() {
    let arena = Arena::new(45, 100);
    let start = body(20, -30, 7, -9, 10);
    let reflected = reflect_off_walls(&start, &arena);
    assert_eq!(reflected.velocity(), Vector::new(7, -9));
    assert_eq!(reflected.position(), Vector::new(20, -30));
}

#[test]
fn body_that_touches_a_wall_is_left_alone() {
    let arena = Arena::new(45, 100);
    assert_eq!(reflect_off_walls(&body(35, 90, 7, 9, 10), &arena).velocity(), Vector::new(7, 9));
    assert_eq!(
        reflect_off_walls(&body(-35, -90, -7, -9, 10), &arena).velocity(),
        Vector::new(-7, -9)
    );
}

#[test]
fn body_past_the_top_wall_inverts_only_the_vertical_speed() {
    let arena = Arena::new(45, 100);
    let reflected = reflect_off_walls(&body(0, 91, 7, 9, 10), &arena);
    assert_eq!(reflected.velocity(), Vector::new(7, -9));
}

#[test]
fn body_past_the_bottom_wall_inverts_only_the_vertical_speed() {
    let arena = Arena::new(45, 100);
    let reflected = reflect_off_walls(&body(0, -91, 7, -9, 10), &arena);
    assert_eq!(reflected.velocity(), Vector::new(7, 9));
}

#[test]
fn body_in_a_corner_inverts_both_speeds() {
    let arena = Arena::new(45, 100);
    let reflected = reflect_off_walls(&body(40, 95, 7, 9, 10), &arena);
    assert_eq!(reflected.velocity(), Vector::new(-7, -9));
    assert_eq!(reflected.position(), Vector::new(40, 95));
    let opposite = reflect_off_walls(&body(-40, -95, -7, -9, 10), &arena);
    assert_eq!(opposite.velocity(), Vector::new(7, 9));
}

#[test]
fn body_wider_than_the_arena_is_past_both_side_walls() {
    let arena = Arena::new(5, 100);
    assert!(beyond_side_walls(&body(0, 0, 1, 1, 10), &arena));
    assert!(!beyond_end_walls(&body(0, 0, 1, 1, 10), &arena));
    assert_eq!(reflect_off_walls(&body(0, 0, 1, 1, 10), &arena).velocity(), Vector::new(-1, 1));
}

#[test]
fn wall_tests_tell_the_axes_apart() {
    let arena = Arena::new(45, 100);
    assert!(beyond_side_walls(&body(36, 0, 1, 1, 10), &arena));
    assert!(!beyond_side_walls(&body(35, 0, 1, 1, 10), &arena));
    assert!(beyond_side_walls(&body(-36, 0, 1, 1, 10), &arena));
    assert!(beyond_end_walls(&body(0, 91, 1, 1, 10), &arena));
    assert!(!beyond_end_walls(&body(0, 90, 1, 1, 10), &arena));
    assert!(beyond_end_walls(&body(0, -91, 1, 1, 10), &arena));
}

#[test]
fn wall_tests_bear_extreme_values() {
    let arena = Arena::new(i64::MIN, i64::MAX);
    let far = body(i64::MAX, i64::MIN, 1, 1, i64::MAX);
    assert!(beyond_side_walls(&far, &arena));
    assert!(beyond_end_walls(&far, &arena));
    assert_eq!(reflect_off_walls(&far, &arena).velocity(), Vector::new(-1, -1));
}

#[test]
fn wall_stage_twice_restores_the_velocity() {
    let arena = Arena::new(45, 100);
    let start = body(40, 95, 7, 9, 10);
    let twice = reflect_off_walls(&reflect_off_walls(&start, &arena), &arena);
    assert_eq!(twice.velocity(), start.velocity());
}
