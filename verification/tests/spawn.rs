use bouncing_squares::{check_plan, place_body, spawn_row, RowPlan, SimError, Vector};
use rand::rngs::StdRng;
use rand::SeedableRng;

fn row() -> RowPlan {
    RowPlan {
        count: 499,
        origin: Vector::new(-495, 0),
        spacing: 5,
        extent: 10,
        speed_low: 1,
        speed_high: 100,
    }
}

#[test]
fn row_has_the_planned_places_and_extents() {
    let mut rng = StdRng::seed_from_u64(7);
    let bodies = spawn_row(&mut rng, &row()).unwrap();
    assert_eq!(bodies.len(), 499);
    assert_eq!(bodies[0].position(), Vector::new(-495, 0));
    assert_eq!(bodies[1].position(), Vector::new(-490, 0));
    assert_eq!(bodies[498].position(), Vector::new(1995, 0));
    for (k, body) in bodies.iter().enumerate() {
        assert_eq!(body.position(), Vector::new(-495 + 5 * k as i64, 0));
        assert_eq!(body.extent(), 10);
    }
}

#[test]
fn row_draws_speeds_from_the_planned_range() {
    let mut rng = StdRng::seed_from_u64(11);
    let bodies = spawn_row(&mut rng, &row()).unwrap();
    for body in bodies.iter() {
        let v = body.velocity();
        assert!(1 <= v.x && v.x < 100);
        assert!(1 <= v.y && v.y < 100);
    }
}

#[test]
fn row_draws_more_than_one_speed() {
    let mut rng = StdRng::seed_from_u64(3);
    let bodies = spawn_row(&mut rng, &row()).unwrap();
    let first = bodies[0].velocity();
    assert!(bodies.iter().any(|b| b.velocity().x != first.x));
    assert!(bodies.iter().any(|b| b.velocity().y != first.y));
    assert!(bodies.iter().any(|b| b.velocity().x != 1));
    assert!(bodies.iter().any(|b| b.velocity().x != 99));
}

#[test]
fn row_of_one_speed_has_that_speed() {
    let mut rng = StdRng::seed_from_u64(5);
    let plan = RowPlan { speed_low: -8, speed_high: -7, count: 20, ..row() };
    let bodies = spawn_row(&mut rng, &plan).unwrap();
    assert_eq!(bodies.len(), 20);
    for body in bodies.iter() {
        assert_eq!(body.velocity(), Vector::new(-8, -8));
    }
}

#[test]
fn equal_seeds_give_equal_rows() {
    let mut one = StdRng::seed_from_u64(42);
    let mut other = StdRng::seed_from_u64(42);
    let a = spawn_row(&mut one, &row()).unwrap();
    let b = spawn_row(&mut other, &row()).unwrap();
    for k in 0..a.len() {
        assert_eq!(a[k].velocity(), b[k].velocity());
        assert_eq!(a[k].position(), b[k].position());
    }
}

#[test]
fn empty_row_is_empty() {
    let mut rng = StdRng::seed_from_u64(1);
    let plan = RowPlan { count: 0, ..row() };
    assert_eq!(spawn_row(&mut rng, &plan).unwrap().len(), 0);
}

#[test]
fn row_may_run_to_the_left() {
    let mut rng = StdRng::seed_from_u64(1);
    let plan = RowPlan { count: 3, origin: Vector::new(10, -4), spacing: -7, ..row() };
    let bodies = spawn_row(&mut rng, &plan).unwrap();
    assert_eq!(bodies[0].position(), Vector::new(10, -4));
    assert_eq!(bodies[1].position(), Vector::new(3, -4));
    assert_eq!(bodies[2].position(), Vector::new(-4, -4));
}

#[test]
fn row_refuses_an_extent_that_is_not_positive() {
    let mut rng = StdRng::seed_from_u64(1);
    let plan = RowPlan { extent: 0, ..row() };
    assert_eq!(spawn_row(&mut rng, &plan).err(), Some(SimError::NonPositiveExtent));
    assert_eq!(check_plan(&plan), Err(SimError::NonPositiveExtent));
}

#[test]
fn row_refuses_an_empty_range_of_speeds() {
    let mut rng = StdRng::seed_from_u64(1);
    let plan = RowPlan { speed_low: 5, speed_high: 5, ..row() };
    assert_eq!(spawn_row(&mut rng, &plan).err(), Some(SimError::EmptySpeedRange));
    let reversed = RowPlan { speed_low: 6, speed_high: 5, ..row() };
    assert_eq!(spawn_row(&mut rng, &reversed).err(), Some(SimError::EmptySpeedRange));
    assert_eq!(check_plan(&reversed), Err(SimError::EmptySpeedRange));
}

#[test]
fn row_refuses_a_range_with_the_speed_that_has_no_negation() {
    let mut rng = StdRng::seed_from_u64(1);
    let plan = RowPlan { speed_low: i64::MIN, speed_high: 0, ..row() };
    assert_eq!(spawn_row(&mut rng, &plan).err(), Some(SimError::VelocityOutOfRange));
    assert_eq!(check_plan(&plan), Err(SimError::VelocityOutOfRange));
}

#[test]
fn row_refuses_a_last_place_outside_the_coordinates() {
    let mut rng = StdRng::seed_from_u64(1);
    let plan = RowPlan { count: 3, origin: Vector::new(i64::MAX - 9, 0), spacing: 5, ..row() };
    assert_eq!(spawn_row(&mut rng, &plan).err(), Some(SimError::PositionOverflow));
    assert_eq!(check_plan(&plan), Err(SimError::PositionOverflow));
    let fits = RowPlan { count: 2, ..plan };
    assert_eq!(check_plan(&fits), Ok(()));
    assert_eq!(spawn_row(&mut rng, &fits).unwrap()[1].position(), Vector::new(i64::MAX - 4, 0));
}

#[test]
fn row_reports_the_first_fault() {
    let plan = RowPlan {
        count: 3,
        origin: Vector::new(i64::MAX, 0),
        spacing: 5,
        extent: -1,
        speed_low: i64::MIN,
        speed_high: i64::MIN,
    };
    assert_eq!(check_plan(&plan), Err(SimError::NonPositiveExtent));
    assert_eq!(check_plan(&RowPlan { extent: 1, ..plan }), Err(SimError::EmptySpeedRange));
    assert_eq!(
        check_plan(&RowPlan { extent: 1, speed_high: 0, ..plan }),
        Err(SimError::VelocityOutOfRange)
    );
    assert_eq!(
        check_plan(&RowPlan { extent: 1, speed_low: -1, speed_high: 0, ..plan }),
        Err(SimError::PositionOverflow)
    );
}

#[test]
fn good_plan_passes_the_check() {
    assert_eq!(check_plan(&row()), Ok(()));
}

#[test]
fn place_body_builds_the_planned_square() {
    let body = place_body(&row(), 100, Vector::new(12, 34)).unwrap();
    assert_eq!(body.position(), Vector::new(5, 0));
    assert_eq!(body.velocity(), Vector::new(12, 34));
    assert_eq!(body.extent(), 10);
}

#[test]
fn place_body_takes_any_velocity_that_can_be_inverted() {
    let body = place_body(&row(), 0, Vector::new(-500, 0)).unwrap();
    assert_eq!(body.velocity(), Vector::new(-500, 0));
}

#[test]
fn place_body_reports_each_fault() {
    let no_extent = RowPlan { extent: 0, ..row() };
    assert_eq!(
        place_body(&no_extent, 0, Vector::new(i64::MIN, 1)).err(),
        Some(SimError::NonPositiveExtent)
    );
    assert_eq!(
        place_body(&row(), 0, Vector::new(1, i64::MIN)).err(),
        Some(SimError::VelocityOutOfRange)
    );
    let far = RowPlan { origin: Vector::new(i64::MAX - 9, 0), ..row() };
    assert_eq!(place_body(&far, 2, Vector::new(1, 1)).err(), Some(SimError::PositionOverflow));
    assert_eq!(place_body(&far, 1, Vector::new(1, 1)).unwrap().position().x, i64::MAX - 4);
    let wide = RowPlan { origin: Vector::new(0, 0), spacing: i64::MIN, ..row() };
    assert_eq!(place_body(&wide, 1, Vector::new(1, 1)).unwrap().position().x, i64::MIN);
    assert_eq!(
        place_body(&wide, u32::MAX, Vector::new(1, 1)).err(),
        Some(SimError::PositionOverflow)
    );
}
