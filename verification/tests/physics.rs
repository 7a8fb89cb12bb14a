use gl_pong::fixed::{div_round, saturate_i128, saturate_i64, UNIT};
use gl_pong::ball::{check_collision, resolve_collision, Ball};
use gl_pong::physics::{calculate_bounce_velocity, Surface, Vec2};

fn units(x: f64, y: f64) -> Vec2 {
    Vec2::new((x * UNIT as f64).round() as i32, (y * UNIT as f64).round() as i32)
}

fn floor() -> Surface {
    Surface { a: units(-1.0, -1.0), b: units(1.0, -1.0) }
}

#[test]
fn division_rounds_to_nearest_and_ties_away_from_zero() {
    assert_eq!(div_round(7, 2), 4);
    assert_eq!(div_round(-7, 2), -4);
    assert_eq!(div_round(6, 4), 2);
    assert_eq!(div_round(5, 4), 1);
    assert_eq!(div_round(-5, 4), -1);
    assert_eq!(div_round(0, 9), 0);
    assert_eq!(div_round(12, 3), 4);
    assert_eq!(div_round(-12, 3), -4);
    assert_eq!(div_round(1, 3), 0);
    assert_eq!(div_round(2, 3), 1);
}

#[test]
fn saturation_keeps_values_in_range() {
    assert_eq!(saturate_i64(5), 5);
    assert_eq!(saturate_i64(i64::MAX), i32::MAX);
    assert_eq!(saturate_i64(i64::MIN), i32::MIN);
    assert_eq!(saturate_i128(-3), -3);
    assert_eq!(saturate_i128(1 << 40), i32::MAX);
    assert_eq!(saturate_i128(-(1 << 40)), i32::MIN);
}

#[test]
fn a_degenerate_segment_is_its_own_closest_point() {
    let point = units(0.3, -0.7);
    let surface = Surface { a: point, b: point };
    for query in [units(0.0, 0.0), units(5.0, -9.0), point, Vec2::new(i32::MAX, i32::MIN)] {
        assert_eq!(surface.find_closest_point(&query), point);
    }
}

#[test]
fn closest_point_is_the_projection_held_between_the_ends() {
    let surface = floor();
    assert_eq!(surface.find_closest_point(&units(0.0, -0.99)), units(0.0, -1.0));
    assert_eq!(surface.find_closest_point(&units(0.25, 0.5)), units(0.25, -1.0));
    assert_eq!(surface.find_closest_point(&units(-3.0, 0.0)), units(-1.0, -1.0));
    assert_eq!(surface.find_closest_point(&units(7.0, -2.0)), units(1.0, -1.0));
    assert_eq!(surface.find_closest_point(&surface.a), surface.a);
    assert_eq!(surface.find_closest_point(&surface.b), surface.b);

    let diagonal = Surface { a: units(0.0, 0.0), b: units(1.0, 1.0) };
    assert_eq!(diagonal.find_closest_point(&units(1.0, 0.0)), units(0.5, 0.5));
    assert_eq!(diagonal.find_closest_point(&units(0.0, 0.5)), units(0.25, 0.25));
    assert_eq!(diagonal.find_closest_point(&units(-1.0, -1.0)), units(0.0, 0.0));
}

#[test]
fn closest_point_is_rounded_to_the_nearest_millionth() {
    let surface = Surface { a: Vec2::new(0, 0), b: Vec2::new(3, 0) };
    assert_eq!(surface.find_closest_point(&Vec2::new(1, 5)), Vec2::new(1, 0));
    let slanted = Surface { a: Vec2::new(0, 0), b: Vec2::new(3, 1) };
    // the projection of (1, 0) is (0.9, 0.3)
    assert_eq!(slanted.find_closest_point(&Vec2::new(1, 0)), Vec2::new(1, 0));
    // the projection of (2, 0) is (1.8, 0.6)
    assert_eq!(slanted.find_closest_point(&Vec2::new(2, 0)), Vec2::new(2, 1));
}

#[test]
fn closest_point_at_the_ends_of_the_range() {
    let surface = Surface {
        a: Vec2::new(i32::MIN, i32::MIN),
        b: Vec2::new(i32::MAX, i32::MAX),
    };
    assert_eq!(surface.find_closest_point(&Vec2::new(i32::MAX, i32::MAX)), surface.b);
    assert_eq!(surface.find_closest_point(&Vec2::new(i32::MIN, i32::MIN)), surface.a);
    let closest = surface.find_closest_point(&Vec2::new(i32::MAX, i32::MIN));
    assert!(closest.x == closest.y);
    assert!(closest.x == 0 || closest.x == -1);
}

#[test]
fn a_ball_within_its_radius_of_the_floor_collides() {
    let near = Ball::with_motion(0, 20_000, units(0.0, -0.99), units(0.0, 0.0));
    assert!(check_collision(&near, &floor()));
    let far = Ball::with_motion(0, 20_000, units(0.0, -0.9), units(0.0, 0.0));
    assert!(!check_collision(&far, &floor()));
}

#[test]
fn touching_exactly_counts_as_a_collision() {
    let touching = Ball::with_motion(0, 20_000, units(0.0, -0.98), units(0.0, 0.0));
    assert!(check_collision(&touching, &floor()));
    let just_off = Ball::with_motion(0, 20_000, Vec2::new(0, -979_999), units(0.0, 0.0));
    assert!(!check_collision(&just_off, &floor()));
    let beside = Ball::with_motion(0, 20_000, units(1.012, -1.016), units(0.0, 0.0));
    // 12 and 16 thousandths from the end of the floor: exactly 20 away
    assert!(check_collision(&beside, &floor()));
    let beyond = Ball::with_motion(0, 20_000, Vec2::new(1_012_001, -1_016_000), units(0.0, 0.0));
    assert!(!check_collision(&beyond, &floor()));
}

#[test]
fn a_ball_of_negative_radius_touches_nothing() {
    let ball = Ball::with_motion(0, -1, units(0.0, -1.0), units(0.0, 0.0));
    assert!(!check_collision(&ball, &floor()));
    let point = Ball::with_motion(0, 0, units(0.0, -1.0), units(0.0, 0.0));
    assert!(check_collision(&point, &floor()));
}

#[test]
fn a_horizontal_surface_turns_the_vertical_velocity_around() {
    let incoming = Vec2::new(1000, -1000);
    assert_eq!(calculate_bounce_velocity(&floor(), incoming, 0), Vec2::new(1000, 1000));
    let ceiling = Surface { a: units(1.0, 1.0), b: units(-1.0, 1.0) };
    assert_eq!(
        calculate_bounce_velocity(&ceiling, Vec2::new(-300, 700), 0),
        Vec2::new(-300, -700)
    );
}

#[test]
fn a_vertical_surface_turns_the_horizontal_velocity_around() {
    let edge = Surface { a: units(0.96, -0.1), b: units(0.96, 0.1) };
    assert_eq!(
        calculate_bounce_velocity(&edge, Vec2::new(1000, 300), 1_500_000),
        Vec2::new(-1000, 300)
    );
}

#[test]
fn a_surface_at_any_angle_mirrors_the_velocity() {
    let diagonal = Surface { a: units(0.0, 0.0), b: units(1.0, 1.0) };
    assert_eq!(calculate_bounce_velocity(&diagonal, Vec2::new(1000, 0), 0), Vec2::new(0, 1000));
    assert_eq!(calculate_bounce_velocity(&diagonal, Vec2::new(0, 1000), 0), Vec2::new(1000, 0));
    assert_eq!(
        calculate_bounce_velocity(&diagonal, Vec2::new(500, 500), 0),
        Vec2::new(500, 500)
    );
    // direction (3, 4), normal (-4, 3): v - 2 (v.n) n / 25
    let slope = Surface { a: Vec2::new(0, 0), b: Vec2::new(3, 4) };
    assert_eq!(calculate_bounce_velocity(&slope, Vec2::new(25, 0), 0), Vec2::new(-7, 24));
    // (10, 0) goes to (-2.8, 9.6), rounded to the nearest whole numbers
    assert_eq!(calculate_bounce_velocity(&slope, Vec2::new(10, 0), 0), Vec2::new(-3, 10));
}

#[test]
fn the_bounce_factor_has_no_effect() {
    let slope = Surface { a: Vec2::new(0, 0), b: Vec2::new(3, 4) };
    let velocity = Vec2::new(1234, -567);
    let plain = calculate_bounce_velocity(&slope, velocity, 0);
    assert_eq!(calculate_bounce_velocity(&slope, velocity, 1_500_000), plain);
    assert_eq!(calculate_bounce_velocity(&slope, velocity, -1), plain);
}

#[test]
fn a_degenerate_surface_reflects_nothing() {
    let point = Surface { a: units(0.5, 0.5), b: units(0.5, 0.5) };
    let velocity = Vec2::new(-1000, 300);
    assert_eq!(calculate_bounce_velocity(&point, velocity, 0), velocity);
}

#[test]
fn reflection_stays_within_range() {
    let diagonal = Surface { a: units(0.0, 0.0), b: units(1.0, -1.0) };
    let velocity = Vec2::new(i32::MAX, 0);
    // mirrored at the falling diagonal: (0, -i32::MAX)
    assert_eq!(calculate_bounce_velocity(&diagonal, velocity, 0), Vec2::new(0, -i32::MAX));
    let down = Vec2::new(0, i32::MIN);
    assert_eq!(calculate_bounce_velocity(&floor(), down, 0), Vec2::new(0, i32::MAX));
}

#[test]
fn resolving_a_collision_changes_only_the_velocity_of_a_ball_that_touches() {
    let mut ball = Ball::with_motion(7, 20_000, units(0.0, -0.99), Vec2::new(1000, -1000));
    resolve_collision(&mut ball, &floor(), 0);
    assert_eq!(ball.velocity(), Vec2::new(1000, 1000));
    assert_eq!(ball.position(), units(0.0, -0.99));
    assert_eq!(ball.id(), 7);
    assert_eq!(ball.radius(), 20_000);

    let mut free = Ball::with_motion(7, 20_000, units(0.0, 0.0), Vec2::new(1000, -1000));
    resolve_collision(&mut free, &floor(), 0);
    assert_eq!(free.velocity(), Vec2::new(1000, -1000));
}
