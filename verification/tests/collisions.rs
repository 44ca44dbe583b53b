use onedim::color::Color;
use onedim::engine::body::Body;
use onedim::engine::collision::{
    elastic_velocity, inelastic_velocity, overlapping, resolve_collisions, separated_position,
    Correction,
};
use onedim::engine::system::System;
use onedim::scalar::Scalar;

fn s(n: i64) -> Scalar {
    Scalar::from_int(n)
}

fn red() -> Color {
    Color::rgb(255, 0, 0)
}

#[test]
fn equal_masses_swap_velocities_in_an_elastic_collision() {
    let a = Body::new(s(0), s(10), s(1), 10, red());
    let b = Body::new(s(5), s(-10), s(1), 10, red());
    let mut system = System::new(vec![a, b], s(0), s(0), s(0), s(0), 400, true, s(1000));
    system.update(Scalar { raw: 16_666_666 });
    assert_eq!(system.bodies[0].velocity, s(-10));
    assert_eq!(system.bodies[1].velocity, s(10));
    assert_eq!(system.bodies[0].position, Scalar { raw: -166_666_660 });
    assert_eq!(system.bodies[1].position, Scalar { raw: 5_166_666_660 });
    assert_eq!(system.bodies[0].force, s(0));
}

fn blue() -> Color {
    Color::rgb(0, 0, 255)
}

fn raw(n: i64) -> Scalar {
    Scalar { raw: n }
}

fn still_world(bodies: Vec<Body>, elastic: bool) -> System {
    System::new(bodies, s(0), s(0), s(0), s(0), 400, elastic, s(1000))
}

#[test]
fn overlap_is_strict() {
    let a = Body::new(s(0), s(0), s(1), 10, red());
    let touching = Body::new(s(10), s(0), s(1), 10, red());
    let closer = Body::new(raw(9_999_999_999), s(0), s(1), 10, red());
    let odd = Body::new(s(4), s(0), s(1), 1, red());
    assert!(!overlapping(a, touching));
    assert!(overlapping(a, closer));
    assert!(overlapping(closer, a));
    assert!(overlapping(a, a));
    assert!(overlapping(Body::new(s(0), s(0), s(1), 8, red()), odd));
    assert!(!overlapping(Body::new(s(0), s(0), s(1), 7, red()), odd));
    let nothing = Body::new(s(0), s(0), s(1), 0, red());
    assert!(!overlapping(nothing, nothing));
}

#[test]
fn elastic_velocities_for_unequal_masses() {
    let a = Body::new(s(0), s(10), s(1), 10, red());
    let b = Body::new(s(5), s(-2), s(3), 10, blue());
    assert_eq!(elastic_velocity(a, b), s(-8));
    assert_eq!(elastic_velocity(b, a), s(4));
}

#[test]
fn inelastic_velocity_is_shared() {
    let a = Body::new(s(0), s(10), s(1), 10, red());
    let b = Body::new(s(5), s(-2), s(3), 10, blue());
    assert_eq!(inelastic_velocity(a, b), s(1));
    assert_eq!(inelastic_velocity(b, a), s(1));
    assert_eq!(separated_position(a, b), raw(-5_102_040));
    assert_eq!(separated_position(b, a), raw(5_005_102_040));
}

#[test]
fn an_inelastic_collision_moves_both_bodies_together() {
    let a = Body::new(s(0), s(10), s(1), 10, red());
    let b = Body::new(s(5), s(-2), s(3), 10, blue());
    let mut system = still_world(vec![a, b], false);
    system.update(s(1));
    assert_eq!(system.bodies[0].velocity, s(1));
    assert_eq!(system.bodies[1].velocity, s(1));
    assert_eq!(system.bodies[0].position, raw(-5_102_040 + 1_000_000_000));
    assert_eq!(system.bodies[1].position, raw(5_005_102_040 + 1_000_000_000));
    assert_eq!(system.bodies[0].mass, s(1));
    assert_eq!(system.bodies[1].color, blue());
}

#[test]
fn momentum_is_kept_up_to_rounding() {
    let a = Body::new(s(0), raw(3_333_333_333), raw(1_234_567_891), 10, red());
    let b = Body::new(s(5), raw(-7_777_777_777), raw(2_718_281_828), 10, blue());
    let v = inelastic_velocity(a, b).raw as i128;
    let total = (a.mass.raw + b.mass.raw) as i128;
    let before = a.mass.raw as i128 * a.velocity.raw as i128 + b.mass.raw as i128 * b.velocity.raw as i128;
    assert!((total * v - before).abs() < total + 2_000_000_000);
    let real = (1.234567891 * 3.333333333 - 2.718281828 * 7.777777777) / (1.234567891 + 2.718281828);
    assert!((v as f64 / 1e9 - real).abs() < 1e-8);
}

#[test]
fn corrections_come_from_the_state_before_the_scan() {
    let a = Body::new(s(0), s(6), s(1), 6, red());
    let b = Body::new(s(4), s(0), s(1), 6, red());
    let c = Body::new(s(8), s(-6), s(1), 6, red());
    let mut system = still_world(vec![a, b, c], true);
    system.update(s(0));
    // a overlaps b only, c overlaps b only, b overlaps both and keeps the
    // correction against c, the later partner.
    assert_eq!(system.bodies[0].velocity, s(0));
    assert_eq!(system.bodies[1].velocity, s(-6));
    assert_eq!(system.bodies[2].velocity, s(0));
}

#[test]
fn the_last_partner_wins() {
    let a = Body::new(s(0), s(1), s(1), 20, red());
    let b = Body::new(s(1), s(2), s(1), 20, red());
    let c = Body::new(s(2), s(3), s(1), 20, red());
    let mut system = still_world(vec![a, b, c], true);
    system.update(s(0));
    assert_eq!(system.bodies[0].velocity, s(3));
    assert_eq!(system.bodies[1].velocity, s(3));
    assert_eq!(system.bodies[2].velocity, s(2));
}

#[test]
fn resolving_collisions_alone() {
    let a = Body::new(s(0), s(10), s(1), 10, red());
    let b = Body::new(s(5), s(-10), s(1), 10, red());
    let far = Body::new(s(500), s(7), s(1), 10, red());
    let mut bodies = vec![a, far, b];
    resolve_collisions(&mut bodies, true);
    assert_eq!(bodies[0], Body { velocity: s(-10), ..a });
    assert_eq!(bodies[1], far);
    assert_eq!(bodies[2], Body { velocity: s(10), ..b });
    let mut none: Vec<Body> = vec![];
    resolve_collisions(&mut none, false);
    assert!(none.is_empty());
    let mut one = vec![a];
    resolve_collisions(&mut one, false);
    assert_eq!(one, vec![a]);
}

#[test]
fn sizes_that_add_up_to_a_thousand_push_a_body_to_the_wall() {
    let a = Body::new(s(-1), s(0), s(1), 500, red());
    let b = Body::new(s(1), s(0), s(1), 500, red());
    let mut system = still_world(vec![a, b], false);
    system.update(s(1));
    assert_eq!(system.bodies[0].position, s(-1000));
    assert_eq!(system.bodies[1].position, s(1000));
    assert_eq!(system.bodies[0].velocity, s(0));
}

#[test]
fn a_correction_written_over_a_body() {
    let a = Body::new(s(0), s(10), s(1), 10, red());
    let b = Body::new(s(5), s(-2), s(3), 10, blue());
    assert_eq!(
        Correction::of(4, a, b, true),
        Correction { index: 4, velocity: s(-8), position: None }
    );
    assert_eq!(
        Correction::of(0, a, b, false),
        Correction { index: 0, velocity: s(1), position: Some(raw(-5_102_040)) }
    );
}
