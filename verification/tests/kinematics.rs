use onedim::color::Color;
use onedim::engine::body::Body;
use onedim::engine::kinematics::Environment;
use onedim::engine::system::System;
use onedim::scalar::Scalar;

fn s(n: i64) -> Scalar {
    Scalar::from_int(n)
}

fn raw(n: i64) -> Scalar {
    Scalar { raw: n }
}

fn white() -> Color {
    Color::white()
}

fn level(gravity: i64, kinetic: Scalar, fixed: Scalar, elastic: bool) -> Environment {
    Environment {
        gravity: s(gravity),
        kinetic_friction: kinetic,
        static_friction: fixed,
        sine: s(0),
        cosine: s(1),
        elastic,
        half_size: s(1000),
    }
}

#[test]
fn a_new_body_has_no_force_on_it() {
    let body = Body::new(s(1), s(2), s(3), 4, white());
    assert_eq!(
        body,
        Body { position: s(1), velocity: s(2), force: s(0), mass: s(3), size: 4, color: white() }
    );
}

#[test]
fn integration_updates_velocity_before_position() {
    let mut body = Body::new(s(1), s(2), s(4), 10, white());
    body.force = s(8);
    body.update(Scalar::half());
    assert_eq!(body.velocity, s(3));
    assert_eq!(body.position, raw(2_500_000_000));
    assert_eq!(body.force, s(8));
    assert_eq!(body.mass, s(4));
}

#[test]
fn integration_with_no_mass_runs_to_the_end_of_the_range() {
    let mut body = Body::new(s(0), s(0), s(0), 10, white());
    body.force = s(1);
    body.update(s(1));
    assert_eq!(body.velocity, raw(i64::MAX));
    assert_eq!(body.position, raw(i64::MAX));
}

#[test]
fn kinetic_friction_opposes_the_velocity() {
    let env = level(10, Scalar::half(), s(0), false);
    let mut right = Body::new(s(0), s(5), s(2), 10, white());
    right.advance(env, raw(100_000_000));
    assert_eq!(right.velocity, raw(4_500_000_000));
    assert_eq!(right.position, raw(450_000_000));
    assert_eq!(right.force, s(0));
    let mut left = Body::new(s(0), s(-5), s(2), 10, white());
    left.advance(env, raw(100_000_000));
    assert_eq!(left.velocity, raw(-4_500_000_000));
    assert_eq!(left.position, raw(-450_000_000));
}

#[test]
fn the_regimes_part_at_a_speed_of_one() {
    assert!(!Body::new(s(0), s(1), s(1), 1, white()).is_sliding());
    assert!(!Body::new(s(0), s(-1), s(1), 1, white()).is_sliding());
    assert!(Body::new(s(0), raw(1_000_000_001), s(1), 1, white()).is_sliding());
    assert!(Body::new(s(0), raw(-1_000_000_001), s(1), 1, white()).is_sliding());
    let env = level(10, Scalar::half(), s(0), false);
    let mut slow = Body::new(s(0), s(1), s(2), 10, white());
    slow.advance(env, s(1));
    assert_eq!(slow.velocity, s(1));
    assert_eq!(slow.position, s(1));
}

#[test]
fn static_friction_cancels_a_force_within_its_capacity() {
    let env = level(10, s(0), Scalar::half(), false);
    let mut body = Body::new(s(3), s(0), s(2), 10, white());
    body.force = s(10);
    body.advance(env, s(1));
    assert_eq!(body, Body::new(s(3), s(0), s(2), 10, white()));
    let mut pulled = Body::new(s(3), s(0), s(2), 10, white());
    pulled.force = s(-10);
    pulled.advance(env, s(1));
    assert_eq!(pulled, Body::new(s(3), s(0), s(2), 10, white()));
}

#[test]
fn a_force_beyond_the_static_capacity_breaks_away() {
    let env = level(10, s(0), Scalar::half(), false);
    let mut body = Body::new(s(0), s(0), s(2), 10, white());
    body.force = s(30);
    body.advance(env, raw(100_000_000));
    assert_eq!(body.velocity, s(1));
    assert_eq!(body.position, raw(100_000_000));
    assert_eq!(body.force, s(0));
    let mut back = Body::new(s(0), s(0), s(2), 10, white());
    back.force = s(-30);
    back.advance(env, raw(100_000_000));
    assert_eq!(back.velocity, s(-1));
}

#[test]
fn a_slow_body_keeps_its_velocity_where_friction_holds() {
    let env = level(10, s(0), Scalar::half(), false);
    let mut body = Body::new(s(0), Scalar::half(), s(2), 10, white());
    body.advance(env, s(2));
    assert_eq!(body.velocity, Scalar::half());
    assert_eq!(body.position, s(1));
}

#[test]
fn gravity_pulls_down_the_incline() {
    let env = Environment {
        gravity: s(10),
        kinetic_friction: s(0),
        static_friction: s(0),
        sine: Scalar::half(),
        cosine: raw(866_025_404),
        elastic: false,
        half_size: s(1000),
    };
    let mut body = Body::new(s(0), s(0), s(2), 10, white());
    body.advance(env, s(1));
    assert_eq!(body.velocity, s(-5));
    assert_eq!(body.position, s(-5));
    let mut held = Body::new(s(0), s(0), s(2), 10, white());
    held.advance(Environment { static_friction: s(1), ..env }, s(1));
    assert_eq!(held, Body::new(s(0), s(0), s(2), 10, white()));
    let mut sliding = Body::new(s(0), s(-4), s(2), 10, white());
    sliding.advance(Environment { kinetic_friction: Scalar::half(), ..env }, s(1));
    // force = -10 + 0.5 * 10 * 2 * 0.866025404 = -1.33974596
    assert_eq!(sliding.velocity, raw(-4_669_872_980));
}

#[test]
fn an_elastic_wall_turns_a_body_back() {
    let env = level(0, s(0), s(0), true);
    let mut body = Body::new(s(1001), s(8), s(1), 10, white());
    body.force = s(3);
    assert!(body.is_outside(env));
    body.advance(env, Scalar::half());
    assert_eq!(body.velocity, s(-8));
    assert_eq!(body.position, s(996));
    assert_eq!(body.force, s(0));
    let mut low = Body::new(s(-1500), s(-8), s(1), 10, white());
    low.advance(env, Scalar::half());
    assert_eq!(low.velocity, s(8));
    assert_eq!(low.position, s(-996));
}

#[test]
fn an_inelastic_wall_stops_a_body() {
    let env = level(0, s(0), s(0), false);
    let mut body = Body::new(s(1001), s(8), s(1), 10, white());
    body.advance(env, Scalar::half());
    assert_eq!(body.velocity, s(0));
    assert_eq!(body.position, s(1000));
    let mut low = Body::new(raw(-1_000_000_000_001), s(-8), s(1), 10, white());
    low.advance(env, Scalar::half());
    assert_eq!(low.velocity, s(0));
    assert_eq!(low.position, s(-1000));
}

#[test]
fn the_bounds_themselves_are_inside() {
    let env = level(0, s(0), s(0), false);
    assert!(!Body::new(s(1000), s(0), s(1), 1, white()).is_outside(env));
    assert!(!Body::new(s(-1000), s(0), s(1), 1, white()).is_outside(env));
    assert!(Body::new(raw(1_000_000_000_001), s(0), s(1), 1, white()).is_outside(env));
}

#[test]
fn a_body_may_pass_the_bound_within_a_tick_and_is_held_in_the_next() {
    let mut system = System::new(
        vec![Body::new(s(999), s(100), s(1), 10, white())],
        s(0),
        s(0),
        s(0),
        s(0),
        400,
        false,
        s(1000),
    );
    system.update(s(1));
    assert_eq!(system.bodies[0].position, s(1099));
    system.update(s(1));
    assert_eq!(system.bodies[0].position, s(1000));
    assert_eq!(system.bodies[0].velocity, s(0));
}

#[test]
fn the_environment_of_a_system() {
    let system = System::new(vec![], s(0), s(9), Scalar::half(), s(2), 300, true, s(50));
    assert_eq!(
        system.environment(),
        Environment {
            gravity: s(9),
            kinetic_friction: Scalar::half(),
            static_friction: s(2),
            sine: s(0),
            cosine: s(1),
            elastic: true,
            half_size: s(50),
        }
    );
    assert_eq!(system.surface_y, 300);
}

#[test]
fn a_system_on_an_incline_follows_the_formulas() {
    let angle = raw(500_000_000);
    let mut system = System::new(
        vec![Body::new(s(10), s(3), s(2), 10, white())],
        angle,
        raw(9_800_000_000),
        raw(100_000_000),
        raw(200_000_000),
        400,
        false,
        s(1000),
    );
    let dt = 1.0 / 64.0;
    system.update(raw(15_625_000));
    let (sin, cos) = (0.5f64.sin(), 0.5f64.cos());
    let force = -9.8 * 2.0 * sin - 0.1 * 9.8 * 2.0 * cos;
    let velocity = 3.0 + force / 2.0 * dt;
    let position = 10.0 + velocity * dt;
    assert!((system.bodies[0].velocity.raw as f64 / 1e9 - velocity).abs() < 1e-7);
    assert!((system.bodies[0].position.raw as f64 / 1e9 - position).abs() < 1e-7);
    assert_eq!(system.bodies[0].force, s(0));
}
