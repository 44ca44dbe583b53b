//! Laws of the engine, proved of every input that their premises allow.
//!
//! The laws are stated over the same functions as the contracts of the
//! engine: [`SystemState::step`] is what `System::update` computes and
//! [`Body::advanced`] what `Body::advance` computes.

use vstd::prelude::*;
use crate::engine::body::Body;
use crate::engine::collision::{
    collided, corrected, elastic_velocity, inelastic_velocity, last_partner, lemma_last_partner,
    overlapping, partners,
};
use crate::engine::kinematics::Environment;
use crate::engine::system::{
    advanced_all, kinetic_energy, potential_energy, total_kinetic, total_potential, SystemState,
};
use crate::scalar::{
    in_range, lemma_div_basics, lemma_mul_one, lemma_mul_two, lemma_mul_zero,
    lemma_product_magnitude, lemma_quotient_bounds, magnitude, quotient, Scalar, SCALE,
};

verus! {

/// No body of `bodies` overlaps another.
pub open spec fn apart(bodies: Seq<Body>) -> bool {
    forall|i: int, j: int| 0 <= i < bodies.len() ==> !partners(bodies, i, j)
}

/// Every body of `bodies` lies inside the domain with no force on it.
pub open spec fn unforced_inside(bodies: Seq<Body>, env: Environment) -> bool {
    forall|i: int|
        0 <= i < bodies.len() ==> #[trigger] bodies[i].force == Scalar::zero()
            && !bodies[i].is_outside(env)
}

/// Every body of `bodies` is at rest.
pub open spec fn at_rest(bodies: Seq<Body>) -> bool {
    forall|i: int| 0 <= i < bodies.len() ==> #[trigger] bodies[i].velocity == Scalar::zero()
}

/// Overlap does not depend on the order of the two bodies.
pub proof fn law_overlap_is_symmetric(a: Body, b: Body)
    ensures
        overlapping(a, b) == overlapping(b, a),
{
}

/// A body that overlaps no other comes out of collision resolution as it
/// went in, and then moves on its own.
pub proof fn law_untouched_body_moves_alone(s: SystemState, dt: Scalar, i: int)
    requires
        0 <= i < s.bodies.len(),
        forall|j: int| !partners(s.bodies, i, j),
    ensures
        collided(s.bodies, s.elastic_collisions)[i] == s.bodies[i],
        s.step(dt).bodies[i] == s.bodies[i].advanced(s.environment(), dt),
{
    lemma_no_partner(s.bodies, i, s.bodies.len() as int);
}

proof fn lemma_no_partner(bodies: Seq<Body>, i: int, bound: int)
    requires
        forall|j: int| !partners(bodies, i, j),
    ensures
        last_partner(bodies, i, bound) == -1,
    decreases bound,
{
    if bound > 0 {
        lemma_no_partner(bodies, i, bound - 1);
    }
}

/// Where no two bodies overlap, collision resolution changes nothing.
pub proof fn law_no_overlap_no_change(bodies: Seq<Body>, elastic: bool)
    requires
        apart(bodies),
    ensures
        collided(bodies, elastic) == bodies,
{
    assert forall|i: int| 0 <= i < bodies.len() implies collided(bodies, elastic)[i]
        == bodies[i] by {
        lemma_no_partner(bodies, i, bodies.len() as int);
    }
    assert(collided(bodies, elastic) =~= bodies);
}

/// A tick changes neither the number of bodies nor the mass, size or colour
/// of any body, leaves every body without force, and leaves the parameters
/// of the system alone. A valid state stays valid.
pub proof fn law_tick_keeps_what_bodies_are(s: SystemState, dt: Scalar)
    ensures
        s.step(dt).bodies.len() == s.bodies.len(),
        forall|i: int|
            0 <= i < s.bodies.len() ==> {
                &&& (#[trigger] s.step(dt).bodies[i]).mass == s.bodies[i].mass
                &&& s.step(dt).bodies[i].size == s.bodies[i].size
                &&& s.step(dt).bodies[i].color == s.bodies[i].color
                &&& s.step(dt).bodies[i].force == Scalar::zero()
            },
        s.step(dt) == (SystemState { bodies: s.step(dt).bodies, ..s }),
        s.valid() ==> s.step(dt).valid(),
{
    assert forall|i: int| 0 <= i < s.bodies.len() implies (#[trigger] s.step(dt).bodies[i]).valid()
        == s.bodies[i].valid() by {}
}

/// Without gravity, a body inside the domain with no force on it keeps its
/// velocity and moves by its velocity times the time step.
pub proof fn law_free_motion(b: Body, env: Environment, dt: Scalar)
    requires
        env.gravity == Scalar::zero(),
        b.force == Scalar::zero(),
        !b.is_outside(env),
    ensures
        b.advanced(env, dt) == (Body { position: b.position.add(b.velocity.mul(dt)), ..b }),
{
    lemma_mul_zero(b.mass);
    lemma_mul_zero(env.sine);
    lemma_mul_zero(env.cosine);
    lemma_mul_zero(env.kinetic_friction);
    lemma_mul_zero(env.static_friction);
    lemma_mul_zero(dt);
    lemma_div_basics(b.mass);
    let pulled = b.with_gravity(env);
    assert(pulled == b);
    let rubbed = pulled.with_friction(env);
    assert(b.kinetic_capacity(env) == Scalar::zero());
    assert(b.static_capacity(env) == Scalar::zero());
    assert(rubbed == b);
}

/// In an elastic collision two bodies of equal mass, not zero, take each
/// other's velocity.
pub proof fn law_elastic_exchange(a: Body, b: Body)
    requires
        a.mass == b.mass,
        a.mass.raw != 0,
    ensures
        elastic_velocity(a, b) == b.velocity,
        elastic_velocity(b, a) == a.velocity,
{
    let total = a.mass.add(a.mass);
    lemma_div_basics(total);
    lemma_mul_two(a.mass);
    lemma_mul_zero(a.velocity);
    lemma_mul_zero(b.velocity);
    lemma_mul_one(a.velocity);
    lemma_mul_one(b.velocity);
}

/// Two overlapping bodies of equal mass that make up an elastic system
/// without gravity, inside the domain and with no force on them, have
/// exchanged their velocities after one tick, and each has moved by its new
/// velocity times the time step.
pub proof fn law_elastic_pair_swaps(s: SystemState, dt: Scalar)
    requires
        s.bodies.len() == 2,
        s.elastic_collisions,
        s.gravity == Scalar::zero(),
        overlapping(s.bodies[0], s.bodies[1]),
        s.bodies[0].mass == s.bodies[1].mass,
        s.bodies[0].mass.raw != 0,
        unforced_inside(s.bodies, s.environment()),
    ensures
        s.step(dt).bodies[0] == (Body {
            velocity: s.bodies[1].velocity,
            position: s.bodies[0].position.add(s.bodies[1].velocity.mul(dt)),
            ..s.bodies[0]
        }),
        s.step(dt).bodies[1] == (Body {
            velocity: s.bodies[0].velocity,
            position: s.bodies[1].position.add(s.bodies[0].velocity.mul(dt)),
            ..s.bodies[1]
        }),
{
    let a = s.bodies[0];
    let b = s.bodies[1];
    let env = s.environment();
    law_elastic_exchange(a, b);
    law_overlap_is_symmetric(a, b);
    lemma_pair_partners(s.bodies);
    let hit = collided(s.bodies, true);
    assert(hit[0] == corrected(a, b, true));
    assert(hit[1] == corrected(b, a, true));
    law_free_motion(hit[0], env, dt);
    law_free_motion(hit[1], env, dt);
}

proof fn lemma_pair_partners(bodies: Seq<Body>)
    requires
        bodies.len() == 2,
        overlapping(bodies[0], bodies[1]),
    ensures
        last_partner(bodies, 0, 2) == 1,
        last_partner(bodies, 1, 2) == 0,
{
    law_overlap_is_symmetric(bodies[0], bodies[1]);
    reveal_with_fuel(last_partner, 3);
    assert(partners(bodies, 0, 1));
    assert(!partners(bodies, 1, 1));
    assert(partners(bodies, 1, 0));
}

/// A perfectly inelastic collision gives both bodies the same velocity, and
/// conserves momentum up to rounding. Where no intermediate result leaves
/// the representable range, the total mass times the common velocity
/// differs from `m1 v1 + m2 v2` by less than the total mass plus two, in
/// billionths of a unit of momentum. The contract states this over the raw
/// values, whose products count units of 10^-18.
pub proof fn law_inelastic_momentum(a: Body, b: Body)
    requires
        a.mass.raw + b.mass.raw > 0,
        in_range(a.mass.raw + b.mass.raw),
        in_range(quotient(a.velocity.raw * a.mass.raw, SCALE as int)),
        in_range(quotient(b.velocity.raw * b.mass.raw, SCALE as int)),
        in_range(a.velocity.mul(a.mass).raw + b.velocity.mul(b.mass).raw),
        in_range(
            quotient(
                (a.velocity.mul(a.mass).raw + b.velocity.mul(b.mass).raw) * SCALE,
                a.mass.raw + b.mass.raw,
            ),
        ),
    ensures
        inelastic_velocity(a, b) == inelastic_velocity(b, a),
        magnitude(
            (a.mass.raw + b.mass.raw) * inelastic_velocity(a, b).raw - (a.mass.raw * a.velocity.raw
                + b.mass.raw * b.velocity.raw),
        ) < a.mass.raw + b.mass.raw + 2 * SCALE,
{
    let total = a.mass.raw + b.mass.raw;
    let pa = a.velocity.mul(a.mass).raw as int;
    let pb = b.velocity.mul(b.mass).raw as int;
    let v = inelastic_velocity(a, b).raw as int;
    lemma_quotient_bounds(a.velocity.raw * a.mass.raw, SCALE as int);
    lemma_quotient_bounds(b.velocity.raw * b.mass.raw, SCALE as int);
    lemma_quotient_bounds((pa + pb) * SCALE, total);
    assert(v == quotient((pa + pb) * SCALE, total));
    let exact = a.mass.raw * a.velocity.raw + b.mass.raw * b.velocity.raw;
    let ea = a.velocity.raw * a.mass.raw - pa * SCALE;
    let eb = b.velocity.raw * b.mass.raw - pb * SCALE;
    let ev = (pa + pb) * SCALE - v * total;
    assert(magnitude(ea) < SCALE);
    assert(magnitude(eb) < SCALE);
    assert(magnitude(ev) < total);
    assert(total * v - exact == -ev - ea - eb) by (nonlinear_arith)
        requires
            exact == a.mass.raw * a.velocity.raw + b.mass.raw * b.velocity.raw,
            ea == a.velocity.raw * a.mass.raw - pa * SCALE,
            eb == b.velocity.raw * b.mass.raw - pb * SCALE,
            ev == (pa + pb) * SCALE - v * total,
    ;
}

/// Two overlapping bodies that make up an inelastic system without gravity,
/// with no force on them and still inside the domain once they have been
/// pushed apart, end the tick with one and the same velocity, the velocity
/// of their collision.
pub proof fn law_inelastic_pair_moves_together(s: SystemState, dt: Scalar)
    requires
        s.bodies.len() == 2,
        !s.elastic_collisions,
        s.gravity == Scalar::zero(),
        overlapping(s.bodies[0], s.bodies[1]),
        s.bodies[0].force == Scalar::zero(),
        s.bodies[1].force == Scalar::zero(),
        !corrected(s.bodies[0], s.bodies[1], false).is_outside(s.environment()),
        !corrected(s.bodies[1], s.bodies[0], false).is_outside(s.environment()),
    ensures
        s.step(dt).bodies[0].velocity == inelastic_velocity(s.bodies[0], s.bodies[1]),
        s.step(dt).bodies[1].velocity == inelastic_velocity(s.bodies[0], s.bodies[1]),
{
    let env = s.environment();
    lemma_pair_partners(s.bodies);
    let hit = collided(s.bodies, false);
    assert(hit[0] == corrected(s.bodies[0], s.bodies[1], false));
    assert(hit[1] == corrected(s.bodies[1], s.bodies[0], false));
    law_free_motion(hit[0], env, dt);
    law_free_motion(hit[1], env, dt);
}

/// Bodies at rest stay where they are for any number of ticks: with every
/// body at rest inside the domain, no force on any, no two bodies overlapping
/// (or collisions elastic), and gravity's pull on each body within what
/// static friction holds, the state after `n` ticks is the state before.
pub proof fn law_rest_persists(s: SystemState, dt: Scalar, n: nat)
    requires
        at_rest(s.bodies),
        unforced_inside(s.bodies, s.environment()),
        s.elastic_collisions || apart(s.bodies),
        forall|i: int|
            0 <= i < s.bodies.len() ==> (#[trigger] s.bodies[i]).with_gravity(
                s.environment(),
            ).force.abs().raw <= s.bodies[i].static_capacity(s.environment()).raw,
    ensures
        s.after(dt, n) == s,
    decreases n,
{
    if n > 0 {
        law_rest_persists(s, dt, (n - 1) as nat);
        let env = s.environment();
        let hit = collided(s.bodies, s.elastic_collisions);
        assert forall|i: int| 0 <= i < s.bodies.len() implies hit[i] == s.bodies[i] by {
            let j = last_partner(s.bodies, i, s.bodies.len() as int);
            if j >= 0 {
                lemma_last_partner(s.bodies, i, s.bodies.len() as int);
                assert(partners(s.bodies, i, j));
                lemma_rest_survives_elastic(s.bodies[i], s.bodies[j]);
            }
        }
        assert(hit =~= s.bodies);
        assert forall|i: int| 0 <= i < s.bodies.len() implies s.bodies[i].advanced(env, dt)
            == s.bodies[i] by {
            law_static_friction_holds(s.bodies[i], env, dt);
        }
        assert(advanced_all(hit, env, dt) =~= s.bodies);
    }
}

proof fn lemma_rest_survives_elastic(a: Body, b: Body)
    requires
        a.velocity == Scalar::zero(),
        b.velocity == Scalar::zero(),
    ensures
        corrected(a, b, true) == a,
{
    let total = a.mass.add(b.mass);
    lemma_mul_zero(a.mass.sub(b.mass).div(total));
    lemma_mul_zero(Scalar::two().mul(b.mass).div(total));
}

/// Without gravity and without friction, a system of bodies at rest inside
/// the domain, with no force on them and no two overlapping (or collisions
/// elastic), is unchanged by any number of ticks.
pub proof fn law_stationary_without_gravity(s: SystemState, dt: Scalar, n: nat)
    requires
        s.gravity == Scalar::zero(),
        at_rest(s.bodies),
        unforced_inside(s.bodies, s.environment()),
        s.elastic_collisions || apart(s.bodies),
    ensures
        s.after(dt, n) == s,
{
    let env = s.environment();
    assert forall|i: int| 0 <= i < s.bodies.len() implies (#[trigger] s.bodies[i]).with_gravity(
        env,
    ).force.abs().raw <= s.bodies[i].static_capacity(env).raw by {
        lemma_mul_zero(s.bodies[i].mass);
        lemma_mul_zero(env.sine);
    }
    law_rest_persists(s, dt, n);
}

/// Static friction holds a body that is not sliding: where the force on it,
/// gravity's pull included, does not exceed the static capacity and the body
/// is inside the domain, a tick leaves its velocity as it was and moves it
/// by that velocity times the time step; a body at rest stays in place.
pub proof fn law_static_friction_holds(b: Body, env: Environment, dt: Scalar)
    requires
        !b.is_sliding(),
        b.with_gravity(env).force.abs().raw <= b.static_capacity(env).raw,
        !b.is_outside(env),
    ensures
        b.advanced(env, dt) == (Body {
            position: b.position.add(b.velocity.mul(dt)),
            force: Scalar::zero(),
            ..b
        }),
        b.velocity == Scalar::zero() && b.force == Scalar::zero() ==> b.advanced(env, dt) == b,
{
    lemma_div_basics(b.mass);
    lemma_mul_zero(dt);
}

/// The motion of a tick starts inside the domain: whatever the body's
/// position was, the tick first brings it into `[-half_size, half_size]`,
/// and the body ends the tick at that position plus its new velocity times
/// the time step.
pub proof fn law_motion_starts_inside(b: Body, env: Environment, dt: Scalar)
    requires
        env.half_size.raw >= 0,
    ensures
        env.half_size.neg().raw <= b.contained(env).position.raw <= env.half_size.raw,
        !b.is_outside(env) ==> b.contained(env).position == b.position,
        b.advanced(env, dt).position == b.contained(env).position.add(
            b.advanced(env, dt).velocity.mul(dt),
        ),
{
}

/// A wall turns back, or stops, a body that has passed it. A body outside
/// the domain ends the tick with its velocity reversed where collisions are
/// elastic and exactly zero where they are not, having started the tick's
/// motion from the bound it passed. A body that passed the upper bound while
/// moving up does not end the tick above that bound.
pub proof fn law_wall_response(b: Body, env: Environment, dt: Scalar)
    requires
        env.half_size.raw > 0,
        b.is_outside(env),
    ensures
        env.elastic ==> b.advanced(env, dt).velocity == b.velocity.neg(),
        !env.elastic ==> b.advanced(env, dt).velocity == Scalar::zero(),
        b.position.raw > env.half_size.raw ==> b.advanced(env, dt).position == env.half_size.add(
            b.advanced(env, dt).velocity.mul(dt),
        ),
        b.position.raw < env.half_size.neg().raw ==> b.advanced(env, dt).position
            == env.half_size.neg().add(b.advanced(env, dt).velocity.mul(dt)),
        !env.elastic && b.position.raw > env.half_size.raw ==> b.advanced(env, dt).position
            == env.half_size,
        b.position.raw > env.half_size.raw && b.velocity.raw >= 0 && dt.raw >= 0 ==> b.advanced(
            env,
            dt,
        ).position.raw <= env.half_size.raw,
{
    lemma_div_basics(b.mass);
    lemma_mul_zero(dt);
    let after = b.advanced(env, dt);
    if b.position.raw > env.half_size.raw && b.velocity.raw >= 0 && dt.raw >= 0 {
        lemma_product_magnitude(after.velocity.raw as int, dt.raw as int);
        assert(after.velocity.raw <= 0);
        assert(after.velocity.raw * dt.raw <= 0) by (nonlinear_arith)
            requires
                after.velocity.raw <= 0,
                dt.raw >= 0,
        ;
    }
}

/// Energy is conserved where nothing acts: without gravity, with no force on
/// any body, every body inside the domain and no two overlapping, a tick
/// leaves the kinetic and the potential energy of the system as they were.
pub proof fn law_energy_conserved(s: SystemState, dt: Scalar)
    requires
        s.gravity == Scalar::zero(),
        unforced_inside(s.bodies, s.environment()),
        apart(s.bodies),
    ensures
        s.step(dt).energy() == s.energy(),
        s.step(dt).energy().0.add(s.step(dt).energy().1) == s.energy().0.add(s.energy().1),
{
    let env = s.environment();
    law_no_overlap_no_change(s.bodies, s.elastic_collisions);
    let moved = s.step(dt).bodies;
    assert(s.step(dt).environment() == env);
    assert forall|i: int| 0 <= i < s.bodies.len() implies kinetic_energy(#[trigger] moved[i])
        == kinetic_energy(s.bodies[i]) && potential_energy(moved[i], env) == potential_energy(
        s.bodies[i],
        env,
    ) by {
        assert(s.bodies[i].force == Scalar::zero());
        law_free_motion(s.bodies[i], env, dt);
        lemma_mul_zero(s.bodies[i].mass);
        lemma_mul_zero(moved[i].position.add(env.half_size));
        lemma_mul_zero(s.bodies[i].position.add(env.half_size));
        lemma_mul_zero(env.sine);
    }
    lemma_equal_energies(moved, s.bodies, env);
}

proof fn lemma_equal_energies(a: Seq<Body>, b: Seq<Body>, env: Environment)
    requires
        a.len() == b.len(),
        forall|i: int|
            0 <= i < a.len() ==> kinetic_energy(#[trigger] a[i]) == kinetic_energy(b[i])
                && potential_energy(a[i], env) == potential_energy(b[i], env),
    ensures
        total_kinetic(a) == total_kinetic(b),
        total_potential(a, env) == total_potential(b, env),
    decreases a.len(),
{
    if a.len() > 0 {
        lemma_equal_energies(a.drop_last(), b.drop_last(), env);
    }
}

} // verus!
