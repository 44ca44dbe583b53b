//! The simulated scene: an ordered collection of bodies on an incline.

use vstd::prelude::*;
use crate::engine::body::Body;
use crate::engine::collision::{collided, resolve_collisions};
use crate::engine::kinematics::Environment;
use crate::scalar::Scalar;

verus! {

/// Bodies and the parameters of the world they move in.
#[derive(Clone, Debug, PartialEq, Eq)]
pub struct System {
    pub bodies: Vec<Body>,
    /// Angle of the incline against the horizontal, in radians.
    pub angle: Scalar,
    pub gravity: Scalar,
    pub kfriction_coefficient: Scalar,
    pub sfriction_coefficient: Scalar,
    /// Height of the baseline on screen; the physics does not read it.
    pub surface_y: i32,
    pub elastic_collisions: bool,
    /// Positions are held in `[-domain_half_size, domain_half_size]`.
    pub domain_half_size: Scalar,
}

/// The mathematical value of a [`System`].
pub ghost struct SystemState {
    pub bodies: Seq<Body>,
    pub angle: Scalar,
    pub gravity: Scalar,
    pub kfriction_coefficient: Scalar,
    pub sfriction_coefficient: Scalar,
    pub surface_y: i32,
    pub elastic_collisions: bool,
    pub domain_half_size: Scalar,
}

impl View for System {
    type V = SystemState;

    open spec fn view(&self) -> SystemState {
        SystemState {
            bodies: self.bodies@,
            angle: self.angle,
            gravity: self.gravity,
            kfriction_coefficient: self.kfriction_coefficient,
            sfriction_coefficient: self.sfriction_coefficient,
            surface_y: self.surface_y,
            elastic_collisions: self.elastic_collisions,
            domain_half_size: self.domain_half_size,
        }
    }
}

/// Every body of `bodies` moved through one tick of length `dt`.
pub open spec fn advanced_all(bodies: Seq<Body>, env: Environment, dt: Scalar) -> Seq<Body> {
    Seq::new(bodies.len(), |i: int| bodies[i].advanced(env, dt))
}

/// Kinetic energy of one body: `0.5 * mass * velocity²`.
pub open spec fn kinetic_energy(body: Body) -> Scalar {
    Scalar::half().mul(body.mass).mul(body.velocity.mul(body.velocity))
}

/// Potential energy of one body above the lower bound of the domain, along
/// the incline: `mass * gravity * (position + half_size) * sine`.
pub open spec fn potential_energy(body: Body, env: Environment) -> Scalar {
    body.mass.mul(env.gravity).mul(body.position.add(env.half_size)).mul(env.sine)
}

/// Sum of the kinetic energies of `bodies`, added up in order.
pub open spec fn total_kinetic(bodies: Seq<Body>) -> Scalar
    decreases bodies.len(),
{
    if bodies.len() == 0 {
        Scalar::zero()
    } else {
        total_kinetic(bodies.drop_last()).add(kinetic_energy(bodies.last()))
    }
}

/// Sum of the potential energies of `bodies`, added up in order.
pub open spec fn total_potential(bodies: Seq<Body>, env: Environment) -> Scalar
    decreases bodies.len(),
{
    if bodies.len() == 0 {
        Scalar::zero()
    } else {
        total_potential(bodies.drop_last(), env).add(potential_energy(bodies.last(), env))
    }
}

impl SystemState {
    /// Whether the state is as it is meant to be: every mass and the half
    /// size of the domain are positive, and gravity and the coefficients of
    /// friction are not negative. Nothing enforces this; a tick keeps it.
    pub open spec fn valid(self) -> bool {
        &&& forall|i: int| 0 <= i < self.bodies.len() ==> (#[trigger] self.bodies[i]).valid()
        &&& self.domain_half_size.raw > 0
        &&& self.gravity.raw >= 0
        &&& self.kfriction_coefficient.raw >= 0
        &&& self.sfriction_coefficient.raw >= 0
    }

    /// What the motion of a body of this state depends on.
    pub open spec fn environment(self) -> Environment {
        Environment {
            gravity: self.gravity,
            kinetic_friction: self.kfriction_coefficient,
            static_friction: self.sfriction_coefficient,
            sine: self.angle.sin(),
            cosine: self.angle.cos(),
            elastic: self.elastic_collisions,
            half_size: self.domain_half_size,
        }
    }

    /// The state one tick of length `dt` later: collisions are resolved
    /// among all bodies first, then every body moves on its own.
    pub open spec fn step(self, dt: Scalar) -> SystemState {
        SystemState {
            bodies: advanced_all(
                collided(self.bodies, self.elastic_collisions),
                self.environment(),
                dt,
            ),
            ..self
        }
    }

    /// The state after `n` ticks of length `dt`.
    pub open spec fn after(self, dt: Scalar, n: nat) -> SystemState
        decreases n,
    {
        if n == 0 {
            self
        } else {
            self.after(dt, (n - 1) as nat).step(dt)
        }
    }

    /// Kinetic and potential energy of the state.
    pub open spec fn energy(self) -> (Scalar, Scalar) {
        (total_kinetic(self.bodies), total_potential(self.bodies, self.environment()))
    }
}

impl System {
    /// A system of the given bodies and parameters.
    pub fn new(
        bodies: Vec<Body>,
        angle: Scalar,
        gravity: Scalar,
        kfriction_coefficient: Scalar,
        sfriction_coefficient: Scalar,
        surface_y: i32,
        elastic_collisions: bool,
        domain_half_size: Scalar,
    ) -> (system: System)
        ensures
            system@ == (SystemState {
                bodies: bodies@,
                angle,
                gravity,
                kfriction_coefficient,
                sfriction_coefficient,
                surface_y,
                elastic_collisions,
                domain_half_size,
            }),
    {
        System {
            bodies,
            angle,
            gravity,
            kfriction_coefficient,
            sfriction_coefficient,
            surface_y,
            elastic_collisions,
            domain_half_size,
        }
    }

    /// What the motion of a body of this system depends on.
    pub fn environment(&self) -> (env: Environment)
        ensures
            env == self@.environment(),
    {
        Environment {
            gravity: self.gravity,
            kinetic_friction: self.kfriction_coefficient,
            static_friction: self.sfriction_coefficient,
            sine: self.angle.sin(),
            cosine: self.angle.cos(),
            elastic: self.elastic_collisions,
            half_size: self.domain_half_size,
        }
    }

    /// Advances the system by one tick of length `dt`.
    pub fn update(&mut self, dt: Scalar)
        ensures
            final(self)@ == old(self)@.step(dt),
    {
        resolve_collisions(&mut self.bodies, self.elastic_collisions);
        let env = self.environment();
        let ghost resolved = self.bodies@;
        let n = self.bodies.len();
        let mut i: usize = 0;
        while i < n
            invariant
                i <= n,
                n == resolved.len(),
                self.bodies.len() == n,
                self.angle == old(self).angle,
                self.gravity == old(self).gravity,
                self.kfriction_coefficient == old(self).kfriction_coefficient,
                self.sfriction_coefficient == old(self).sfriction_coefficient,
                self.surface_y == old(self).surface_y,
                self.elastic_collisions == old(self).elastic_collisions,
                self.domain_half_size == old(self).domain_half_size,
                forall|k: int| 0 <= k < i ==> self.bodies[k] == resolved[k].advanced(env, dt),
                forall|k: int| i <= k < n ==> self.bodies[k] == resolved[k],
            decreases n - i,
        {
            let mut body = self.bodies[i];
            body.advance(env, dt);
            self.bodies.set(i, body);
            i += 1;
        }
        assert(self.bodies@ =~= advanced_all(resolved, env, dt));
    }

    /// Total kinetic and total potential energy of the system.
    pub fn energy(&self) -> (e: (Scalar, Scalar))
        ensures
            e == self@.energy(),
    {
        let env = self.environment();
        let mut kinetic = Scalar::zero();
        let mut potential = Scalar::zero();
        let n = self.bodies.len();
        let mut i: usize = 0;
        while i < n
            invariant
                i <= n,
                n == self.bodies.len(),
                env == self@.environment(),
                kinetic == total_kinetic(self.bodies@.take(i as int)),
                potential == total_potential(self.bodies@.take(i as int), env),
            decreases n - i,
        {
            let body = self.bodies[i];
            proof {
                let next = self.bodies@.take(i + 1);
                assert(next.drop_last() == self.bodies@.take(i as int));
                assert(next.last() == body);
            }
            kinetic = kinetic.add(Scalar::half().mul(body.mass).mul(body.velocity.mul(body.velocity)));
            potential = potential.add(
                body.mass.mul(env.gravity).mul(body.position.add(env.half_size)).mul(env.sine),
            );
            i += 1;
        }
        assert(self.bodies@.take(n as int) == self.bodies@);
        (kinetic, potential)
    }
}

} // verus!
