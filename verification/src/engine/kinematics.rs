//! Motion of one body over one tick: gravity, friction, containment in the
//! domain, integration, and the reset of the force accumulator.

use vstd::prelude::*;
use crate::engine::body::Body;
use crate::scalar::{Scalar, SCALE};

verus! {

/// What a body's motion depends on besides the body itself.
#[derive(Clone, Copy, Debug, PartialEq, Eq, Structural)]
pub struct Environment {
    /// Magnitude of gravity.
    pub gravity: Scalar,
    /// Coefficient of kinetic friction.
    pub kinetic_friction: Scalar,
    /// Coefficient of static friction.
    pub static_friction: Scalar,
    /// Sine of the incline's angle.
    pub sine: Scalar,
    /// Cosine of the incline's angle.
    pub cosine: Scalar,
    /// Whether a wall reflects a body (true) or stops it (false).
    pub elastic: bool,
    /// The domain is `[-half_size, half_size]`.
    pub half_size: Scalar,
}

impl Body {
    /// Whether the body counts as moving: its speed exceeds 1.
    pub open spec fn spec_is_sliding(self) -> bool {
        self.velocity.abs().raw > SCALE
    }

    /// Whether the body counts as moving: its speed exceeds 1.
    #[verifier::when_used_as_spec(spec_is_sliding)]
    pub fn is_sliding(self) -> (sliding: bool)
        ensures
            sliding == self.spec_is_sliding(),
    {
        self.velocity.abs().raw > SCALE
    }

    /// Whether the body lies outside the domain.
    pub open spec fn spec_is_outside(self, env: Environment) -> bool {
        self.position.raw < env.half_size.neg().raw || self.position.raw > env.half_size.raw
    }

    /// Whether the body lies outside the domain.
    #[verifier::when_used_as_spec(spec_is_outside)]
    pub fn is_outside(self, env: Environment) -> (outside: bool)
        ensures
            outside == self.spec_is_outside(env),
    {
        self.position.raw < env.half_size.neg().raw || self.position.raw > env.half_size.raw
    }

    /// The body with gravity's pull along the incline added to its force:
    /// `-gravity * mass * sine`.
    pub open spec fn with_gravity(self, env: Environment) -> Body {
        Body { force: self.force.add(env.gravity.neg().mul(self.mass).mul(env.sine)), ..self }
    }

    /// The force that kinetic friction can exert on the body:
    /// `kinetic_friction * gravity * mass * cosine`.
    pub open spec fn kinetic_capacity(self, env: Environment) -> Scalar {
        env.kinetic_friction.mul(env.gravity).mul(self.mass).mul(env.cosine)
    }

    /// The force that static friction can hold against:
    /// `|static_friction * gravity * mass * cosine|`.
    pub open spec fn static_capacity(self, env: Environment) -> Scalar {
        env.static_friction.mul(env.gravity).mul(self.mass).mul(env.cosine).abs()
    }

    /// The body with friction taken from its force. A sliding body loses the
    /// kinetic capacity, against its velocity. A body that is not sliding
    /// loses the static capacity, against its force, where the force exceeds
    /// that capacity; otherwise its force is cancelled.
    pub open spec fn with_friction(self, env: Environment) -> Body {
        if self.is_sliding() {
            Body {
                force: self.force.sub(self.kinetic_capacity(env).copysign(self.velocity)),
                ..self
            }
        } else if self.force.abs().raw > self.static_capacity(env).raw {
            Body { force: self.force.sub(self.static_capacity(env).copysign(self.force)), ..self }
        } else {
            Body { force: Scalar::zero(), ..self }
        }
    }

    /// The body held in the domain. A body outside it is put on the bound it
    /// passed and loses its force; an elastic wall reverses its velocity, an
    /// inelastic one stops it.
    pub open spec fn contained(self, env: Environment) -> Body {
        if self.is_outside(env) {
            Body {
                position: if self.position.raw < env.half_size.neg().raw {
                    env.half_size.neg()
                } else {
                    env.half_size
                },
                velocity: if env.elastic {
                    self.velocity.neg()
                } else {
                    Scalar::zero()
                },
                force: Scalar::zero(),
                ..self
            }
        } else {
            self
        }
    }

    /// The body after one tick of length `dt`: gravity, friction,
    /// containment and integration in that order, then the force set back
    /// to zero.
    pub open spec fn advanced(self, env: Environment, dt: Scalar) -> Body {
        Body {
            force: Scalar::zero(),
            ..self.with_gravity(env).with_friction(env).contained(env).integrated(dt)
        }
    }

    /// Moves the body through one tick of length `dt`.
    pub fn advance(&mut self, env: Environment, dt: Scalar)
        ensures
            *final(self) == old(self).advanced(env, dt),
    {
        self.force = self.force.add(env.gravity.neg().mul(self.mass).mul(env.sine));
        if self.is_sliding() {
            let capacity = env.kinetic_friction.mul(env.gravity).mul(self.mass).mul(env.cosine);
            self.force = self.force.sub(capacity.copysign(self.velocity));
        } else {
            let capacity =
                env.static_friction.mul(env.gravity).mul(self.mass).mul(env.cosine).abs();
            if self.force.abs().raw > capacity.raw {
                self.force = self.force.sub(capacity.copysign(self.force));
            } else {
                self.force = Scalar::zero();
            }
        }
        if self.is_outside(env) {
            if self.position.raw < env.half_size.neg().raw {
                self.position = env.half_size.neg();
            } else {
                self.position = env.half_size;
            }
            if env.elastic {
                self.velocity = self.velocity.neg();
            } else {
                self.velocity = Scalar::zero();
            }
            self.force = Scalar::zero();
        }
        self.update(dt);
        self.force = Scalar::zero();
    }
}

} // verus!
