//! A point mass on the motion axis.

use vstd::prelude::*;
use crate::color::Color;
use crate::scalar::Scalar;

verus! {

/// A point mass. `force` is scratch state of one tick: whoever integrates
/// the body sets it back to zero afterwards. `size` is the body's extent
/// along the axis, its diameter when two bodies are tested for overlap.
///
/// A body is meant to have a positive mass, but nothing enforces it: the
/// engine divides by whatever mass it finds, and a division by zero gives
/// what [`Scalar::div`] says it gives.
#[derive(Clone, Copy, Debug, PartialEq, Eq, Structural)]
pub struct Body {
    pub position: Scalar,
    pub velocity: Scalar,
    pub force: Scalar,
    pub mass: Scalar,
    pub size: u32,
    pub color: Color,
}

impl Body {
    pub open spec fn spec_new(
        position: Scalar,
        velocity: Scalar,
        mass: Scalar,
        size: u32,
        color: Color,
    ) -> Body {
        Body { position, velocity, force: Scalar::zero(), mass, size, color }
    }

    /// A body with no force on it.
    #[verifier::when_used_as_spec(spec_new)]
    pub fn new(position: Scalar, velocity: Scalar, mass: Scalar, size: u32, color: Color) -> (body:
        Body)
        ensures
            body == Body::spec_new(position, velocity, mass, size, color),
    {
        Body { position, velocity, force: Scalar::zero(), mass, size, color }
    }

    /// Whether the body is as it is meant to be: its mass is positive.
    pub open spec fn valid(self) -> bool {
        self.mass.raw > 0
    }

    /// The body after one integration step of length `dt`: the velocity
    /// gains `(force / mass) * dt`, then the position gains the new velocity
    /// times `dt`. The force stays as it is.
    pub open spec fn integrated(self, dt: Scalar) -> Body {
        let velocity = self.velocity.add(self.force.div(self.mass).mul(dt));
        Body { velocity, position: self.position.add(velocity.mul(dt)), ..self }
    }

    /// Integrates force and velocity over `dt`.
    pub fn update(&mut self, dt: Scalar)
        ensures
            *final(self) == old(self).integrated(dt),
    {
        self.velocity = self.velocity.add(self.force.div(self.mass).mul(dt));
        self.position = self.position.add(self.velocity.mul(dt));
    }
}

} // verus!
