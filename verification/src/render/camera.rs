//! The camera: a reference point that world coordinates are taken from.

use vstd::prelude::*;
use crate::scalar::Scalar;

verus! {

/// The point of the plane that is drawn at the origin of the canvas.
#[derive(Clone, Copy, Debug, PartialEq, Eq, Structural)]
pub struct Camera {
    pub x: Scalar,
    pub y: Scalar,
}

impl Camera {
    pub open spec fn spec_new(x: Scalar, y: Scalar) -> Camera {
        Camera { x, y }
    }

    /// A camera at `(x, y)`.
    #[verifier::when_used_as_spec(spec_new)]
    pub fn new(x: Scalar, y: Scalar) -> (camera: Camera)
        ensures
            camera == Camera::spec_new(x, y),
    {
        Camera { x, y }
    }

    pub open spec fn spec_transform(&self, x: Scalar, y: Scalar) -> (Scalar, Scalar) {
        (x.sub(self.x), y.sub(self.y))
    }

    /// The canvas coordinates of the point `(x, y)` of the plane: the point
    /// is shifted by the camera's position, not scaled and not rotated.
    #[verifier::when_used_as_spec(spec_transform)]
    pub fn transform(&self, x: Scalar, y: Scalar) -> (point: (Scalar, Scalar))
        ensures
            point == self.spec_transform(x, y),
    {
        (x.sub(self.x), y.sub(self.y))
    }

    /// Moves the camera by `(x, y)`.
    pub fn displace(&mut self, x: Scalar, y: Scalar)
        ensures
            *final(self) == (Camera { x: old(self).x.add(x), y: old(self).y.add(y) }),
    {
        self.x = self.x.add(x);
        self.y = self.y.add(y);
    }
}

} // verus!
