//! The shapes that show a system: a square for each body, and three guide
//! lines for the baseline, the incline and the origin.

use vstd::prelude::*;
use crate::color::Color;
use crate::engine::body::Body;
use crate::engine::system::System;
use crate::render::camera::Camera;
use crate::scalar::{saturate_i32, Scalar};

verus! {

/// A filled square, by its centre and the length of its side.
#[derive(Clone, Copy, Debug, PartialEq, Eq, Structural)]
pub struct Square {
    pub color: Color,
    pub center_x: i32,
    pub center_y: i32,
    pub side: u32,
}

/// A point of the canvas.
#[derive(Clone, Copy, Debug, PartialEq, Eq, Structural)]
pub struct Point {
    pub x: i32,
    pub y: i32,
}

/// A straight line between two points of the canvas.
#[derive(Clone, Copy, Debug, PartialEq, Eq, Structural)]
pub struct Line {
    pub color: Color,
    pub from: Point,
    pub to: Point,
}

/// `n` as the 32-bit signed integer with the same bits.
pub open spec fn spec_reinterpreted(n: u32) -> i32 {
    if n <= i32::MAX {
        n as i32
    } else {
        (n - 0x1_0000_0000) as i32
    }
}

/// `n` as the 32-bit signed integer with the same bits.
#[verifier::when_used_as_spec(spec_reinterpreted)]
pub fn reinterpreted(n: u32) -> (r: i32)
    ensures
        r == spec_reinterpreted(n),
{
    if n <= 0x7fff_ffff {
        n as i32
    } else {
        (n as i64 - 0x1_0000_0000i64) as i32
    }
}

fn difference(a: i32, b: i32) -> (r: i32)
    ensures
        r == saturate_i32(a - b),
{
    let d: i64 = a as i64 - b as i64;
    if d > 0x7fff_ffff {
        i32::MAX
    } else if d < -0x8000_0000 {
        i32::MIN
    } else {
        d as i32
    }
}

impl Body {
    /// The square that shows the body: as wide as the body's size, centred
    /// on the body's position, and resting on the baseline at height
    /// `surface_y`.
    pub open spec fn spec_draw(&self, camera: &Camera, surface_y: i32) -> Square {
        let center = camera.transform(
            self.position,
            Scalar::from_i32(surface_y).sub(Scalar::from_u32(self.size).div(Scalar::two())),
        );
        Square {
            color: self.color,
            center_x: center.0.to_i32(),
            center_y: center.1.to_i32(),
            side: self.size,
        }
    }

    /// The square that shows the body.
    #[verifier::when_used_as_spec(spec_draw)]
    pub fn draw(&self, camera: &Camera, surface_y: i32) -> (square: Square)
        ensures
            square == self.spec_draw(camera, surface_y),
    {
        let center = camera.transform(
            self.position,
            Scalar::from_i32(surface_y).sub(Scalar::from_u32(self.size).div(Scalar::two())),
        );
        Square {
            color: self.color,
            center_x: center.0.to_i32(),
            center_y: center.1.to_i32(),
            side: self.size,
        }
    }
}

impl System {
    /// The squares that show the bodies, in the order of the bodies.
    pub open spec fn squares(self, camera: Camera) -> Seq<Square> {
        Seq::new(self.bodies@.len(), |i: int| self.bodies@[i].draw(&camera, self.surface_y))
    }

    /// The squares that show the bodies.
    pub fn draw(&self, camera: &Camera) -> (squares: Vec<Square>)
        ensures
            squares@ == self.squares(*camera),
    {
        let mut squares: Vec<Square> = Vec::new();
        let mut i: usize = 0;
        while i < self.bodies.len()
            invariant
                i <= self.bodies.len(),
                squares@ == self.squares(*camera).take(i as int),
            decreases self.bodies.len() - i,
        {
            let square = self.bodies[i].draw(camera, self.surface_y);
            assert(self.squares(*camera).take(i + 1) == self.squares(*camera).take(i as int).push(
                square,
            ));
            squares.push(square);
            i += 1;
        }
        assert(self.squares(*camera).take(i as int) == self.squares(*camera));
        squares
    }

    /// The guide lines of the scene, on a canvas `screen_width` wide and
    /// `screen_height` high: in gray the incline, from the origin to the
    /// right edge; in white the baseline across the canvas and the vertical
    /// through the origin. The incline ends `sin(angle) * |camera.x +
    /// screen_width|` above the baseline.
    pub open spec fn guide_lines(self, camera: Camera, screen_width: u32, screen_height: u32) -> Seq<
        Line,
    > {
        let origin = camera.transform(Scalar::zero(), Scalar::from_i32(self.surface_y));
        let x0 = origin.0.to_i32();
        let y0 = origin.1.to_i32();
        let right = reinterpreted(screen_width);
        let rise = self.angle.sin().neg().mul(camera.x.add(Scalar::from_u32(screen_width)).abs());
        seq![
            Line {
                color: Color::gray(),
                from: Point { x: x0, y: y0 },
                to: Point { x: right, y: saturate_i32(y0 - rise.to_i32()) },
            },
            Line {
                color: Color::white(),
                from: Point { x: 0, y: y0 },
                to: Point { x: right, y: y0 },
            },
            Line {
                color: Color::white(),
                from: Point { x: x0, y: 0 },
                to: Point { x: x0, y: reinterpreted(screen_height) },
            },
        ]
    }

    /// The guide lines of the scene.
    pub fn draw_guide_lines(&self, camera: &Camera, screen_width: u32, screen_height: u32) -> (lines:
        Vec<Line>)
        ensures
            lines@ == self.guide_lines(*camera, screen_width, screen_height),
    {
        let origin = camera.transform(Scalar::zero(), Scalar::from_i32(self.surface_y));
        let x0 = origin.0.to_i32();
        let y0 = origin.1.to_i32();
        let right = reinterpreted(screen_width);
        let rise = self.angle.sin().neg().mul(camera.x.add(Scalar::from_u32(screen_width)).abs());
        let mut lines: Vec<Line> = Vec::new();
        lines.push(
            Line {
                color: Color::gray(),
                from: Point { x: x0, y: y0 },
                to: Point { x: right, y: difference(y0, rise.to_i32()) },
            },
        );
        lines.push(
            Line {
                color: Color::white(),
                from: Point { x: 0, y: y0 },
                to: Point { x: right, y: y0 },
            },
        );
        lines.push(
            Line {
                color: Color::white(),
                from: Point { x: x0, y: 0 },
                to: Point { x: x0, y: reinterpreted(screen_height) },
            },
        );
        assert(lines@ =~= self.guide_lines(*camera, screen_width, screen_height));
        lines
    }
}

} // verus!
