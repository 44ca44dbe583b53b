//! Colours of bodies and of chart bars.

use vstd::prelude::*;

verus! {

/// A colour by its red, green, blue and alpha channels.
#[derive(Clone, Copy, Debug, PartialEq, Eq, Structural)]
pub struct Color {
    pub r: u8,
    pub g: u8,
    pub b: u8,
    pub a: u8,
}

impl Color {
    pub open spec fn spec_rgb(r: u8, g: u8, b: u8) -> Color {
        Color { r, g, b, a: 255 }
    }

    /// The opaque colour with the given channels.
    #[verifier::when_used_as_spec(spec_rgb)]
    pub fn rgb(r: u8, g: u8, b: u8) -> (c: Color)
        ensures
            c == Color::spec_rgb(r, g, b),
    {
        Color { r, g, b, a: 255 }
    }

    pub open spec fn spec_white() -> Color {
        Color { r: 255, g: 255, b: 255, a: 255 }
    }

    /// Opaque white.
    #[verifier::when_used_as_spec(spec_white)]
    pub fn white() -> (c: Color)
        ensures
            c == Color::spec_white(),
    {
        Color { r: 255, g: 255, b: 255, a: 255 }
    }

    pub open spec fn spec_gray() -> Color {
        Color { r: 128, g: 128, b: 128, a: 255 }
    }

    /// Opaque mid gray.
    #[verifier::when_used_as_spec(spec_gray)]
    pub fn gray() -> (c: Color)
        ensures
            c == Color::spec_gray(),
    {
        Color { r: 128, g: 128, b: 128, a: 255 }
    }
}

} // verus!
