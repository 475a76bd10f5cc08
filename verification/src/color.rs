//! Colours as a screen or an image file holds them.
use vstd::prelude::*;

verus! {

/// One picture element: red, green, blue and opacity, each from 0 to 255.
#[derive(Clone, Copy, Debug, PartialEq, Eq, Structural)]
pub struct Rgba {
    pub r: u8,
    pub g: u8,
    pub b: u8,
    pub a: u8,
}

impl Rgba {
    /// Opaque black.
    pub open spec fn black_spec() -> Rgba {
        Rgba { r: 0, g: 0, b: 0, a: 255 }
    }

    /// Opaque black, the colour of a pixel that no ray has coloured yet.
    #[verifier::when_used_as_spec(black_spec)]
    pub fn black() -> (r: Rgba)
        ensures
            r == Rgba::black_spec(),
    {
        Rgba { r: 0, g: 0, b: 0, a: 255 }
    }
}

} // verus!
