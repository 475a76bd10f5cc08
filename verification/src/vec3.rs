//! Triples of scalars: points, directions and colours.
use vstd::prelude::*;
use crate::scalar::Scalar;

verus! {

/// A point, a direction or a colour, by its three components.
#[derive(Clone, Copy, Debug, PartialEq, Eq, Structural)]
pub struct Vec3 {
    pub x: Scalar,
    pub y: Scalar,
    pub z: Scalar,
}

impl Vec3 {
    /// The origin: three positive zeros.
    pub open spec fn zero_spec() -> Vec3 {
        Vec3 { x: Scalar { bits: 0 }, y: Scalar { bits: 0 }, z: Scalar { bits: 0 } }
    }

    /// The triple of the three patterns.
    pub open spec fn of_bits(x: u32, y: u32, z: u32) -> Vec3 {
        Vec3 { x: Scalar { bits: x }, y: Scalar { bits: y }, z: Scalar { bits: z } }
    }

    /// The triple with the sign bit of each component flipped.
    pub open spec fn neg_of(self) -> Vec3 {
        Vec3 { x: self.x.neg_of(), y: self.y.neg_of(), z: self.z.neg_of() }
    }

    /// The triple of three components.
    pub fn new(x: Scalar, y: Scalar, z: Scalar) -> (r: Vec3)
        ensures
            r == (Vec3 { x, y, z }),
    {
        Vec3 { x, y, z }
    }

    /// The triple of three patterns.
    pub fn from_bits(x: u32, y: u32, z: u32) -> (r: Vec3)
        ensures
            r == Vec3::of_bits(x, y, z),
    {
        Vec3 { x: Scalar { bits: x }, y: Scalar { bits: y }, z: Scalar { bits: z } }
    }

    /// The origin: three positive zeros.
    #[verifier::when_used_as_spec(zero_spec)]
    pub fn zero() -> (r: Vec3)
        ensures
            r == Vec3::zero_spec(),
    {
        Vec3 { x: Scalar { bits: 0 }, y: Scalar { bits: 0 }, z: Scalar { bits: 0 } }
    }

    /// The opposite direction: each component negated.
    pub fn neg(self) -> (r: Vec3)
        ensures
            r == self.neg_of(),
            r.x.rank() == -self.x.rank(),
            r.y.rank() == -self.y.rank(),
            r.z.rank() == -self.z.rank(),
    {
        Vec3 { x: self.x.neg(), y: self.y.neg(), z: self.z.neg() }
    }
}

} // verus!
