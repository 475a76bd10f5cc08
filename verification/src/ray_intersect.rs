//! The record of one ray meeting one surface.
use vstd::prelude::*;
use crate::material::Material;
use crate::scalar::Scalar;
use crate::scalar::INFINITY_BITS;
use crate::vec3::Vec3;

verus! {

/// What a primitive answers to a ray.
///
/// `distance` is the multiplier along the ray's direction at which `point`
/// lies. A miss is the record of [`Intersect::empty`]: it is infinitely far
/// away, so a scan for the nearest hit needs no other test to pass it by.
#[derive(Clone, Copy, Debug, PartialEq, Eq)]
pub struct Intersect {
    pub point: Vec3,
    pub normal: Vec3,
    pub distance: Scalar,
    pub is_intersecting: bool,
    pub material: Material,
}

impl Intersect {
    /// The record of a miss.
    pub open spec fn empty_spec() -> Intersect {
        Intersect {
            point: Vec3::zero_spec(),
            normal: Vec3::zero_spec(),
            distance: Scalar { bits: INFINITY_BITS },
            is_intersecting: false,
            material: Material::black_spec(),
        }
    }

    /// The record of a hit.
    pub open spec fn hit_spec(point: Vec3, normal: Vec3, distance: Scalar, material: Material) -> Intersect {
        Intersect { point, normal, distance, is_intersecting: true, material }
    }

    /// The normal of a record: a direction of unit length, or the zero vector
    /// for a direction that has no length. `unit` is the direction scaled to
    /// unit length, `length` the length it had before.
    pub open spec fn settled_normal(length: Scalar, unit: Vec3) -> Vec3 {
        if Scalar::zero_spec().less(length) {
            unit
        } else {
            Vec3::zero_spec()
        }
    }

    /// The record of a hit at `point`, `distance` along the ray, with the
    /// normal exactly as it is given.
    pub fn hit(point: Vec3, normal: Vec3, distance: Scalar, material: Material) -> (r: Intersect)
        ensures
            r == Intersect::hit_spec(point, normal, distance, material),
            r.is_intersecting,
    {
        Intersect { point, normal, distance, is_intersecting: true, material }
    }

    /// The record of a hit at `point`, `distance` along the ray, for a
    /// surface that faces a given direction.
    ///
    /// `unit` is that direction scaled to unit length, `length` the length it
    /// had before. The normal of the record is `unit` where the length is
    /// above zero. Where it is not, or is no number, the direction faces
    /// nowhere, and the normal is the zero vector.
    pub fn with_normal(point: Vec3, length: Scalar, unit: Vec3, distance: Scalar, material: Material) -> (r:
        Intersect)
        ensures
            r == Intersect::hit_spec(point, Intersect::settled_normal(length, unit), distance, material),
            r.is_intersecting,
            r.normal == unit || r.normal == Vec3::zero_spec(),
    {
        let normal: Vec3 = if length.gt(Scalar::zero()) {
            unit
        } else {
            Vec3::zero()
        };
        Intersect::hit(point, normal, distance, material)
    }

    /// The record of a miss: no hit, at infinite distance, of black material.
    #[verifier::when_used_as_spec(empty_spec)]
    pub fn empty() -> (r: Intersect)
        ensures
            r == Intersect::empty_spec(),
            !r.is_intersecting,
            r.distance == Scalar::infinity_spec(),
    {
        Intersect {
            point: Vec3::zero(),
            normal: Vec3::zero(),
            distance: Scalar { bits: INFINITY_BITS },
            is_intersecting: false,
            material: Material::black(),
        }
    }
}

impl Default for Intersect {
    /// The record of a miss.
    fn default() -> (r: Intersect)
        ensures
            r == Intersect::empty_spec(),
    {
        Intersect::empty()
    }
}

} // verus!
