//! The infinite plane.
use vstd::prelude::*;
use crate::material::Material;
use crate::ray_intersect::Intersect;
use crate::scalar::Scalar;
use crate::vec3::Vec3;

verus! {

/// The pattern of 1e-6. A ray whose direction makes a smaller product with
/// the normal runs parallel to the plane.
pub const PLANE_EPS_BITS: u32 = 0x3586_37bd;

/// How a ray meets a plane.
#[derive(Clone, Copy, Debug, PartialEq, Eq, Structural)]
pub enum Crossing {
    /// The ray runs parallel to the plane, or the plane lies behind it.
    Miss,
    /// The ray strikes the side that the plane's normal points out of.
    Front,
    /// The ray strikes the other side.
    Back,
}

/// How a ray meets a plane.
///
/// `denom` is the product of the ray's direction with the plane's normal, and
/// `t` the distance along the ray to the plane: the product of the normal
/// with the way from the ray's origin to a point of the plane, over `denom`.
pub open spec fn crossing_spec(denom: Scalar, t: Scalar) -> Crossing {
    if denom.abs_of().less(Scalar { bits: PLANE_EPS_BITS }) {
        Crossing::Miss
    } else if t.less_eq(Scalar::zero_spec()) {
        Crossing::Miss
    } else if denom.less(Scalar::zero_spec()) {
        Crossing::Front
    } else {
        Crossing::Back
    }
}

/// How a ray meets a plane, see [`crossing_spec`].
pub fn crossing(denom: Scalar, t: Scalar) -> (r: Crossing)
    ensures
        r == crossing_spec(denom, t),
{
    if denom.abs().lt(Scalar::from_bits(PLANE_EPS_BITS)) {
        Crossing::Miss
    } else if t.le(Scalar::zero()) {
        Crossing::Miss
    } else if denom.lt(Scalar::zero()) {
        Crossing::Front
    } else {
        Crossing::Back
    }
}

/// A plane through `point`, at right angles to `normal`.
#[derive(Clone, Copy, Debug, PartialEq, Eq)]
pub struct Plane {
    pub point: Vec3,
    pub normal: Vec3,
    pub base_material: Material,
}

impl Plane {
    /// What this plane answers to a ray that would meet it at `hit`.
    ///
    /// `unit` is the plane's normal scaled to unit length, `length` the
    /// length that the normal has. The answer is a miss where the ray does
    /// not cross the plane. Else it is the record of the hit, of the plane's
    /// own material: its normal is `unit` on the front and the opposite on
    /// the back, so that it always stands against the ray, and the zero
    /// vector where the normal has no length.
    pub open spec fn answer_spec(self, denom: Scalar, t: Scalar, hit: Vec3, length: Scalar, unit: Vec3) -> Intersect {
        let material = self.base_material;
        match crossing_spec(denom, t) {
            Crossing::Miss => Intersect::empty_spec(),
            Crossing::Front => Intersect::hit_spec(hit, Intersect::settled_normal(length, unit), t, material),
            Crossing::Back => Intersect::hit_spec(
                hit,
                Intersect::settled_normal(length, unit.neg_of()),
                t,
                material,
            ),
        }
    }

    /// The plane through `point` at right angles to `normal`. The normal is
    /// kept exactly as it is given. A renderer hands in a direction of unit
    /// length, so that the products it makes with the normal are distances.
    pub fn from_unit_normal(point: Vec3, normal: Vec3, base_material: Material) -> (r: Plane)
        ensures
            r == (Plane { point, normal, base_material }),
    {
        Plane { point, normal, base_material }
    }

    /// What this plane answers to a ray, see [`Plane::answer_spec`].
    pub fn answer(&self, denom: Scalar, t: Scalar, hit: Vec3, length: Scalar, unit: Vec3) -> (r: Intersect)
        ensures
            r == self.answer_spec(denom, t, hit, length, unit),
            r.is_intersecting <==> crossing_spec(denom, t) != Crossing::Miss,
            r.normal == unit || r.normal == unit.neg_of() || r.normal == Vec3::zero_spec(),
            r.is_intersecting ==> r.material == self.base_material && r.point == hit && r.distance == t,
    {
        let material: Material = self.base_material;
        match crossing(denom, t) {
            Crossing::Miss => Intersect::empty(),
            Crossing::Front => Intersect::with_normal(hit, length, unit, t, material),
            Crossing::Back => Intersect::with_normal(hit, length, unit.neg(), t, material),
        }
    }
}

/// A ray parallel to a plane misses it, wherever it starts: where the
/// direction makes the product zero with the normal, the answer is a miss
/// for every distance and every point.
pub proof fn lemma_parallel_ray_misses(
    plane: Plane,
    denom: Scalar,
    t: Scalar,
    hit: Vec3,
    length: Scalar,
    unit: Vec3,
)
    requires
        denom.equal(Scalar::zero_spec()),
    ensures
        crossing_spec(denom, t) == Crossing::Miss,
        plane.answer_spec(denom, t, hit, length, unit) == Intersect::empty_spec(),
        !plane.answer_spec(denom, t, hit, length, unit).is_intersecting,
{
}

/// A plane behind the ray, or through its origin, is missed.
pub proof fn lemma_plane_behind_misses(
    plane: Plane,
    denom: Scalar,
    t: Scalar,
    hit: Vec3,
    length: Scalar,
    unit: Vec3,
)
    requires
        t.less_eq(Scalar::zero_spec()),
    ensures
        plane.answer_spec(denom, t, hit, length, unit) == Intersect::empty_spec(),
{
}

} // verus!
