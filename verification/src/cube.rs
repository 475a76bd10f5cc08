//! The axis-aligned box.
use vstd::prelude::*;
use vstd::arithmetic::power2::lemma_pow2_pos;
use vstd::arithmetic::power2::pow2;
use crate::material::Material;
use crate::ray_intersect::Intersect;
use crate::scalar::Scalar;
use crate::scalar::ONE_BITS;
use crate::slab::axis_span;
use crate::slab::axis_span_spec;
use crate::slab::hit_distance;
use crate::slab::entry_of;
use crate::slab::exit_of;
use crate::slab::hit_distance_spec;
use crate::slab::lemma_beside_a_slab_miss;
use crate::slab::lemma_disjoint_spans_miss;
use crate::slab::lemma_inside_hits_at_exit;
use crate::slab::parallel;
use crate::slab::Span;
use crate::value::lemma_one_is_one;
use crate::vec3::Vec3;

verus! {

/// The pattern of 1e-4. A point nearer than this to the plane of a face lies
/// on that face.
pub const FACE_EPS_BITS: u32 = 0x38d1_b717;

/// The pattern of the number minus one.
pub const NEG_ONE_BITS: u32 = 0xbf80_0000;

/// One of the three axes.
#[derive(Clone, Copy, Debug, PartialEq, Eq, Structural)]
pub enum Axis {
    X,
    Y,
    Z,
}

/// The six faces of a box, by the axis they cross and the side they are on.
#[derive(Clone, Copy, Debug, PartialEq, Eq, Structural)]
pub enum Face {
    NegX,
    PosX,
    NegY,
    PosY,
    NegZ,
    PosZ,
}

impl Face {
    /// The axis that this face is perpendicular to.
    pub open spec fn axis(self) -> Axis {
        match self {
            Face::NegX | Face::PosX => Axis::X,
            Face::NegY | Face::PosY => Axis::Y,
            Face::NegZ | Face::PosZ => Axis::Z,
        }
    }

    /// The unit vector that points out of the box through this face.
    pub open spec fn normal_spec(self) -> Vec3 {
        match self {
            Face::NegX => Vec3::of_bits(NEG_ONE_BITS, 0, 0),
            Face::PosX => Vec3::of_bits(ONE_BITS, 0, 0),
            Face::NegY => Vec3::of_bits(0, NEG_ONE_BITS, 0),
            Face::PosY => Vec3::of_bits(0, ONE_BITS, 0),
            Face::NegZ => Vec3::of_bits(0, 0, NEG_ONE_BITS),
            Face::PosZ => Vec3::of_bits(0, 0, ONE_BITS),
        }
    }

    /// The unit vector that points out of the box through this face.
    #[verifier::when_used_as_spec(normal_spec)]
    pub fn normal(self) -> (r: Vec3)
        ensures
            r == self.normal_spec(),
    {
        match self {
            Face::NegX => Vec3::from_bits(NEG_ONE_BITS, 0, 0),
            Face::PosX => Vec3::from_bits(ONE_BITS, 0, 0),
            Face::NegY => Vec3::from_bits(0, NEG_ONE_BITS, 0),
            Face::PosY => Vec3::from_bits(0, ONE_BITS, 0),
            Face::NegZ => Vec3::from_bits(0, 0, NEG_ONE_BITS),
            Face::PosZ => Vec3::from_bits(0, 0, ONE_BITS),
        }
    }
}

/// How far a point stands from the planes of five faces: its coordinate less
/// the plane's, for the low and the high face on x, the low and the high face
/// on y, and the low face on z.
#[derive(Clone, Copy, Debug, PartialEq, Eq, Structural)]
pub struct FaceOffsets {
    pub x_min: Scalar,
    pub x_max: Scalar,
    pub y_min: Scalar,
    pub y_max: Scalar,
    pub z_min: Scalar,
}

/// The quotients of the slab method: for each axis, the distance to the low
/// plane and to the high plane of the box over the ray's direction,
/// `(min - origin) / direction` and `(max - origin) / direction`.
#[derive(Clone, Copy, Debug, PartialEq, Eq, Structural)]
pub struct Quotients {
    pub lo: Vec3,
    pub hi: Vec3,
}

/// An offset this small puts the point on the plane.
pub open spec fn on_plane(offset: Scalar) -> bool {
    offset.abs_of().less(Scalar { bits: FACE_EPS_BITS })
}

/// The face that a point on the surface of a box lies on.
///
/// The faces are tried in the order low x, high x, low y, high y, low z, and
/// the first whose plane the point is on wins, so that a point on an edge or
/// a corner has one face. A point on none of the five is given to high z.
pub open spec fn face_at_spec(off: FaceOffsets) -> Face {
    if on_plane(off.x_min) {
        Face::NegX
    } else if on_plane(off.x_max) {
        Face::PosX
    } else if on_plane(off.y_min) {
        Face::NegY
    } else if on_plane(off.y_max) {
        Face::PosY
    } else if on_plane(off.z_min) {
        Face::NegZ
    } else {
        Face::PosZ
    }
}

/// The face that a point on the surface of a box lies on, see
/// [`face_at_spec`].
pub fn face_at(off: &FaceOffsets) -> (r: Face)
    ensures
        r == face_at_spec(*off),
{
    let eps: Scalar = Scalar::from_bits(FACE_EPS_BITS);
    if off.x_min.abs().lt(eps) {
        Face::NegX
    } else if off.x_max.abs().lt(eps) {
        Face::PosX
    } else if off.y_min.abs().lt(eps) {
        Face::NegY
    } else if off.y_max.abs().lt(eps) {
        Face::PosY
    } else if off.z_min.abs().lt(eps) {
        Face::NegZ
    } else {
        Face::PosZ
    }
}

/// The three spans of a ray in a box from `min` to `max`.
pub open spec fn box_spans(min: Vec3, max: Vec3, origin: Vec3, dir: Vec3, q: Quotients) -> (
    Span,
    Span,
    Span,
) {
    (
        axis_span_spec(origin.x, dir.x, min.x, max.x, q.lo.x, q.hi.x),
        axis_span_spec(origin.y, dir.y, min.y, max.y, q.lo.y, q.hi.y),
        axis_span_spec(origin.z, dir.z, min.z, max.z, q.lo.z, q.hi.z),
    )
}

/// The distance at which a ray strikes a box from `min` to `max`, if it does.
pub open spec fn box_distance_spec(min: Vec3, max: Vec3, origin: Vec3, dir: Vec3, q: Quotients) -> Option<
    Scalar,
> {
    let s = box_spans(min, max, origin, dir, q);
    hit_distance_spec(s.0, s.1, s.2)
}

/// The distance at which a ray strikes a box from `min` to `max`, see
/// [`box_distance_spec`].
pub fn box_distance(min: &Vec3, max: &Vec3, origin: &Vec3, dir: &Vec3, q: &Quotients) -> (r: Option<
    Scalar,
>)
    ensures
        r == box_distance_spec(*min, *max, *origin, *dir, *q),
        r matches Some(t) ==> !t.less(Scalar::zero_spec()),
{
    let x: Span = axis_span(origin.x, dir.x, min.x, max.x, q.lo.x, q.hi.x);
    let y: Span = axis_span(origin.y, dir.y, min.y, max.y, q.lo.y, q.hi.y);
    let z: Span = axis_span(origin.z, dir.z, min.z, max.z, q.lo.z, q.hi.z);
    hit_distance(x, y, z)
}

/// A box of one material, from the corner `min` to the corner `max`.
#[derive(Clone, Copy, Debug, PartialEq, Eq)]
pub struct Cube {
    pub min: Vec3,
    pub max: Vec3,
    pub material: Material,
}

impl Cube {
    /// The record of a ray striking this box at `point`, `distance` along
    /// the ray, on the face that `off` puts the point on.
    pub open spec fn surface_spec(self, point: Vec3, off: FaceOffsets, distance: Scalar) -> Intersect {
        Intersect::hit_spec(point, face_at_spec(off).normal_spec(), distance, self.material)
    }

    /// What this box answers to a ray that strikes it at `distance`, or
    /// misses it: the record of the hit at `point`, or that of a miss.
    pub open spec fn answer_spec(self, distance: Option<Scalar>, point: Vec3, off: FaceOffsets) -> Intersect {
        match distance {
            Some(t) => self.surface_spec(point, off, t),
            None => Intersect::empty_spec(),
        }
    }

    /// The box from `min` to `max`.
    pub fn new(min: Vec3, max: Vec3, material: Material) -> (r: Cube)
        ensures
            r == (Cube { min, max, material }),
    {
        Cube { min, max, material }
    }

    /// The distance at which the ray from `origin` along `dir` strikes this
    /// box, or `None` where it misses.
    pub fn hit_distance(&self, origin: &Vec3, dir: &Vec3, q: &Quotients) -> (r: Option<Scalar>)
        ensures
            r == box_distance_spec(self.min, self.max, *origin, *dir, *q),
            r matches Some(t) ==> !t.less(Scalar::zero_spec()),
    {
        box_distance(&self.min, &self.max, origin, dir, q)
    }

    /// The record of a ray striking this box at `point`, `distance` along
    /// the ray. The normal is that of the face the point lies on.
    pub fn surface(&self, point: Vec3, off: &FaceOffsets, distance: Scalar) -> (r: Intersect)
        ensures
            r == self.surface_spec(point, *off, distance),
            r.is_intersecting,
    {
        Intersect::hit(point, face_at(off).normal(), distance, self.material)
    }

    /// What this box answers to a ray, given the distance that
    /// [`Cube::hit_distance`] found: the record of a miss where it found
    /// none, else the record of the hit at `point`. For a miss, `point` and
    /// `off` are not looked at.
    pub fn answer(&self, distance: Option<Scalar>, point: Vec3, off: &FaceOffsets) -> (r: Intersect)
        ensures
            r == self.answer_spec(distance, point, *off),
            r.is_intersecting <==> distance is Some,
            distance is None ==> r.distance == Scalar::infinity_spec(),
    {
        match distance {
            Some(t) => self.surface(point, off, t),
            None => Intersect::empty(),
        }
    }
}

/// A ray that leaves one slab of a box before it enters another gets the
/// record of a miss for an answer: no hit, at infinite distance.
pub proof fn lemma_missed_box_answers_empty(
    cube: Cube,
    origin: Vec3,
    dir: Vec3,
    q: Quotients,
    point: Vec3,
    off: FaceOffsets,
)
    requires
        ({
            let s = box_spans(cube.min, cube.max, origin, dir, q);
            &&& !s.0.enter.nan() && !s.0.exit.nan()
            &&& !s.1.enter.nan() && !s.1.exit.nan()
            &&& !s.2.enter.nan() && !s.2.exit.nan()
            &&& (s.0.exit.less(s.1.enter) || s.0.exit.less(s.2.enter) || s.1.exit.less(s.0.enter)
                || s.1.exit.less(s.2.enter) || s.2.exit.less(s.0.enter) || s.2.exit.less(
                s.1.enter,
            ))
        }),
    ensures
        box_distance_spec(cube.min, cube.max, origin, dir, q) is None,
        cube.answer_spec(box_distance_spec(cube.min, cube.max, origin, dir, q), point, off)
            == Intersect::empty_spec(),
        !Intersect::empty_spec().is_intersecting,
        Intersect::empty_spec().distance == Scalar::infinity_spec(),
{
    let s = box_spans(cube.min, cube.max, origin, dir, q);
    lemma_disjoint_spans_miss(s.0, s.1, s.2);
}

/// A ray that starts inside a box is answered with the distance at which it
/// leaves the box, not with the distance behind it at which it would have
/// entered.
pub proof fn lemma_inside_box_answers_exit(
    cube: Cube,
    origin: Vec3,
    dir: Vec3,
    q: Quotients,
    point: Vec3,
    off: FaceOffsets,
)
    requires
        ({
            let s = box_spans(cube.min, cube.max, origin, dir, q);
            &&& s.0.enter.less(Scalar::zero_spec()) && Scalar::zero_spec().less_eq(s.0.exit)
            &&& s.1.enter.less(Scalar::zero_spec()) && Scalar::zero_spec().less_eq(s.1.exit)
            &&& s.2.enter.less(Scalar::zero_spec()) && Scalar::zero_spec().less_eq(s.2.exit)
        }),
    ensures
        ({
            let s = box_spans(cube.min, cube.max, origin, dir, q);
            let t = box_distance_spec(cube.min, cube.max, origin, dir, q);
            &&& t == Some(exit_of(s.0, s.1, s.2))
            &&& cube.answer_spec(t, point, off).is_intersecting
            &&& cube.answer_spec(t, point, off).distance == exit_of(s.0, s.1, s.2)
            &&& entry_of(s.0, s.1, s.2).less(cube.answer_spec(t, point, off).distance)
        }),
{
    let s = box_spans(cube.min, cube.max, origin, dir, q);
    lemma_inside_hits_at_exit(s.0, s.1, s.2);
}

/// Whether a quotient has the sign that division gives it.
///
/// `q` stands for `(plane - origin) / dir`. Where the plane lies ahead of the
/// origin, as the ray goes, the quotient is above zero; where it lies behind,
/// the quotient is below zero; and it is a number. This is true of a quotient
/// that was divided out and was not rounded to zero on the way.
pub open spec fn sign_kept(q: Scalar, plane: Scalar, origin: Scalar, dir: Scalar) -> bool {
    let zero = Scalar::zero_spec();
    let ahead = (origin.less(plane) && zero.less(dir)) || (plane.less(origin) && dir.less(zero));
    let behind = (origin.less(plane) && dir.less(zero)) || (plane.less(origin) && zero.less(dir));
    &&& !q.nan()
    &&& ahead ==> zero.less(q)
    &&& behind ==> q.less(zero)
}

/// Whether both quotients of an axis have the sign that division gives them,
/// for a direction that is a number.
pub open spec fn axis_signs_kept(lo: Scalar, hi: Scalar, origin: Scalar, dir: Scalar, q_lo: Scalar, q_hi: Scalar) -> bool {
    !dir.nan() && sign_kept(q_lo, lo, origin, dir) && sign_kept(q_hi, hi, origin, dir)
}

/// Whether all six quotients have the sign that division gives them.
pub open spec fn signs_kept(min: Vec3, max: Vec3, origin: Vec3, dir: Vec3, q: Quotients) -> bool {
    &&& axis_signs_kept(min.x, max.x, origin.x, dir.x, q.lo.x, q.hi.x)
    &&& axis_signs_kept(min.y, max.y, origin.y, dir.y, q.lo.y, q.hi.y)
    &&& axis_signs_kept(min.z, max.z, origin.z, dir.z, q.lo.z, q.hi.z)
}

/// Whether a point lies inside a box, off every face.
pub open spec fn strictly_inside(min: Vec3, max: Vec3, p: Vec3) -> bool {
    &&& min.x.less(p.x) && p.x.less(max.x)
    &&& min.y.less(p.y) && p.y.less(max.y)
    &&& min.z.less(p.z) && p.z.less(max.z)
}

/// A ray that starts inside a box strikes it, in front of the origin, where
/// it leaves the box: at the least of the exits, never at an entry, which
/// all lie behind the origin. This holds whichever way the ray goes, as long
/// as its quotients have the signs that division gives them.
pub proof fn lemma_ray_from_inside_leaves_at_exit(
    cube: Cube,
    origin: Vec3,
    dir: Vec3,
    q: Quotients,
    point: Vec3,
    off: FaceOffsets,
)
    requires
        strictly_inside(cube.min, cube.max, origin),
        signs_kept(cube.min, cube.max, origin, dir, q),
    ensures
        ({
            let s = box_spans(cube.min, cube.max, origin, dir, q);
            let t = box_distance_spec(cube.min, cube.max, origin, dir, q);
            let r = cube.answer_spec(t, point, off);
            &&& t == Some(exit_of(s.0, s.1, s.2))
            &&& r.is_intersecting
            &&& r.distance == exit_of(s.0, s.1, s.2)
            &&& Scalar::zero_spec().less(r.distance)
            &&& entry_of(s.0, s.1, s.2).less(Scalar::zero_spec())
            &&& r.distance == s.0.exit || r.distance == s.1.exit || r.distance == s.2.exit
            &&& r.distance.less_eq(s.0.exit) && r.distance.less_eq(s.1.exit) && r.distance.less_eq(s.2.exit)
        }),
{
    let s = box_spans(cube.min, cube.max, origin, dir, q);
    lemma_inside_span(cube.min.x, cube.max.x, origin.x, dir.x, q.lo.x, q.hi.x);
    lemma_inside_span(cube.min.y, cube.max.y, origin.y, dir.y, q.lo.y, q.hi.y);
    lemma_inside_span(cube.min.z, cube.max.z, origin.z, dir.z, q.lo.z, q.hi.z);
    lemma_inside_hits_at_exit(s.0, s.1, s.2);
}

/// The span of a ray that starts inside a slab: entered behind the origin,
/// left in front of it.
proof fn lemma_inside_span(lo: Scalar, hi: Scalar, origin: Scalar, dir: Scalar, q_lo: Scalar, q_hi: Scalar)
    requires
        lo.less(origin),
        origin.less(hi),
        axis_signs_kept(lo, hi, origin, dir, q_lo, q_hi),
    ensures
        axis_span_spec(origin, dir, lo, hi, q_lo, q_hi).enter.less(Scalar::zero_spec()),
        Scalar::zero_spec().less(axis_span_spec(origin, dir, lo, hi, q_lo, q_hi).exit),
{
}

/// A ray that runs along a face of a box, beside the box, misses it,
/// whatever its quotients: where its direction is parallel to a slab and its
/// origin lies outside that slab, the answer is the record of a miss.
pub proof fn lemma_parallel_ray_beside_box_misses(
    cube: Cube,
    origin: Vec3,
    dir: Vec3,
    q: Quotients,
    point: Vec3,
    off: FaceOffsets,
)
    requires
        ({
            ||| parallel(dir.x) && (origin.x.less(cube.min.x) || cube.max.x.less(origin.x))
            ||| parallel(dir.y) && (origin.y.less(cube.min.y) || cube.max.y.less(origin.y))
            ||| parallel(dir.z) && (origin.z.less(cube.min.z) || cube.max.z.less(origin.z))
        }),
    ensures
        box_distance_spec(cube.min, cube.max, origin, dir, q) is None,
        cube.answer_spec(box_distance_spec(cube.min, cube.max, origin, dir, q), point, off)
            == Intersect::empty_spec(),
{
    let s = box_spans(cube.min, cube.max, origin, dir, q);
    lemma_beside_a_slab_miss(s.0, s.1, s.2);
}

/// Whether a slab lies behind a ray: the ray is not parallel to it and goes
/// away from both of its planes.
pub open spec fn slab_behind(lo: Scalar, hi: Scalar, origin: Scalar, dir: Scalar) -> bool {
    let zero = Scalar::zero_spec();
    &&& !parallel(dir)
    &&& lo.less_eq(hi)
    &&& (hi.less(origin) && zero.less(dir)) || (origin.less(lo) && dir.less(zero))
}

/// A box behind the ray is missed: where a slab of the box lies behind the
/// ray, and the quotients of that axis have the signs that division gives
/// them, the answer is the record of a miss.
pub proof fn lemma_box_behind_ray_is_missed(
    cube: Cube,
    origin: Vec3,
    dir: Vec3,
    q: Quotients,
    point: Vec3,
    off: FaceOffsets,
)
    requires
        ({
            ||| slab_behind(cube.min.x, cube.max.x, origin.x, dir.x) && axis_signs_kept(
                cube.min.x,
                cube.max.x,
                origin.x,
                dir.x,
                q.lo.x,
                q.hi.x,
            )
            ||| slab_behind(cube.min.y, cube.max.y, origin.y, dir.y) && axis_signs_kept(
                cube.min.y,
                cube.max.y,
                origin.y,
                dir.y,
                q.lo.y,
                q.hi.y,
            )
            ||| slab_behind(cube.min.z, cube.max.z, origin.z, dir.z) && axis_signs_kept(
                cube.min.z,
                cube.max.z,
                origin.z,
                dir.z,
                q.lo.z,
                q.hi.z,
            )
        }),
    ensures
        box_distance_spec(cube.min, cube.max, origin, dir, q) is None,
        cube.answer_spec(box_distance_spec(cube.min, cube.max, origin, dir, q), point, off)
            == Intersect::empty_spec(),
        !Intersect::empty_spec().is_intersecting,
        Intersect::empty_spec().distance == Scalar::infinity_spec(),
{
}

/// The normal of every face has unit length: one of its components is one or
/// minus one, the other two are zero.
pub proof fn lemma_face_normals_are_unit(face: Face)
    ensures
        ({
            let n = face.normal_spec();
            let one = pow2(149) as int;
            let (x, y, z) = (n.x.scaled(), n.y.scaled(), n.z.scaled());
            &&& (x == one || x == -one) && y == 0 && z == 0 <==> face.axis() == Axis::X
            &&& x == 0 && (y == one || y == -one) && z == 0 <==> face.axis() == Axis::Y
            &&& x == 0 && y == 0 && (z == one || z == -one) <==> face.axis() == Axis::Z
            &&& (x < 0 || y < 0 || z < 0) <==> (face == Face::NegX || face == Face::NegY || face
                == Face::NegZ)
        }),
{
    lemma_one_is_one();
    lemma_pow2_pos(149);
    let minus = Scalar { bits: NEG_ONE_BITS };
    assert(minus.exponent() == 127 && minus.mantissa() == 0);
    assert(Scalar::one_spec().exponent() == 127 && Scalar::one_spec().mantissa() == 0);
    assert(minus.units() == Scalar::one_spec().units());
}

} // verus!
