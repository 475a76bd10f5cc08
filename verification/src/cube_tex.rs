//! The axis-aligned box painted with an image.
use vstd::prelude::*;
use crate::cube::box_distance;
use crate::cube::box_distance_spec;
use crate::cube::face_at;
use crate::cube::face_at_spec;
use crate::cube::Axis;
use crate::cube::Face;
use crate::cube::FaceOffsets;
use crate::cube::Quotients;
use crate::material::Material;
use crate::ray_intersect::Intersect;
use crate::scalar::Scalar;
use crate::texture::Texture;
use crate::vec3::Vec3;

verus! {

/// How a face of a box is laid over an image.
///
/// Along each of the two image axes runs one axis of the box, from its low
/// plane to its high plane (the fraction `f` of the way), or the other way
/// round where the axis is flipped (`1 - f`).
#[derive(Clone, Copy, Debug, PartialEq, Eq, Structural)]
pub struct UvLayout {
    pub u_axis: Axis,
    pub u_flipped: bool,
    pub v_axis: Axis,
    pub v_flipped: bool,
}

impl Face {
    /// How this face is laid over an image, so that the image stands upright
    /// and unmirrored for one who looks at the face from outside the box.
    pub open spec fn uv_layout_spec(self) -> UvLayout {
        match self {
            Face::NegX => UvLayout { u_axis: Axis::Z, u_flipped: false, v_axis: Axis::Y, v_flipped: false },
            Face::PosX => UvLayout { u_axis: Axis::Z, u_flipped: true, v_axis: Axis::Y, v_flipped: false },
            Face::NegY => UvLayout { u_axis: Axis::X, u_flipped: false, v_axis: Axis::Z, v_flipped: true },
            Face::PosY => UvLayout { u_axis: Axis::X, u_flipped: false, v_axis: Axis::Z, v_flipped: false },
            Face::NegZ => UvLayout { u_axis: Axis::X, u_flipped: false, v_axis: Axis::Y, v_flipped: false },
            Face::PosZ => UvLayout { u_axis: Axis::X, u_flipped: true, v_axis: Axis::Y, v_flipped: false },
        }
    }

    /// How this face is laid over an image, see [`Face::uv_layout_spec`].
    /// The two image axes follow the two box axes that lie in the face.
    #[verifier::when_used_as_spec(uv_layout_spec)]
    pub fn uv_layout(self) -> (r: UvLayout)
        ensures
            r == self.uv_layout_spec(),
            r.u_axis != self.axis(),
            r.v_axis != self.axis(),
            r.u_axis != r.v_axis,
    {
        match self {
            Face::NegX => UvLayout { u_axis: Axis::Z, u_flipped: false, v_axis: Axis::Y, v_flipped: false },
            Face::PosX => UvLayout { u_axis: Axis::Z, u_flipped: true, v_axis: Axis::Y, v_flipped: false },
            Face::NegY => UvLayout { u_axis: Axis::X, u_flipped: false, v_axis: Axis::Z, v_flipped: true },
            Face::PosY => UvLayout { u_axis: Axis::X, u_flipped: false, v_axis: Axis::Z, v_flipped: false },
            Face::NegZ => UvLayout { u_axis: Axis::X, u_flipped: false, v_axis: Axis::Y, v_flipped: false },
            Face::PosZ => UvLayout { u_axis: Axis::X, u_flipped: true, v_axis: Axis::Y, v_flipped: false },
        }
    }
}

/// An opacity held to the range from zero to one. What is no number counts
/// as zero.
pub open spec fn opacity_spec(alpha: Scalar) -> Scalar {
    alpha.max_of(Scalar::zero_spec()).min_of(Scalar::one_spec())
}

/// An opacity held to the range from zero to one, see [`opacity_spec`].
pub fn opacity(alpha: Scalar) -> (r: Scalar)
    ensures
        r == opacity_spec(alpha),
        Scalar::zero_spec().less_eq(r),
        r.less_eq(Scalar::one_spec()),
        Scalar::zero_spec().less_eq(alpha) && alpha.less_eq(Scalar::one_spec()) ==> r == alpha,
{
    alpha.max(Scalar::zero()).min(Scalar::one())
}

/// A box from the corner `min` to the corner `max`, painted with `tex`.
///
/// The image gives each point its colour, and its own opacity scales that of
/// `material`. One image may paint any number of boxes.
#[derive(Clone, Copy, Debug)]
pub struct TexturedCube<'a> {
    pub min: Vec3,
    pub max: Vec3,
    pub material: Material,
    pub tex: &'a Texture,
}

impl<'a> TexturedCube<'a> {
    /// The material at a point whose texel has the colour `color`, where the
    /// texel's opacity times the box's own is `alpha`.
    pub open spec fn painted_spec(self, color: Vec3, alpha: Scalar) -> Material {
        Material { diffuse: color, alpha: opacity_spec(alpha), ..self.material }
    }

    /// The record of a ray striking this box at `point`, `distance` along
    /// the ray, on the face that `off` puts the point on.
    pub open spec fn surface_spec(
        self,
        point: Vec3,
        off: FaceOffsets,
        distance: Scalar,
        color: Vec3,
        alpha: Scalar,
    ) -> Intersect {
        Intersect::hit_spec(
            point,
            face_at_spec(off).normal_spec(),
            distance,
            self.painted_spec(color, alpha),
        )
    }

    /// What this box answers to a ray that strikes it at `distance`, or
    /// misses it.
    pub open spec fn answer_spec(
        self,
        distance: Option<Scalar>,
        point: Vec3,
        off: FaceOffsets,
        color: Vec3,
        alpha: Scalar,
    ) -> Intersect {
        match distance {
            Some(t) => self.surface_spec(point, off, t, color, alpha),
            None => Intersect::empty_spec(),
        }
    }

    /// The box from `min` to `max`, painted with `tex`.
    pub fn new(min: Vec3, max: Vec3, material: Material, tex: &'a Texture) -> (r: TexturedCube<'a>)
        ensures
            r == (TexturedCube { min, max, material, tex }),
    {
        TexturedCube { min, max, material, tex }
    }

    /// The distance at which the ray from `origin` along `dir` strikes this
    /// box, or `None` where it misses.
    pub fn hit_distance(&self, origin: &Vec3, dir: &Vec3, q: &Quotients) -> (r: Option<Scalar>)
        ensures
            r == box_distance_spec(self.min, self.max, *origin, *dir, *q),
            r matches Some(t) ==> !t.less(Scalar::zero_spec()),
    {
        box_distance(&self.min, &self.max, origin, dir, q)
    }

    /// The material at a point of this box, see
    /// [`TexturedCube::painted_spec`]. All but colour and opacity is that of
    /// the box; the opacity lies between zero and one.
    pub fn painted(&self, color: Vec3, alpha: Scalar) -> (r: Material)
        ensures
            r == self.painted_spec(color, alpha),
            Scalar::zero_spec().less_eq(r.alpha) && r.alpha.less_eq(Scalar::one_spec()),
    {
        Material { diffuse: color, alpha: opacity(alpha), ..self.material }
    }

    /// The record of a ray striking this box at `point`, `distance` along
    /// the ray. `color` is the colour of the texel under the point, `alpha`
    /// the texel's opacity times the box's own.
    pub fn surface(
        &self,
        point: Vec3,
        off: &FaceOffsets,
        distance: Scalar,
        color: Vec3,
        alpha: Scalar,
    ) -> (r: Intersect)
        ensures
            r == self.surface_spec(point, *off, distance, color, alpha),
            r.is_intersecting,
    {
        Intersect::hit(point, face_at(off).normal(), distance, self.painted(color, alpha))
    }

    /// What this box answers to a ray, given the distance that
    /// [`TexturedCube::hit_distance`] found: the record of a miss where it
    /// found none, else the record of the hit at `point`. For a miss, nothing
    /// else is looked at.
    pub fn answer(
        &self,
        distance: Option<Scalar>,
        point: Vec3,
        off: &FaceOffsets,
        color: Vec3,
        alpha: Scalar,
    ) -> (r: Intersect)
        ensures
            r == self.answer_spec(distance, point, *off, color, alpha),
            r.is_intersecting <==> distance is Some,
            distance is None ==> r.distance == Scalar::infinity_spec(),
    {
        match distance {
            Some(t) => self.surface(point, off, t, color, alpha),
            None => Intersect::empty(),
        }
    }
}

} // verus!
