//! What the shading of one ray decides.
//!
//! To shade a ray, a renderer asks every object of the scene for its answer,
//! then shades the nearest hit: by the light that reaches it, by what it
//! mirrors, by what shows through it. The last two call for further rays,
//! and each further ray is shaded in the same way, one level down. This
//! module picks the nearest hit, weighs the shadow, and says which further
//! rays are due.
use vstd::prelude::*;
use crate::ray_intersect::Intersect;
use crate::scalar::Scalar;
use crate::scalar::ONE_BITS;

verus! {

/// How many levels of rays a renderer follows, unless told otherwise.
pub const DEFAULT_DEPTH: i32 = 4;

/// The pattern of 0.85. An occluder at least this opaque casts a full shadow.
pub const OPAQUE_BITS: u32 = 0x3f59_999a;

/// The pattern of 0.4, the strength of the shadow of a translucent occluder.
pub const PARTIAL_SHADOW_BITS: u32 = 0x3ecc_cccd;

/// Whether the answer at `j` is a hit nearer than infinity.
pub open spec fn in_reach(hits: Seq<Intersect>, j: int) -> bool {
    &&& 0 <= j < hits.len()
    &&& hits[j].is_intersecting
    &&& hits[j].distance.less(Scalar::infinity_spec())
}

/// Whether the answer at `j` is the nearest hit among `hits`: it is in
/// reach, no hit is nearer, and every hit before it is farther.
pub open spec fn is_nearest(hits: Seq<Intersect>, j: int) -> bool {
    &&& in_reach(hits, j)
    &&& forall|i: int|
        0 <= i < hits.len() && hits[i].is_intersecting ==> !(#[trigger] hits[i]).distance.less(
            hits[j].distance,
        )
    &&& forall|i: int|
        0 <= i < j && in_reach(hits, i) ==> hits[j].distance.less((#[trigger] hits[i]).distance)
}

/// The position of the nearest hit among `hits`, if there is one. There is
/// never more than one, see [`lemma_nearest_unique`].
pub open spec fn nearest_spec(hits: Seq<Intersect>) -> Option<int> {
    if exists|j: int| is_nearest(hits, j) {
        Some(choose|j: int| is_nearest(hits, j))
    } else {
        None
    }
}

/// Whether the answer at `i` is a hit between a point and its light, the
/// light being `light_distance` away.
pub open spec fn occludes(hits: Seq<Intersect>, light_distance: Scalar, i: int) -> bool {
    &&& 0 <= i < hits.len()
    &&& hits[i].is_intersecting
    &&& hits[i].distance.less(light_distance)
}

/// Whether the answer at `i` is the first, in the order of the scene, that
/// stands between a point and its light.
pub open spec fn is_first_occluder(hits: Seq<Intersect>, light_distance: Scalar, i: int) -> bool {
    &&& occludes(hits, light_distance, i)
    &&& forall|k: int| 0 <= k < i ==> !occludes(hits, light_distance, k)
}

/// The strength of the shadow that an occluder casts: one where it is
/// opaque, 0.4 where light shows through it.
pub open spec fn shadow_of(occluder: Intersect) -> Scalar {
    if (Scalar { bits: OPAQUE_BITS }).less_eq(occluder.material.alpha) {
        Scalar { bits: ONE_BITS }
    } else {
        Scalar { bits: PARTIAL_SHADOW_BITS }
    }
}

/// The position of the first occluder among `hits`, if there is one.
pub open spec fn first_occluder_spec(hits: Seq<Intersect>, light_distance: Scalar) -> Option<int> {
    if exists|i: int| is_first_occluder(hits, light_distance, i) {
        Some(choose|i: int| is_first_occluder(hits, light_distance, i))
    } else {
        None
    }
}

/// How much of the light is kept from a point: nothing where the light is in
/// plain view, else what the first occluder takes.
pub open spec fn shadow_spec(hits: Seq<Intersect>, light_distance: Scalar) -> Scalar {
    match first_occluder_spec(hits, light_distance) {
        Some(i) => shadow_of(hits[i]),
        None => Scalar::zero_spec(),
    }
}

/// What is done for a ray.
#[derive(Clone, Copy, Debug, PartialEq, Eq)]
pub enum Step {
    /// The ray takes the colour of the sky in its direction.
    Sky,
    /// The ray takes the colour of the surface at `hit`.
    ///
    /// Where `reflect` holds, the mirrored ray is shaded too and blended in;
    /// where `pass_through` holds, the ray is followed through the surface
    /// and the surface laid over what is found behind. Both further rays
    /// are shaded with `depth` levels left.
    Surface { hit: Intersect, reflect: bool, pass_through: bool, depth: i32 },
}

/// Whether a surface of this material mirrors: its reflective weight is
/// above zero.
pub open spec fn mirrors(hit: Intersect) -> bool {
    Scalar::zero_spec().less(hit.material.reflective_weight())
}

/// Whether something shows through a surface of this material: its opacity
/// is below one.
pub open spec fn shows_through(hit: Intersect) -> bool {
    hit.material.alpha.less(Scalar::one_spec())
}

/// What is done for a ray with `depth` levels left, to which the objects of
/// the scene answer `hits`.
///
/// With no level left the ray takes the colour of the sky, whatever the scene
/// holds. So it does where nothing is struck. Else the nearest hit is shaded,
/// and its material says which further rays are due, each with one level
/// less.
pub open spec fn step_spec(depth: i32, hits: Seq<Intersect>) -> Step {
    if depth <= 0 {
        Step::Sky
    } else {
        match nearest_spec(hits) {
            None => Step::Sky,
            Some(j) => Step::Surface {
                hit: hits[j],
                reflect: mirrors(hits[j]),
                pass_through: shows_through(hits[j]),
                depth: (depth - 1) as i32,
            },
        }
    }
}

/// The position of the nearest hit among the answers of a scene, or `None`
/// where no answer is a hit in reach. Of several hits at the least distance
/// the first is the nearest.
pub fn nearest_index(hits: &Vec<Intersect>) -> (r: Option<usize>)
    ensures
        r matches Some(j) ==> is_nearest(hits@, j as int),
        r is None ==> forall|i: int| 0 <= i < hits@.len() ==> !in_reach(hits@, i),
        nearest_spec(hits@) == match r {
            Some(j) => Some(j as int),
            None => None,
        },
{
    let mut best: Option<usize> = None;
    let mut z: Scalar = Scalar::infinity();
    let mut i: usize = 0;
    while i < hits.len()
        invariant
            i <= hits@.len(),
            !z.nan(),
            best is None ==> z == Scalar::infinity_spec(),
            best matches Some(j) ==> j < i && in_reach(hits@, j as int) && z == hits@[j as int].distance,
            forall|k: int|
                0 <= k < i && hits@[k].is_intersecting ==> !(#[trigger] hits@[k]).distance.less(z),
            best matches Some(j) ==> forall|k: int|
                0 <= k < j && in_reach(hits@, k) ==> z.less((#[trigger] hits@[k]).distance),
        decreases hits@.len() - i,
    {
        let h: Intersect = hits[i];
        if h.is_intersecting && h.distance.lt(z) {
            z = h.distance;
            best = Some(i);
        }
        i = i + 1;
    }
    proof {
        match best {
            Some(j) => {
                lemma_nearest_unique(hits@, j as int);
            },
            None => {
                assert forall|j: int| !is_nearest(hits@, j) by {
                    if 0 <= j < hits@.len() {
                        assert(!in_reach(hits@, j));
                    }
                }
            },
        }
    }
    best
}

/// The nearest hit among the answers of a scene, or the record of a miss
/// where no answer is a hit in reach.
pub fn nearest_hit(hits: &Vec<Intersect>) -> (r: Intersect)
    ensures
        r == match nearest_spec(hits@) {
            Some(j) => hits@[j],
            None => Intersect::empty_spec(),
        },
        r.is_intersecting <==> nearest_spec(hits@) is Some,
{
    match nearest_index(hits) {
        Some(j) => hits[j],
        None => Intersect::empty(),
    }
}

/// The position of the first answer that stands between a point and its
/// light, or `None` where the light is in plain view.
pub fn first_occluder(hits: &Vec<Intersect>, light_distance: Scalar) -> (r: Option<usize>)
    ensures
        r matches Some(i) ==> is_first_occluder(hits@, light_distance, i as int),
        r is None ==> forall|k: int| 0 <= k < hits@.len() ==> !occludes(hits@, light_distance, k),
        first_occluder_spec(hits@, light_distance) == match r {
            Some(i) => Some(i as int),
            None => None,
        },
{
    let mut i: usize = 0;
    while i < hits.len()
        invariant
            i <= hits@.len(),
            forall|k: int| 0 <= k < i ==> !occludes(hits@, light_distance, k),
        decreases hits@.len() - i,
    {
        let h: Intersect = hits[i];
        if h.is_intersecting && h.distance.lt(light_distance) {
            proof {
                assert(occludes(hits@, light_distance, i as int));
                assert(is_first_occluder(hits@, light_distance, i as int));
                lemma_first_occluder_unique(hits@, light_distance, i as int);
                assert(first_occluder_spec(hits@, light_distance) == Some(i as int));
            }
            return Some(i);
        }
        i = i + 1;
    }
    proof {
        assert forall|k: int| !is_first_occluder(hits@, light_distance, k) by {
            if 0 <= k < hits@.len() {
                assert(!occludes(hits@, light_distance, k));
            }
        }
    }
    None
}

/// How much of the light is kept from a point: nothing where the light is in
/// plain view, else what the first occluder takes, see [`shadow_of`].
///
/// `hits` holds what the objects of the scene answer to the ray from the
/// point towards the light, `light_distance` the distance of the light.
pub fn cast_shadow(hits: &Vec<Intersect>, light_distance: Scalar) -> (r: Scalar)
    ensures
        r == shadow_spec(hits@, light_distance),
        r == Scalar::zero_spec() || r == (Scalar { bits: PARTIAL_SHADOW_BITS }) || r
            == Scalar::one_spec(),
{
    match first_occluder(hits, light_distance) {
        Some(i) => {
            let h: Intersect = hits[i];
            if h.material.alpha.ge(Scalar::from_bits(OPAQUE_BITS)) {
                Scalar::one()
            } else {
                Scalar::from_bits(PARTIAL_SHADOW_BITS)
            }
        },
        None => Scalar::zero(),
    }
}

/// Whether the objects of the scene have a say in what is done for a ray
/// with `depth` levels left. Where they have none, the step is the same for
/// every list of answers, the empty one too, so that no object need be asked.
pub fn answers_needed(depth: i32) -> (r: bool)
    ensures
        r == (depth > 0),
        !r ==> forall|hits: Seq<Intersect>| #[trigger] step_spec(depth, hits) == Step::Sky,
{
    depth > 0
}

/// What is done for a ray with `depth` levels left, to which the objects of
/// the scene answer `hits`, see [`step_spec`].
pub fn trace_step(depth: i32, hits: &Vec<Intersect>) -> (r: Step)
    ensures
        r == step_spec(depth, hits@),
{
    if depth <= 0 {
        return Step::Sky;
    }
    match nearest_index(hits) {
        None => Step::Sky,
        Some(j) => {
            let hit: Intersect = hits[j];
            let reflect: bool = hit.material.albedo[2].gt(Scalar::zero());
            let pass_through: bool = hit.material.alpha.lt(Scalar::one());
            Step::Surface { hit, reflect, pass_through, depth: depth - 1 }
        },
    }
}

/// What is done for a ray that comes from the camera: it has
/// [`DEFAULT_DEPTH`] levels left.
pub fn first_step(hits: &Vec<Intersect>) -> (r: Step)
    ensures
        r == step_spec(DEFAULT_DEPTH, hits@),
{
    trace_step(DEFAULT_DEPTH, hits)
}

/// A scene has at most one nearest hit.
pub proof fn lemma_nearest_unique(hits: Seq<Intersect>, j: int)
    requires
        is_nearest(hits, j),
    ensures
        forall|k: int| is_nearest(hits, k) ==> k == j,
        nearest_spec(hits) == Some(j),
{
    let chosen = choose|k: int| is_nearest(hits, k);
    assert(is_nearest(hits, chosen));
    assert forall|k: int| is_nearest(hits, k) implies k == j by {
        if k < j {
            assert(hits[j].distance.less(hits[k].distance));
            assert(!hits[j].distance.less(hits[k].distance));
        } else if j < k {
            assert(hits[k].distance.less(hits[j].distance));
            assert(!hits[k].distance.less(hits[j].distance));
        }
    }
}

/// A scene has at most one first occluder.
pub proof fn lemma_first_occluder_unique(hits: Seq<Intersect>, light_distance: Scalar, i: int)
    requires
        is_first_occluder(hits, light_distance, i),
    ensures
        forall|k: int| is_first_occluder(hits, light_distance, k) ==> k == i,
        first_occluder_spec(hits, light_distance) == Some(i),
{
    assert forall|k: int| is_first_occluder(hits, light_distance, k) implies k == i by {
        if k < i {
            // the answer at `k` occludes, yet nothing before `i` does
            assert(occludes(hits, light_distance, k));
            assert(!occludes(hits, light_distance, k));
        } else if i < k {
            // the answer at `i` occludes, yet nothing before `k` does
            assert(occludes(hits, light_distance, i));
            assert(!occludes(hits, light_distance, i));
        }
    }
    let chosen = choose|k: int| is_first_occluder(hits, light_distance, k);
    assert(is_first_occluder(hits, light_distance, chosen));
}

/// The nearest hit is a hit, at a distance that is a number, and no hit at
/// a distance that is a number is nearer.
pub proof fn lemma_nearest_is_least(hits: Seq<Intersect>, j: int)
    requires
        is_nearest(hits, j),
    ensures
        hits[j].is_intersecting,
        !hits[j].distance.nan(),
        forall|i: int|
            0 <= i < hits.len() && hits[i].is_intersecting && !(#[trigger] hits[i]).distance.nan()
                ==> hits[j].distance.less_eq(hits[i].distance),
{
}

/// With no level left a ray takes the colour of the sky: whatever the scene
/// holds, and whatever it answers.
pub proof fn lemma_no_depth_is_sky(depth: i32, hits: Seq<Intersect>)
    requires
        depth <= 0,
    ensures
        step_spec(depth, hits) == Step::Sky,
{
}

/// A ray that strikes nothing takes the colour of the sky.
pub proof fn lemma_no_hit_is_sky(depth: i32, hits: Seq<Intersect>)
    requires
        forall|i: int| 0 <= i < hits.len() ==> !(#[trigger] hits[i]).is_intersecting,
    ensures
        step_spec(depth, hits) == Step::Sky,
{
    assert forall|j: int| !is_nearest(hits, j) by {
        if 0 <= j < hits.len() {
            assert(!hits[j].is_intersecting);
        }
    }
}

/// An opaque surface hides what is behind it: where the nearest hit has the
/// opacity one, no ray is followed through it, so that nothing behind it has
/// a part in the colour.
pub proof fn lemma_opaque_hides(depth: i32, hits: Seq<Intersect>)
    requires
        step_spec(depth, hits) matches Step::Surface { hit, .. } && hit.material.alpha
            == Scalar::one_spec(),
    ensures
        step_spec(depth, hits) matches Step::Surface { pass_through, .. } && !pass_through,
{
}

/// What is done for a ray depends on the scene through its nearest hit
/// alone: two scenes with the same nearest hit call for the same step.
pub proof fn lemma_step_is_up_to_the_nearest(depth: i32, a: Seq<Intersect>, b: Seq<Intersect>, i: int, j: int)
    requires
        is_nearest(a, i),
        is_nearest(b, j),
        a[i] == b[j],
    ensures
        step_spec(depth, a) == step_spec(depth, b),
{
    lemma_nearest_unique(a, i);
    lemma_nearest_unique(b, j);
}

/// What lies behind the nearest hit has no say: an answer that is no hit, or
/// a hit farther away, can be put anywhere among the answers of a scene, and
/// the nearest hit and the step stay what they were.
pub proof fn lemma_farther_answers_have_no_say(
    depth: i32,
    hits: Seq<Intersect>,
    j: int,
    k: int,
    other: Intersect,
)
    requires
        is_nearest(hits, j),
        0 <= k <= hits.len(),
        !other.is_intersecting || other.distance.nan() || hits[j].distance.less(other.distance),
    ensures
        is_nearest(hits.insert(k, other), if k <= j { j + 1 } else { j }),
        step_spec(depth, hits.insert(k, other)) == step_spec(depth, hits),
{
    let more = hits.insert(k, other);
    let at = if k <= j { j + 1 } else { j };
    assert(more[at] == hits[j]);
    assert forall|i: int| 0 <= i < more.len() && more[i].is_intersecting implies !(#[trigger] more[i]).distance.less(
        more[at].distance,
    ) by {
        if i < k {
            assert(more[i] == hits[i]);
        } else if i > k {
            assert(more[i] == hits[i - 1]);
        }
    }
    assert forall|i: int| 0 <= i < at && in_reach(more, i) implies more[at].distance.less(
        (#[trigger] more[i]).distance,
    ) by {
        if i < k {
            assert(more[i] == hits[i]);
            assert(in_reach(hits, i));
        } else if i > k {
            assert(more[i] == hits[i - 1]);
            assert(in_reach(hits, i - 1));
        }
    }
    lemma_step_is_up_to_the_nearest(depth, more, hits, at, j);
}

/// Every further ray has one level less than the ray it springs from, and
/// none has less than no level: a ray with `depth` levels left is followed
/// through at most `depth` surfaces.
pub proof fn lemma_depth_runs_out(depth: i32, hits: Seq<Intersect>)
    ensures
        step_spec(depth, hits) matches Step::Surface { depth: left, .. } ==> 0 <= left && left
            == depth - 1,
{
}

} // verus!
