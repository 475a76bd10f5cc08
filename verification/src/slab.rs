//! The slab method for axis-aligned boxes, as far as it decides.
//!
//! A box is the meet of three slabs, one per axis. A ray is inside a slab
//! between two multipliers of its direction, the slab's span. The ray strikes
//! the box where the three spans overlap. The caller divides; this module
//! orders, compares and chooses.
use vstd::prelude::*;
use crate::scalar::Scalar;
use crate::scalar::INFINITY_BITS;
use crate::scalar::NEG_INFINITY_BITS;

verus! {

/// The pattern of 1e-8. A direction component of smaller magnitude runs
/// parallel to its slab.
pub const PARALLEL_EPS_BITS: u32 = 0x322b_cc77;

/// The part of a ray inside one slab: from `enter` to `exit`, as multipliers
/// of the ray's direction.
#[derive(Clone, Copy, Debug, PartialEq, Eq, Structural)]
pub struct Span {
    pub enter: Scalar,
    pub exit: Scalar,
}

impl Span {
    /// The span of a ray that runs beside its slab and never enters it.
    pub open spec fn never() -> Span {
        Span { enter: Scalar { bits: INFINITY_BITS }, exit: Scalar { bits: NEG_INFINITY_BITS } }
    }

    /// The span of a ray that runs within its slab and never leaves it.
    pub open spec fn always() -> Span {
        Span { enter: Scalar { bits: NEG_INFINITY_BITS }, exit: Scalar { bits: INFINITY_BITS } }
    }
}

/// A direction component this small is parallel to the slab.
pub open spec fn parallel(dir: Scalar) -> bool {
    dir.abs_of().less(Scalar { bits: PARALLEL_EPS_BITS })
}

/// The span of a ray in the slab between `lo` and `hi` on one axis.
///
/// `origin` and `dir` are the ray's components on that axis, `t_lo` and `t_hi`
/// the quotients `(lo - origin) / dir` and `(hi - origin) / dir`. For a
/// parallel ray the quotients are not looked at.
pub open spec fn axis_span_spec(
    origin: Scalar,
    dir: Scalar,
    lo: Scalar,
    hi: Scalar,
    t_lo: Scalar,
    t_hi: Scalar,
) -> Span {
    if parallel(dir) {
        if origin.less(lo) || hi.less(origin) {
            Span::never()
        } else {
            Span::always()
        }
    } else if t_lo.less_eq(t_hi) {
        Span { enter: t_lo, exit: t_hi }
    } else {
        Span { enter: t_hi, exit: t_lo }
    }
}

/// Where all three spans have been entered: the greatest of the entries.
pub open spec fn entry_of(x: Span, y: Span, z: Span) -> Scalar {
    x.enter.max_of(y.enter).max_of(z.enter)
}

/// Where the first of the three spans is left: the least of the exits.
pub open spec fn exit_of(x: Span, y: Span, z: Span) -> Scalar {
    x.exit.min_of(y.exit).min_of(z.exit)
}

/// The distance at which a ray with these spans strikes the box, if it does.
///
/// The ray misses where it leaves one slab before it has entered another, and
/// where the box lies behind it. It strikes at the entry, or at the exit where
/// the entry lies behind the origin.
pub open spec fn hit_distance_spec(x: Span, y: Span, z: Span) -> Option<Scalar> {
    let enter = entry_of(x, y, z);
    let exit = exit_of(x, y, z);
    if exit.less(enter) || exit.less(Scalar { bits: 0 }) {
        None
    } else if (Scalar { bits: 0 }).less_eq(enter) {
        Some(enter)
    } else {
        Some(exit)
    }
}

/// The span of a ray in one slab, see [`axis_span_spec`].
pub fn axis_span(
    origin: Scalar,
    dir: Scalar,
    lo: Scalar,
    hi: Scalar,
    t_lo: Scalar,
    t_hi: Scalar,
) -> (r: Span)
    ensures
        r == axis_span_spec(origin, dir, lo, hi, t_lo, t_hi),
{
    if dir.abs().lt(Scalar::from_bits(PARALLEL_EPS_BITS)) {
        if origin.lt(lo) || origin.gt(hi) {
            Span { enter: Scalar::infinity(), exit: Scalar::neg_infinity() }
        } else {
            Span { enter: Scalar::neg_infinity(), exit: Scalar::infinity() }
        }
    } else if t_lo.le(t_hi) {
        Span { enter: t_lo, exit: t_hi }
    } else {
        Span { enter: t_hi, exit: t_lo }
    }
}

/// The distance at which a ray with these spans strikes the box, see
/// [`hit_distance_spec`].
pub fn hit_distance(x: Span, y: Span, z: Span) -> (r: Option<Scalar>)
    ensures
        r == hit_distance_spec(x, y, z),
        r matches Some(t) ==> t == entry_of(x, y, z) || t == exit_of(x, y, z),
        r matches Some(t) ==> !t.less(Scalar::zero_spec()),
{
    let enter: Scalar = x.enter.max(y.enter).max(z.enter);
    let exit: Scalar = x.exit.min(y.exit).min(z.exit);
    if enter.gt(exit) || exit.lt(Scalar::zero()) {
        None
    } else if enter.ge(Scalar::zero()) {
        Some(enter)
    } else {
        Some(exit)
    }
}

/// A ray that leaves one slab before it enters another misses the box,
/// whatever the third slab says.
pub proof fn lemma_disjoint_spans_miss(x: Span, y: Span, z: Span)
    requires
        !x.enter.nan() && !x.exit.nan(),
        !y.enter.nan() && !y.exit.nan(),
        !z.enter.nan() && !z.exit.nan(),
        x.exit.less(y.enter) || x.exit.less(z.enter) || y.exit.less(x.enter) || y.exit.less(
            z.enter,
        ) || z.exit.less(x.enter) || z.exit.less(y.enter),
    ensures
        hit_distance_spec(x, y, z) is None,
{
}

/// A ray that runs beside any one slab misses the box.
pub proof fn lemma_beside_a_slab_miss(x: Span, y: Span, z: Span)
    requires
        x == Span::never() || y == Span::never() || z == Span::never(),
    ensures
        hit_distance_spec(x, y, z) is None,
{
}

/// A ray that starts inside the box, hence inside each slab, strikes the box
/// where it first leaves a slab: at the least exit, never at an entry behind
/// the origin.
pub proof fn lemma_inside_hits_at_exit(x: Span, y: Span, z: Span)
    requires
        x.enter.less(Scalar::zero_spec()) && Scalar::zero_spec().less_eq(x.exit),
        y.enter.less(Scalar::zero_spec()) && Scalar::zero_spec().less_eq(y.exit),
        z.enter.less(Scalar::zero_spec()) && Scalar::zero_spec().less_eq(z.exit),
    ensures
        hit_distance_spec(x, y, z) == Some(exit_of(x, y, z)),
        entry_of(x, y, z).less(Scalar::zero_spec()),
        exit_of(x, y, z) == x.exit || exit_of(x, y, z) == y.exit || exit_of(x, y, z) == z.exit,
        exit_of(x, y, z).less_eq(x.exit),
        exit_of(x, y, z).less_eq(y.exit),
        exit_of(x, y, z).less_eq(z.exit),
{
}

/// A ray that starts outside the box and strikes it does so at the greatest
/// entry.
pub proof fn lemma_outside_hits_at_entry(x: Span, y: Span, z: Span)
    requires
        !x.enter.nan() && !x.exit.nan(),
        !y.enter.nan() && !y.exit.nan(),
        !z.enter.nan() && !z.exit.nan(),
        Scalar::zero_spec().less_eq(entry_of(x, y, z)),
        entry_of(x, y, z).less_eq(exit_of(x, y, z)),
    ensures
        hit_distance_spec(x, y, z) == Some(entry_of(x, y, z)),
        x.enter.less_eq(entry_of(x, y, z)),
        y.enter.less_eq(entry_of(x, y, z)),
        z.enter.less_eq(entry_of(x, y, z)),
{
}

} // verus!
