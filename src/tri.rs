//! Control points of a triangular membership function, and the routing of
//! an input to the segment that evaluates it.
use vstd::prelude::*;

use crate::binary32::{
    SIGN_BIT, is_nan, lt, rank, same_value, spec_is_nan, spec_lt, spec_same_value,
    total_le, total_rank,
};

verus! {

/// The three control points of a triangle, as binary32 bit patterns: left
/// foot `a`, peak `xstar` and right foot `b`.
#[derive(Clone, Copy, Debug, PartialEq, Eq, Structural)]
pub struct TriParams {
    pub a: u32,
    pub xstar: u32,
    pub b: u32,
}

/// Where an input lands once it is clamped into `[a, b]`.
#[derive(Clone, Copy, Debug, PartialEq, Eq, Structural)]
pub enum Segment {
    /// Left of the peak: the rising line is evaluated at the clamped input.
    Rising(u32),
    /// Right of the peak: the falling line is evaluated at the clamped input.
    Falling(u32),
    /// On the peak: full membership.
    Peak,
    /// The input is NaN, and so is its membership.
    NotANumber,
}

/// No IEEE comparison puts the points out of order (`a <= xstar <= b` as far
/// as a NaN lets it be said).
pub open spec fn ieee_ordered(a: u32, xstar: u32, b: u32) -> bool {
    !spec_lt(xstar, a) && !spec_lt(b, xstar) && !spec_lt(b, a)
}

/// The three values in ascending total order.
pub open spec fn sorted3(a: u32, xstar: u32, b: u32) -> TriParams {
    if total_le(a, xstar) {
        if total_le(xstar, b) {
            TriParams { a, xstar, b }
        } else if total_le(a, b) {
            TriParams { a, xstar: b, b: xstar }
        } else {
            TriParams { a: b, xstar: a, b: xstar }
        }
    } else {
        if total_le(a, b) {
            TriParams { a: xstar, xstar: a, b }
        } else if total_le(xstar, b) {
            TriParams { a: xstar, xstar: b, b: a }
        } else {
            TriParams { a: b, xstar, b: a }
        }
    }
}

/// The points kept as given when they are in order, else sorted by the
/// total order.
pub open spec fn construct(a: u32, xstar: u32, b: u32) -> TriParams {
    if ieee_ordered(a, xstar, b) {
        TriParams { a, xstar, b }
    } else {
        sorted3(a, xstar, b)
    }
}

/// `p` holds the same three values as `(a, xstar, b)`, in some order.
pub open spec fn is_permutation(p: TriParams, a: u32, xstar: u32, b: u32) -> bool {
    ||| p == TriParams { a, xstar, b }
    ||| p == TriParams { a, xstar: b, b: xstar }
    ||| p == TriParams { a: xstar, xstar: a, b }
    ||| p == TriParams { a: xstar, xstar: b, b: a }
    ||| p == TriParams { a: b, xstar: a, b: xstar }
    ||| p == TriParams { a: b, xstar, b: a }
}

/// `x` clamped into `[lo, hi]` by IEEE comparisons: raised to `lo` when below
/// it, then lowered to `hi` when above it. A NaN is left as it is.
pub open spec fn spec_clamp(x: u32, lo: u32, hi: u32) -> u32 {
    let y = if spec_lt(x, lo) { lo } else { x };
    if spec_lt(hi, y) { hi } else { y }
}

impl TriParams {
    /// The points are in order as IEEE comparisons see them.
    pub open spec fn wf(self) -> bool {
        ieee_ordered(self.a, self.xstar, self.b)
    }

    /// Where input `x` is evaluated.
    pub open spec fn segment_of(self, x: u32) -> Segment {
        if spec_is_nan(x) {
            Segment::NotANumber
        } else {
            let c = spec_clamp(x, self.a, self.b);
            if spec_same_value(c, self.xstar) {
                Segment::Peak
            } else if total_rank(c) < total_rank(self.xstar) {
                Segment::Rising(c)
            } else {
                Segment::Falling(c)
            }
        }
    }
}

/// `x` clamped into `[lo, hi]` by IEEE comparisons.
pub fn clamp(x: u32, lo: u32, hi: u32) -> (r: u32)
    ensures
        r == spec_clamp(x, lo, hi),
{
    let y = if lt(x, lo) {
        lo
    } else {
        x
    };
    if lt(hi, y) {
        hi
    } else {
        y
    }
}

/// Whether `u` precedes or equals `v` in the total order.
fn precedes(u: u32, v: u32) -> (r: bool)
    ensures
        r == total_le(u, v),
{
    rank(u) <= rank(v)
}

/// The three values in ascending total order.
fn sort3(a: u32, xstar: u32, b: u32) -> (r: TriParams)
    ensures
        r == sorted3(a, xstar, b),
{
    if precedes(a, xstar) {
        if precedes(xstar, b) {
            TriParams { a, xstar, b }
        } else if precedes(a, b) {
            TriParams { a, xstar: b, b: xstar }
        } else {
            TriParams { a: b, xstar: a, b: xstar }
        }
    } else {
        if precedes(a, b) {
            TriParams { a: xstar, xstar: a, b }
        } else if precedes(xstar, b) {
            TriParams { a: xstar, xstar: b, b: a }
        } else {
            TriParams { a: b, xstar, b: a }
        }
    }
}

impl TriParams {
    /// Takes the control points in any order. When an IEEE comparison finds
    /// them out of order (`a > xstar`, `xstar > b` or `b < a`), all three are
    /// sorted by the total order; otherwise they are kept as given.
    pub fn new(a: u32, xstar: u32, b: u32) -> (r: TriParams)
        ensures
            r == construct(a, xstar, b),
            r.wf(),
            is_permutation(r, a, xstar, b),
            !ieee_ordered(a, xstar, b) ==> total_le(r.a, r.xstar) && total_le(r.xstar, r.b),
    {
        proof {
            lemma_construct_wf(a, xstar, b);
            lemma_sorted3(a, xstar, b);
        }
        if lt(xstar, a) || lt(b, xstar) || lt(b, a) {
            sort3(a, xstar, b)
        } else {
            TriParams { a, xstar, b }
        }
    }

    /// Routes input `x`: a NaN stays NaN; any other input is clamped into
    /// `[a, b]`. A clamped value equal to the peak (`-0.0` and `+0.0` alike)
    /// is the peak; any other is placed by the total order.
    pub fn locate(&self, x: u32) -> (r: Segment)
        ensures
            r == self.segment_of(x),
    {
        if is_nan(x) {
            Segment::NotANumber
        } else {
            let c = clamp(x, self.a, self.b);
            if same_value(c, self.xstar) {
                Segment::Peak
            } else if rank(c) < rank(self.xstar) {
                Segment::Rising(c)
            } else {
                Segment::Falling(c)
            }
        }
    }
}

/// The sorted triple is in total order and holds the values it was given.
pub proof fn lemma_sorted3(a: u32, xstar: u32, b: u32)
    ensures
        total_le(sorted3(a, xstar, b).a, sorted3(a, xstar, b).xstar),
        total_le(sorted3(a, xstar, b).xstar, sorted3(a, xstar, b).b),
        is_permutation(sorted3(a, xstar, b), a, xstar, b),
{
}

/// Points in total order are in order for IEEE comparisons too.
pub proof fn lemma_total_sorted_is_ordered(p: TriParams)
    requires
        total_le(p.a, p.xstar),
        total_le(p.xstar, p.b),
    ensures
        p.wf(),
{
}

/// Whatever points are given, the constructed triangle is in order.
pub proof fn lemma_construct_wf(a: u32, xstar: u32, b: u32)
    ensures
        construct(a, xstar, b).wf(),
{
    lemma_sorted3(a, xstar, b);
    lemma_total_sorted_is_ordered(sorted3(a, xstar, b));
}

/// The three values hold both `+0.0` and `-0.0`.
pub open spec fn mixed_zeros(a: u32, xstar: u32, b: u32) -> bool {
    (a == 0 || xstar == 0 || b == 0) && (a == SIGN_BIT || xstar == SIGN_BIT || b == SIGN_BIT)
}

/// One of the three values is a NaN.
pub open spec fn any_nan(a: u32, xstar: u32, b: u32) -> bool {
    spec_is_nan(a) || spec_is_nan(xstar) || spec_is_nan(b)
}

/// Construction does not depend on the order of its arguments: every
/// permutation of a triple that is sorted in the total order builds the same
/// triangle as the sorted triple itself, which it keeps unchanged. This holds
/// unless the triple mixes `+0.0` with `-0.0`, or holds a NaN beside another
/// value, where IEEE comparisons leave some permutations unsorted.
pub proof fn lemma_order_invariance(a: u32, xstar: u32, b: u32, p: TriParams)
    requires
        total_le(a, xstar),
        total_le(xstar, b),
        is_permutation(p, a, xstar, b),
        (a == xstar && xstar == b) || (!any_nan(a, xstar, b) && !mixed_zeros(a, xstar, b)),
    ensures
        construct(a, xstar, b) == (TriParams { a, xstar, b }),
        construct(p.a, p.xstar, p.b) == (TriParams { a, xstar, b }),
{
    lemma_total_sorted_is_ordered(TriParams { a, xstar, b });
    lemma_sorted3(p.a, p.xstar, p.b);
}

/// The peak of any constructed triangle has full membership, unless the
/// peak is a NaN.
pub proof fn lemma_peak(a: u32, xstar: u32, b: u32)
    requires
        !spec_is_nan(construct(a, xstar, b).xstar),
    ensures
        construct(a, xstar, b).segment_of(construct(a, xstar, b).xstar) == Segment::Peak,
{
    lemma_construct_wf(a, xstar, b);
}

/// In a triangle with `a < xstar < b`, each foot is evaluated, unclamped, on
/// its own line: `a` on the rising one, `b` on the falling one.
pub proof fn lemma_feet(p: TriParams)
    requires
        spec_lt(p.a, p.xstar),
        spec_lt(p.xstar, p.b),
    ensures
        p.segment_of(p.a) == Segment::Rising(p.a),
        p.segment_of(p.b) == Segment::Falling(p.b),
{
}

/// An input below the left foot is evaluated as the left foot is, one above
/// the right foot as the right foot is.
pub proof fn lemma_clamp_outside(p: TriParams, x: u32)
    requires
        p.wf(),
    ensures
        spec_lt(x, p.a) ==> p.segment_of(x) == p.segment_of(p.a),
        spec_lt(p.b, x) ==> p.segment_of(x) == p.segment_of(p.b),
{
}

/// A NaN input has NaN membership, whatever the triangle.
pub proof fn lemma_nan_propagates(p: TriParams, x: u32)
    requires
        spec_is_nan(x),
    ensures
        p.segment_of(x) == Segment::NotANumber,
{
}

/// Two routings that agree up to the sign of a zero at which a line is
/// evaluated.
pub open spec fn same_routing(s: Segment, t: Segment) -> bool {
    match (s, t) {
        (Segment::Rising(c), Segment::Rising(d)) => spec_same_value(c, d),
        (Segment::Falling(c), Segment::Falling(d)) => spec_same_value(c, d),
        _ => s == t,
    }
}

/// `-0.0` is evaluated as `+0.0` is, in any triangle in order.
pub proof fn lemma_signed_zero(p: TriParams)
    requires
        p.wf(),
    ensures
        same_routing(p.segment_of(SIGN_BIT), p.segment_of(0)),
{
}

/// In a triangle in order with a peak that is not NaN, the falling line is
/// used only right of the peak and the rising line only left of it.
pub proof fn lemma_sides(p: TriParams, x: u32)
    requires
        p.wf(),
        !spec_is_nan(p.xstar),
        !spec_is_nan(x),
    ensures
        !spec_lt(p.xstar, x) ==> !(p.segment_of(x) is Falling),
        !spec_lt(x, p.xstar) ==> !(p.segment_of(x) is Rising),
{
}

/// A peak on the left foot makes a pure descending ramp: no input that is not
/// NaN reaches the rising line. A peak on the right foot makes a pure
/// ascending ramp: none reaches the falling line.
pub proof fn lemma_ramps(p: TriParams, x: u32)
    requires
        p.wf(),
        !spec_is_nan(p.xstar),
        !spec_is_nan(x),
    ensures
        spec_same_value(p.a, p.xstar) ==> !(p.segment_of(x) is Rising),
        spec_same_value(p.xstar, p.b) ==> !(p.segment_of(x) is Falling),
{
}

} // verus!
