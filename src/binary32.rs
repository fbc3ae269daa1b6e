//! Orderings of IEEE-754 binary32 values, given by their bit patterns.
use vstd::prelude::*;

verus! {

/// Bit that holds the sign.
pub const SIGN_BIT: u32 = 0x8000_0000;

/// Bit pattern of positive infinity; above it (sign ignored) lie the NaNs.
pub const INFINITY_BITS: u32 = 0x7F80_0000;

/// The pattern without its sign bit.
pub open spec fn magnitude(u: u32) -> int {
    u as int % SIGN_BIT as int
}

/// The pattern encodes a NaN: exponent all ones, fraction not zero.
pub open spec fn spec_is_nan(u: u32) -> bool {
    magnitude(u) > INFINITY_BITS as int
}

/// The pattern encodes `+0.0` or `-0.0`.
pub open spec fn spec_is_zero(u: u32) -> bool {
    magnitude(u) == 0
}

/// The patterns encode the same value apart from NaN payloads: equal bits,
/// or `-0.0` beside `+0.0`.
pub open spec fn spec_same_value(u: u32, v: u32) -> bool {
    u == v || (spec_is_zero(u) && spec_is_zero(v))
}

/// Rank of a pattern in the IEEE-754 totalOrder predicate:
/// `-NaN < -inf < ... < -0.0 < +0.0 < ... < +inf < +NaN`.
/// Negative values rank below all others, in reverse order of magnitude.
pub open spec fn total_rank(u: u32) -> int {
    if u >= SIGN_BIT {
        0xFFFF_FFFF - u
    } else {
        u + SIGN_BIT
    }
}

/// `u` precedes or equals `v` in the total order.
pub open spec fn total_le(u: u32, v: u32) -> bool {
    total_rank(u) <= total_rank(v)
}

/// The IEEE-754 comparison `u < v`: false whenever a NaN takes part, and
/// `-0.0` and `+0.0` compare equal.
pub open spec fn spec_lt(u: u32, v: u32) -> bool {
    &&& !spec_is_nan(u)
    &&& !spec_is_nan(v)
    &&& !(spec_is_zero(u) && spec_is_zero(v))
    &&& total_rank(u) < total_rank(v)
}

/// Rank of `u` in the total order.
pub fn rank(u: u32) -> (r: u32)
    ensures
        r == total_rank(u),
{
    if u >= SIGN_BIT {
        0xFFFF_FFFF - u
    } else {
        u + SIGN_BIT
    }
}

/// Whether `u` encodes a NaN.
pub fn is_nan(u: u32) -> (r: bool)
    ensures
        r == spec_is_nan(u),
{
    let m: u32 = u % SIGN_BIT;
    m > INFINITY_BITS
}

/// Whether `u` encodes a zero of either sign.
pub fn is_zero(u: u32) -> (r: bool)
    ensures
        r == spec_is_zero(u),
{
    u % SIGN_BIT == 0
}

/// Whether `u` and `v` are the same pattern, or both zeros.
pub fn same_value(u: u32, v: u32) -> (r: bool)
    ensures
        r == spec_same_value(u, v),
{
    u == v || (is_zero(u) && is_zero(v))
}

/// The IEEE-754 comparison `u < v` on bit patterns.
pub fn lt(u: u32, v: u32) -> (r: bool)
    ensures
        r == spec_lt(u, v),
{
    if is_nan(u) || is_nan(v) || (is_zero(u) && is_zero(v)) {
        false
    } else {
        rank(u) < rank(v)
    }
}

} // verus!
