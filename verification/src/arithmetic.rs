//! Division that rounds towards zero.

use vstd::prelude::*;

verus! {

/// `v` divided by `d`, rounded towards zero.
pub open spec fn truncated(v: int, d: int) -> int {
    if v >= 0 {
        v / d
    } else {
        -((-v) / d)
    }
}

/// Half of `v`, rounded towards zero.
pub fn half(v: i32) -> (r: i32)
    requires
        v > i32::MIN,
    ensures
        r == truncated(v as int, 2),
{
    if v >= 0 {
        v / 2
    } else {
        -((-v) / 2)
    }
}

/// A third of `v`, rounded towards zero.
pub fn third(v: i32) -> (r: i32)
    requires
        v > i32::MIN,
    ensures
        r == truncated(v as int, 3),
{
    if v >= 0 {
        v / 3
    } else {
        -((-v) / 3)
    }
}

/// Division towards zero: what is left over is less than the divisor, and never lies beyond the
/// dividend.
pub proof fn law_truncated(v: int, d: int)
    requires
        d > 0,
    ensures
        v >= 0 ==> d * truncated(v, d) <= v < d * truncated(v, d) + d,
        v <= 0 ==> d * truncated(v, d) - d < v <= d * truncated(v, d),
        truncated(-v, d) == -truncated(v, d),
{
    let w = if v >= 0 {
        v
    } else {
        -v
    };
    assert(d * (w / d) <= w < d * (w / d) + d) by (nonlinear_arith)
        requires
            d > 0,
            w >= 0,
    ;
    assert(d * (-(w / d)) == -(d * (w / d))) by (nonlinear_arith);
}

} // verus!
