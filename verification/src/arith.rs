//! Integer arithmetic helpers shared by the search engine and the
//! functional transforms: truncating division (the quotient Rust's `/`
//! computes on signed integers) and the bisection midpoint.

use vstd::prelude::*;

verus! {

/// True when `v` fits in an `i64`.
pub open spec fn in64(v: int) -> bool {
    i64::MIN <= v <= i64::MAX
}

/// The quotient of `a / b` rounded toward zero, as Rust's signed
/// division computes it. Unspecified for `b == 0`.
pub open spec fn div_tz(a: int, b: int) -> int {
    if (a >= 0) == (b >= 0) {
        vstd::math::abs(a) as int / vstd::math::abs(b) as int
    } else {
        -(vstd::math::abs(a) as int / vstd::math::abs(b) as int)
    }
}

/// Divide `a` by `b`, rounding toward zero. The bounds keep the
/// magnitudes of both operands representable in an `i128`.
pub fn div_trunc(a: i128, b: i128) -> (q: i128)
    requires
        b != 0,
        i64::MIN <= a <= i64::MAX,
        i64::MIN - 2 <= b <= i64::MAX + 2,
    ensures
        q == div_tz(a as int, b as int),
{
    let na: i128 = if a < 0 {
        -a
    } else {
        a
    };
    let nb: i128 = if b < 0 {
        -b
    } else {
        b
    };
    let nq: i128 = na / nb;
    if (a < 0) != (b < 0) {
        -nq
    } else {
        nq
    }
}

/// Midpoint of `s` and `e` on the grid, safe against overflow.
pub fn midpoint(s: i64, e: i64) -> (m: i64)
    ensures
        m == div_tz(s + e, 2),
        vstd::math::min(s as int, e as int) <= m <= vstd::math::max(s as int, e as int),
        s + 2 <= e ==> s < m < e,
{
    let t: i128 = s as i128 + e as i128;
    let m128: i128 = t / 2;
    proof {
        lemma_midpoint_bounds(s as int, e as int);
    }
    m128 as i64
}

/// The truncated midpoint of an interval lies inside the interval, and
/// strictly inside once the interval is at least two grid steps wide.
pub proof fn lemma_midpoint_bounds(s: int, e: int)
    ensures
        vstd::math::min(s, e) <= div_tz(s + e, 2) <= vstd::math::max(s, e),
        s + 2 <= e ==> s < div_tz(s + e, 2) < e,
{
    let t = s + e;
    if t >= 0 {
        assert(div_tz(t, 2) == t / 2);
        assert(2 * (t / 2) <= t < 2 * (t / 2) + 2) by (nonlinear_arith);
    } else {
        assert(div_tz(t, 2) == -((-t) / 2));
        assert(2 * ((-t) / 2) <= -t < 2 * ((-t) / 2) + 2) by (nonlinear_arith);
    }
}

} // verus!
