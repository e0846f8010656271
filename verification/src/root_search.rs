//! A collection of algorithms for use in root-finding: interval
//! bisection (`binary`) and fixed-point iteration (`fixed_point`).

use vstd::prelude::*;

use crate::arith::div_tz;
use crate::arith::midpoint;
use crate::sign::sgn;
use crate::sign::signum;

verus! {

/// `func` may return `0` at `x`: a root has been observed there.
pub open spec fn root_observed<F: Fn(i64) -> i64>(func: F, x: i64) -> bool {
    call_ensures(func, (x,), 0i64)
}

/// `func` may return values of the same nonzero sign at `a` and `b`.
pub open spec fn same_sign_observed<F: Fn(i64) -> i64>(func: F, a: i64, b: i64) -> bool {
    exists|fa: i64, fb: i64|
        #[trigger] call_ensures(func, (a,), fa) && #[trigger] call_ensures(func, (b,), fb)
            && sgn(fa as int) * sgn(fb as int) == 1
}

/// `func` may return values of strictly opposite sign at `lo` and `hi`:
/// the interval brackets a sign change.
pub open spec fn brackets<F: Fn(i64) -> i64>(func: F, lo: i64, hi: i64) -> bool {
    exists|flo: i64, fhi: i64|
        #[trigger] call_ensures(func, (lo,), flo) && #[trigger] call_ensures(func, (hi,), fhi)
            && sgn(flo as int) * sgn(fhi as int) == -1
}

/// Every step recorded in `trace` is an application of `func`: the
/// value after each entry is one `func` may return at that entry.
pub open spec fn iter_chain<F: Fn(i64) -> i64>(func: F, trace: Seq<i64>) -> bool {
    forall|i: int|
        #![trigger trace[i]]
        0 <= i < trace.len() - 1 ==> call_ensures(func, (trace[i],), trace[i + 1])
}

/// No recorded step met the tolerance: consecutive entries of `trace`
/// differ by at least `trunc_err`.
pub open spec fn no_step_converged(trace: Seq<i64>, trunc_err: int) -> bool {
    forall|i: int|
        #![trigger trace[i]]
        0 <= i < trace.len() - 1 ==> vstd::math::abs(trace[i + 1] - trace[i]) >= trunc_err
}

/// Find a root of a continuous function using binary search.
///
/// `func` must be callable over the whole closed interval spanned by
/// `domain`, and `trunc_err` must be positive, that is at least one
/// grid step. The search works on the sign of `func`: an exact zero at
/// an endpoint is returned at once; endpoints of the same nonzero sign
/// are a failure, since no sign change guarantees no root is findable;
/// otherwise the interval is halved around the sign change until a
/// midpoint hits zero, the width falls under `trunc_err`, or the grid
/// cannot be split further.
///
/// On success the result lies in the interval and is either an exact
/// observed root, an endpoint where zero was observed, or a point of a
/// bracketing interval that is narrower than `trunc_err` or a single
/// grid step wide; a reversed domain ends at once at the first
/// midpoint. On failure, values of the same nonzero sign were observed
/// at both endpoints.
pub fn binary<F: Fn(i64) -> i64 + Copy>(func: F, domain: (i64, i64), trunc_err: i64) -> (res:
    Result<i64, Box<&'static str>>)
    requires
        trunc_err >= 1,
        forall|x: i64|
            vstd::math::min(domain.0 as int, domain.1 as int) <= x <= vstd::math::max(
                domain.0 as int,
                domain.1 as int,
            ) ==> call_requires(func, (x,)),
    ensures
        res matches Err(m) ==> same_sign_observed(func, domain.0, domain.1) && m@
            == "Error: no sign change at endpoints!"@,
        res matches Ok(r) ==> vstd::math::min(domain.0 as int, domain.1 as int) <= r
            <= vstd::math::max(domain.0 as int, domain.1 as int),
        res matches Ok(r) ==> ((r == domain.0 && root_observed(func, domain.0)) || (r == domain.1
            && root_observed(func, domain.1)) || root_observed(func, r) || (exists|
            lo: i64,
            hi: i64,
        |
            #[trigger] brackets(func, lo, hi) && vstd::math::min(
                domain.0 as int,
                domain.1 as int,
            ) <= lo <= r <= hi <= vstd::math::max(domain.0 as int, domain.1 as int) && (hi - lo
                < trunc_err || hi - lo <= 1) && r == div_tz(lo + hi, 2)) || (domain.1 < domain.0
            && brackets(func, domain.1, domain.0) && r == div_tz(
            domain.0 as int + domain.1 as int,
            2,
        ))),
{
    let (mut start, mut end): (i64, i64) = domain;
    let fs: i64 = func(start);
    let mut start_val: i64 = signum(fs);
    let fe: i64 = func(end);
    let end_val: i64 = signum(fe);

    if start_val == 0 {
        return Ok(start);
    }
    if end_val == 0 {
        return Ok(end);
    }
    if start_val * end_val > 0 {
        assert(same_sign_observed(func, domain.0, domain.1));
        return Err(Box::new("Error: no sign change at endpoints!"));
    }

    loop
        invariant
            trunc_err >= 1,
            forall|x: i64|
                vstd::math::min(domain.0 as int, domain.1 as int) <= x <= vstd::math::max(
                    domain.0 as int,
                    domain.1 as int,
                ) ==> call_requires(func, (x,)),
            vstd::math::min(domain.0 as int, domain.1 as int) <= start <= vstd::math::max(
                domain.0 as int,
                domain.1 as int,
            ),
            vstd::math::min(domain.0 as int, domain.1 as int) <= end <= vstd::math::max(
                domain.0 as int,
                domain.1 as int,
            ),
            start_val == 1 || start_val == -1,
            exists|v: i64| #[trigger] call_ensures(func, (start,), v) && sgn(v as int) == start_val,
            exists|v: i64|
                #[trigger] call_ensures(func, (end,), v) && sgn(v as int) == -start_val,
            start <= end || (start == domain.0 && end == domain.1),
        decreases end - start,
    {
        let mid: i64 = midpoint(start, end);
        let fm: i64 = func(mid);
        let test_val: i64 = signum(fm);

        if test_val == 0 {
            assert(root_observed(func, mid));
            return Ok(mid);
        }
        if (end as i128 - start as i128) < trunc_err as i128 {
            if start <= end {
                assert(brackets(func, start, end));
            } else {
                assert(brackets(func, domain.1, domain.0));
            }
            return Ok(mid);
        }
        if mid == start || mid == end {
            assert(brackets(func, start, end));
            return Ok(mid);
        }
        if test_val * start_val > 0 {
            start = mid;
            start_val = test_val;
        } else {
            end = mid;
        }
    }
}

/// Return the fixed point of a function where one exists.
///
/// Starting from `initial_val`, the function is applied repeatedly, at
/// most `max_iter - 1` times, each starting value being recorded in a
/// trace. A step whose result differs from its starting value by less
/// than `trunc_err` ends the search: the result is that value together
/// with the trace of every pre-convergence iterate. If no step meets
/// the tolerance, the final value is pushed onto the trace and the full
/// trace of `max_iter` entries is returned as the failure payload, for
/// diagnosis of the divergent or slow-converging sequence.
pub fn fixed_point<F: Fn(i64) -> i64 + Copy>(
    func: F,
    initial_val: i64,
    trunc_err: i64,
    max_iter: usize,
) -> (res: Result<(i64, Vec<i64>), Vec<i64>>)
    requires
        trunc_err >= 1,
        max_iter >= 1,
        forall|x: i64| call_requires(func, (x,)),
    ensures
        res matches Ok(p) ==> ({
            &&& 1 <= p.1.len() <= max_iter - 1
            &&& p.1[0] == initial_val
            &&& iter_chain(func, p.1@)
            &&& no_step_converged(p.1@, trunc_err as int)
            &&& call_ensures(func, (p.1@.last(),), p.0)
            &&& vstd::math::abs(p.0 - p.1@.last()) < trunc_err
        }),
        res matches Err(t) ==> ({
            &&& t.len() == max_iter
            &&& t[0] == initial_val
            &&& iter_chain(func, t@)
            &&& no_step_converged(t@, trunc_err as int)
        }),
{
    let mut func_vals: Vec<i64> = Vec::new();
    let mut current_val: i64 = initial_val;
    let mut i: usize = 1;
    while i < max_iter
        invariant
            1 <= i <= max_iter,
            trunc_err >= 1,
            forall|x: i64| call_requires(func, (x,)),
            func_vals.len() == i - 1,
            func_vals@.push(current_val)[0] == initial_val,
            iter_chain(func, func_vals@.push(current_val)),
            no_step_converged(func_vals@.push(current_val), trunc_err as int),
        decreases max_iter - i,
    {
        func_vals.push(current_val);
        let next_val: i64 = func(current_val);
        let d: i128 = next_val as i128 - current_val as i128;
        let ad: i128 = if d < 0 {
            -d
        } else {
            d
        };
        if ad < trunc_err as i128 {
            current_val = next_val;
            return Ok((current_val, func_vals));
        }
        current_val = next_val;
        i = i + 1;
    }
    func_vals.push(current_val);
    Err(func_vals)
}

} // verus!
