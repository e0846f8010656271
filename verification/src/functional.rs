//! A collection of 'functionals' for use in fixed-point iteration.
//!
//! Each operation takes one or two continuous functions, given as
//! `Fn(i64) -> i64` values, and returns a new continuous function. The
//! transform itself computes nothing; the wrapped functions are invoked
//! only when the returned function is called. The contracts describe
//! the returned function relationally: whatever it may return at `x` is
//! tied to values the wrapped functions may return at `x`.

use vstd::prelude::*;

use crate::arith::div_trunc;
use crate::arith::div_tz;
use crate::arith::in64;

verus! {

/// The transform `f(x) -> x - f(x)`, which turns "find a root of `f`"
/// into "find a fixed point of `x - f(x)`".
///
/// The returned function may be called wherever `func` may be called
/// and the difference cannot leave the grid; whatever it returns is
/// `x - fr` for some value `fr` that `func` may return at `x`.
pub fn x_minus<F: Fn(i64) -> i64 + Copy>(func: F) -> (g: impl Fn(i64) -> i64 + Copy)
    ensures
        forall|x: i64|
            (call_requires(func, (x,)) && (forall|fr: i64|
                call_ensures(func, (x,), fr) ==> in64(x - fr))) ==> call_requires(g, (x,)),
        forall|x: i64, r: i64|
            call_ensures(g, (x,), r) ==> exists|fr: i64|
                #[trigger] call_ensures(func, (x,), fr) && r == x - fr,
{
    let g = move |x: i64| -> (r: i64)
        requires
            call_requires(func, (x,)),
            forall|fr: i64| call_ensures(func, (x,), fr) ==> in64(x - fr),
        ensures
            exists|fr: i64| #[trigger] call_ensures(func, (x,), fr) && r == x - fr,
        {
            let fr: i64 = func(x);
            x - fr
        };
    g
}

/// The identity transform: the returned function is `func` itself, so
/// it may return at `x` exactly what `func` may return at `x`.
pub fn identity<F: Fn(i64) -> i64 + Copy>(func: F) -> (g: F)
    ensures
        g == func,
        forall|x: i64| call_requires(func, (x,)) ==> call_requires(g, (x,)),
        forall|x: i64, r: i64| call_ensures(g, (x,), r) <==> call_ensures(func, (x,), r),
{
    func
}

/// The transform `f(x) -> f(x) / (2 + k)`, with the quotient rounded
/// toward zero, unless `k == -2`: a divisor of zero is absorbed into
/// the constant function `1` rather than reported, since `x -> x - 1`
/// has no fixed point and iteration on it simply fails to converge.
pub fn frac<F: Fn(i64) -> i64 + Copy>(func: F, k: i64) -> (g: impl Fn(i64) -> i64 + Copy)
    ensures
        k == -2 ==> forall|x: i64| call_requires(g, (x,)),
        forall|x: i64, r: i64| call_ensures(g, (x,), r) && k == -2 ==> r == 1,
        k != -2 ==> forall|x: i64|
            (call_requires(func, (x,)) && (forall|fr: i64|
                call_ensures(func, (x,), fr) ==> in64(div_tz(fr as int, 2 + k))))
                ==> call_requires(g, (x,)),
        k != -2 ==> forall|x: i64, r: i64|
            call_ensures(g, (x,), r) ==> exists|fr: i64|
                #[trigger] call_ensures(func, (x,), fr) && r == div_tz(fr as int, 2 + k),
{
    let g = move |x: i64| -> (r: i64)
        requires
            k != -2 ==> call_requires(func, (x,)),
            k != -2 ==> forall|fr: i64|
                call_ensures(func, (x,), fr) ==> in64(div_tz(fr as int, 2 + k)),
        ensures
            k == -2 ==> r == 1,
            k != -2 ==> exists|fr: i64|
                #[trigger] call_ensures(func, (x,), fr) && r == div_tz(fr as int, 2 + k),
        {
            if k == -2 {
                1
            } else {
                let fr: i64 = func(x);
                let q: i128 = div_trunc(fr as i128, 2 + k as i128);
                q as i64
            }
        };
    g
}

/// The Newton-Raphson transform `(f, f') -> f(x) / f'(x)`, the
/// correction term of the classical update `x - f(x)/f'(x)`, with the
/// quotient rounded toward zero. Where the derivative vanishes at the
/// point of evaluation the returned function yields `1` for that call
/// instead of dividing by zero.
///
/// The derivative is sampled once per call and that one sample both
/// decides the zero test and serves as the divisor.
pub fn newton_raphson<F: Fn(i64) -> i64 + Copy, D: Fn(i64) -> i64 + Copy>(
    func: F,
    deriv: D,
) -> (g: impl Fn(i64) -> i64 + Copy)
    ensures
        forall|x: i64|
            (call_requires(func, (x,)) && call_requires(deriv, (x,)) && (forall|fr: i64, dr: i64|
                call_ensures(func, (x,), fr) && call_ensures(deriv, (x,), dr) && dr != 0
                    ==> in64(div_tz(fr as int, dr as int)))) ==> call_requires(g, (x,)),
        forall|x: i64, r: i64|
            call_ensures(g, (x,), r) ==> exists|dr: i64|
                #[trigger] call_ensures(deriv, (x,), dr) && ((dr == 0 && r == 1) || (dr != 0
                    && exists|fr: i64|
                    #[trigger] call_ensures(func, (x,), fr) && r == div_tz(
                        fr as int,
                        dr as int,
                    ))),
{
    let g = move |x: i64| -> (r: i64)
        requires
            call_requires(func, (x,)),
            call_requires(deriv, (x,)),
            forall|fr: i64, dr: i64|
                call_ensures(func, (x,), fr) && call_ensures(deriv, (x,), dr) && dr != 0
                    ==> in64(div_tz(fr as int, dr as int)),
        ensures
            exists|dr: i64|
                #[trigger] call_ensures(deriv, (x,), dr) && ((dr == 0 && r == 1) || (dr != 0
                    && exists|fr: i64|
                    #[trigger] call_ensures(func, (x,), fr) && r == div_tz(
                        fr as int,
                        dr as int,
                    ))),
        {
            let dr: i64 = deriv(x);
            if dr == 0 {
                1
            } else {
                let fr: i64 = func(x);
                let q: i128 = div_trunc(fr as i128, dr as i128);
                q as i64
            }
        };
    g
}

/// Composition law for the classical Newton-Raphson update: if `g`
/// behaves as `x_minus(n)` and `n` behaves as
/// `newton_raphson(func, deriv)`, then anything `g` may return at `x`
/// is the classical update `x - func(x)/deriv(x)` built from values
/// the two wrapped functions may return at `x` — or `x - 1` where the
/// sampled derivative was zero.
pub proof fn lemma_newton_update_composition<
    G: Fn(i64) -> i64,
    N: Fn(i64) -> i64,
    F: Fn(i64) -> i64,
    D: Fn(i64) -> i64,
>(g: G, n: N, func: F, deriv: D, x: i64, r: i64)
    requires
        forall|x2: i64, r2: i64|
            call_ensures(g, (x2,), r2) ==> exists|nr: i64|
                #[trigger] call_ensures(n, (x2,), nr) && r2 == x2 - nr,
        forall|x2: i64, r2: i64|
            call_ensures(n, (x2,), r2) ==> exists|dr: i64|
                #[trigger] call_ensures(deriv, (x2,), dr) && ((dr == 0 && r2 == 1) || (dr != 0
                    && exists|fr: i64|
                    #[trigger] call_ensures(func, (x2,), fr) && r2 == div_tz(
                        fr as int,
                        dr as int,
                    ))),
        call_ensures(g, (x,), r),
    ensures
        exists|dr: i64|
            #[trigger] call_ensures(deriv, (x,), dr) && ((dr == 0 && r == x - 1) || (dr != 0
                && exists|fr: i64|
                #[trigger] call_ensures(func, (x,), fr) && r == x - div_tz(fr as int, dr as int))),
{
    let nr = choose|nr: i64| #[trigger] call_ensures(n, (x,), nr) && r == x - nr;
    assert(call_ensures(n, (x,), nr) && r == x - nr);
    let dr = choose|dr: i64|
        #[trigger] call_ensures(deriv, (x,), dr) && ((dr == 0 && nr == 1) || (dr != 0 && exists|
            fr: i64,
        |
            #[trigger] call_ensures(func, (x,), fr) && nr == div_tz(fr as int, dr as int)));
    if dr == 0 {
        assert(call_ensures(deriv, (x,), dr) && dr == 0 && r == x - 1);
    } else {
        let fr = choose|fr: i64|
            #[trigger] call_ensures(func, (x,), fr) && nr == div_tz(fr as int, dr as int);
        assert(call_ensures(deriv, (x,), dr) && call_ensures(func, (x,), fr) && r == x - div_tz(
            fr as int,
            dr as int,
        ));
    }
}

} // verus!
