//! The search engine on the fixed-point grid: bisection and
//! fixed-point iteration against functions sampled from f64.

use rootfind::root_search::binary;
use rootfind::root_search::fixed_point;

const SCALE: i64 = 1 << 20;

fn to_grid(x: f64) -> i64 {
    (x * SCALE as f64).round() as i64
}

fn from_grid(v: i64) -> f64 {
    v as f64 / SCALE as f64
}

fn round1(x: f64) -> f64 {
    (x * 10.0).round() / 10.0
}

#[test]
fn binary_identity_rounds_to_zero() {
    let ident = |x: i64| x;
    let res = binary(ident, (-SCALE, 2 * SCALE), SCALE / 10);
    let r = res.expect("identity changes sign over (-1, 2)");
    assert_eq!(r, -16384);
    assert_eq!(round1(from_grid(r)), 0.0);
}

#[test]
fn binary_trig_rounds_to_minus_two_point_nine() {
    let trig = |xs: i64| {
        let x = from_grid(xs);
        to_grid(2.0 * x - 3.0 * x.sin() + 5.0)
    };
    let res = binary(trig, (-3 * SCALE, -2 * SCALE), SCALE / 10);
    let r = res.expect("trig changes sign over (-3, -2)");
    assert_eq!(r, -3047424);
    assert_eq!(round1(from_grid(r)), -2.9);
}

#[test]
fn binary_polynom_hits_exact_root() {
    let polynom = |xs: i64| {
        let x = from_grid(xs);
        to_grid(x * x * x - 8.5 * x * x + 20.0 * x - 8.0)
    };
    let res = binary(polynom, (0, 2 * SCALE), SCALE / 10);
    assert_eq!(res.expect("polynom changes sign over (0, 2)"), SCALE / 2);
}

#[test]
fn binary_no_sign_change_fails() {
    let ident = |x: i64| x;
    let res = binary(ident, (SCALE, 2 * SCALE), SCALE / 10);
    match res {
        Ok(_) => panic!("no sign change over (1, 2), the search must fail"),
        Err(msg) => assert_eq!(*msg, "Error: no sign change at endpoints!"),
    }
}

#[test]
fn binary_zero_at_endpoint_returned_exactly() {
    let ident = |x: i64| x;
    assert_eq!(binary(ident, (0, 2 * SCALE), SCALE / 10), Ok(0));
    assert_eq!(binary(ident, (-SCALE, 0), SCALE / 10), Ok(0));
}

#[test]
fn fixed_point_cos_converges() {
    let cos = |xs: i64| to_grid(from_grid(xs).cos());
    let res = fixed_point(cos, to_grid(2.5), SCALE / 10, 10);
    let (v, trace) = res.expect("cos iteration converges from 2.5");
    assert_eq!(v, 804768);
    assert_eq!(round1(from_grid(v)), 0.8);
    assert_eq!(trace, vec![2621440, -840060, 729689]);
}

#[test]
fn fixed_point_without_fixed_point_diverges() {
    let shift_up = |xs: i64| xs + SCALE;
    let res = fixed_point(shift_up, 0, SCALE / 10, 5);
    match res {
        Ok(_) => panic!("x + 1 has no fixed point"),
        Err(trace) => {
            assert_eq!(trace.len(), 5);
            assert_eq!(trace, vec![0, SCALE, 2 * SCALE, 3 * SCALE, 4 * SCALE]);
        }
    }
}

#[test]
fn fixed_point_single_iteration_budget() {
    let cos = |xs: i64| to_grid(from_grid(xs).cos());
    let res = fixed_point(cos, to_grid(2.5), SCALE / 10, 1);
    match res {
        Ok(_) => panic!("a budget of one iteration allows no step at all"),
        Err(trace) => assert_eq!(trace, vec![to_grid(2.5)]),
    }
}
