//! Sign extraction. Bisection branches only on the signs of function
//! values, never on the values themselves.

use vstd::prelude::*;

verus! {

/// Sign of an integer: `-1`, `0` or `1`.
pub open spec fn sgn(x: int) -> int {
    if x < 0 {
        -1
    } else if x == 0 {
        0
    } else {
        1
    }
}

/// Extract the sign of a grid value as `-1`, `0` or `1`.
pub fn signum(x: i64) -> (s: i64)
    ensures
        s == sgn(x as int),
{
    if x < 0 {
        -1
    } else if x == 0 {
        0
    } else {
        1
    }
}

} // verus!
