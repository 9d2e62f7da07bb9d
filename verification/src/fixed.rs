//! Fixed-point scalars.
//!
//! Positions, sizes, speeds and color channels are all held as `i64` values
//! scaled by [`FP_ONE`]: `FP_ONE` units make one pixel (or one unit of
//! color intensity). Division truncates toward zero, as the conversion to a
//! screen coordinate does.

use vstd::arithmetic::div_mod::{lemma_div_nonincreasing, lemma_div_pos_is_pos};
use vstd::prelude::*;

verus! {

/// The number of fixed-point units in one pixel.
pub const FP_ONE: i64 = 1024;

/// Division truncated toward zero, the rounding that `i64` division performs
/// (`/` on `int` is Euclidean, which differs on negative numerators).
pub open spec fn div_trunc(x: int, d: int) -> int {
    if x >= 0 {
        x / d
    } else {
        -((-x) / d)
    }
}

/// Truncating division of a fixed-point scalar by a positive divisor.
pub fn div_fp(x: i64, d: i64) -> (r: i64)
    requires
        1 <= d,
    ensures
        r == div_trunc(x as int, d as int),
{
    proof {
        lemma_div_trunc_bounds(x as int, d as int);
    }
    match x.checked_div(d) {
        Some(q) => q,
        None => 0,
    }
}

/// The quotient of a truncating division never grows in magnitude, so it
/// stays inside the numerator's machine range.
pub proof fn lemma_div_trunc_bounds(x: int, d: int)
    requires
        1 <= d,
    ensures
        x >= 0 ==> 0 <= div_trunc(x, d) <= x,
        x < 0 ==> x <= div_trunc(x, d) <= 0,
{
    if x >= 0 {
        lemma_div_pos_is_pos(x, d);
        lemma_div_nonincreasing(x, d);
    } else {
        lemma_div_pos_is_pos(-x, d);
        lemma_div_nonincreasing(-x, d);
    }
}

} // verus!
