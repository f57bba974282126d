//! Integer arithmetic as the contracts use it: 128-bit signed amounts with
//! saturating products and sums, and division that truncates toward zero.

use vstd::prelude::*;

verus! {

/// `x` clamped to the range of `i128`.
pub open spec fn clamp_i128(x: int) -> int {
    if x > i128::MAX {
        i128::MAX as int
    } else if x < i128::MIN {
        i128::MIN as int
    } else {
        x
    }
}

/// `x / d` rounded toward zero, for a positive divisor `d`.
pub open spec fn div_toward_zero(x: int, d: int) -> int
    recommends
        d > 0,
{
    if x >= 0 {
        x / d
    } else {
        -((-x) / d)
    }
}

/// The product of `a` and `b`, saturating at the bounds of `i128`.
pub fn saturating_mul(a: i128, b: i128) -> (r: i128)
    ensures
        r == clamp_i128(a * b),
{
    match a.checked_mul(b) {
        Some(p) => p,
        None => {
            if (a < 0) == (b < 0) {
                assert(a * b >= 0) by (nonlinear_arith)
                    requires
                        (a < 0) == (b < 0),
                ;
                i128::MAX
            } else {
                assert(a * b <= 0) by (nonlinear_arith)
                    requires
                        (a < 0) != (b < 0),
                ;
                i128::MIN
            }
        },
    }
}

/// The sum of `a` and `b`, saturating at the bounds of `i128`.
pub fn saturating_add(a: i128, b: i128) -> (r: i128)
    ensures
        r == clamp_i128(a + b),
{
    match a.checked_add(b) {
        Some(s) => s,
        None => {
            if b > 0 {
                i128::MAX
            } else {
                i128::MIN
            }
        },
    }
}

/// `x / d` rounded toward zero, for a positive divisor.
pub fn div_positive(x: i128, d: i128) -> (r: i128)
    requires
        d > 0,
    ensures
        r == div_toward_zero(x as int, d as int),
{
    match x.checked_div(d) {
        Some(q) => q,
        None => {
            assert(false) by (nonlinear_arith)
                requires
                    d > 0,
                    x.checked_div(d) is None,
            ;
            0
        },
    }
}

} // verus!
