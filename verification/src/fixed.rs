//! Fixed-point scalars.
//!
//! A scalar stores the real value times [`SCALE`], so `10000` means `1.0`
//! and `-3000` means `-0.3`. Products are rescaled by a division that
//! truncates toward zero, exactly as [`fxm`] states.

use vstd::prelude::*;

verus! {

/// Number of fixed-point units in `1.0`.
pub const SCALE: i64 = 10000;

/// Magnitude bound under which a raw product can always be rescaled.
pub const PRODUCT_LIMIT: i64 = 0x4000_0000_0000_0000;

/// Largest frame time accepted, in fixed-point seconds (ten minutes).
pub const DT_LIMIT: i64 = 6_000_000;

/// The fixed-point product: `a * b / SCALE`, truncated toward zero.
pub open spec fn fxm(a: int, b: int) -> int {
    if a * b >= 0 {
        (a * b) / (SCALE as int)
    } else {
        -((-(a * b)) / (SCALE as int))
    }
}

/// Bounds on a product, from bounds on its factors.
pub proof fn lemma_mul_bounds(a: int, b: int, aa: int, bb: int)
    by (nonlinear_arith)
    requires
        0 <= aa,
        0 <= bb,
        -aa <= a <= aa,
        -bb <= b <= bb,
    ensures
        -(aa * bb) <= a * b <= aa * bb,
{
}

/// A bound on the rescaled product, from a bound on the raw product.
pub proof fn lemma_fxm_bound(a: int, b: int, bound: int)
    requires
        0 <= bound,
        -bound * (SCALE as int) <= a * b <= bound * (SCALE as int),
    ensures
        -bound <= fxm(a, b) <= bound,
{
    vstd::arithmetic::div_mod::lemma_div_by_multiple(bound, SCALE as int);
    if a * b >= 0 {
        vstd::arithmetic::div_mod::lemma_div_is_ordered(a * b, bound * (SCALE as int), SCALE as int);
        vstd::arithmetic::div_mod::lemma_div_pos_is_pos(a * b, SCALE as int);
    } else {
        vstd::arithmetic::div_mod::lemma_div_is_ordered(
            -(a * b),
            bound * (SCALE as int),
            SCALE as int,
        );
        vstd::arithmetic::div_mod::lemma_div_pos_is_pos(-(a * b), SCALE as int);
    }
}

/// The quotient of a nonnegative scalar by a positive one, rounded down.
pub fn div_floor(a: i64, b: i64) -> (r: i64)
    requires
        0 <= a,
        0 < b,
    ensures
        r == a as int / b as int,
        0 <= r <= a,
{
    proof {
        vstd::arithmetic::div_mod::lemma_div_pos_is_pos(a as int, b as int);
        vstd::arithmetic::div_mod::lemma_div_is_ordered_by_denominator(a as int, 1, b as int);
        vstd::arithmetic::div_mod::lemma_div_basics(a as int);
    }
    ((a as u64) / (b as u64)) as i64
}

/// Multiply two fixed-point scalars, rescaling the raw product.
pub fn fx_mul(a: i64, b: i64) -> (r: i64)
    requires
        -PRODUCT_LIMIT <= a * b <= PRODUCT_LIMIT,
    ensures
        r == fxm(a as int, b as int),
{
    proof {
        lemma_fxm_bound(a as int, b as int, PRODUCT_LIMIT as int);
    }
    let p: i128 = (a as i128) * (b as i128);
    if p >= 0 {
        ((p as u128) / (SCALE as u128)) as i64
    } else {
        -((((-p) as u128) / (SCALE as u128)) as i64)
    }
}

} // verus!
