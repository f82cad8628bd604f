//! Fixed-point numbers in millionths: the value `1.0` is `UNIT`.
//!
//! A product of two such numbers is rounded to the nearest millionth, with a
//! tie going up.

use vstd::prelude::*;

verus! {

/// The fixed-point representation of one.
pub const UNIT: u64 = 1_000_000;

/// `n / d` rounded to the nearest integer, a tie going up.
pub open spec fn div_rounded(n: int, d: int) -> int
    recommends
        0 <= n,
        0 < d,
{
    n / d + if 2 * (n % d) >= d {
        1int
    } else {
        0int
    }
}

/// The fixed-point product of two fixed-point numbers.
pub open spec fn scaled_product(a: int, b: int) -> int
    recommends
        0 <= a,
        0 <= b,
{
    div_rounded(a * b, UNIT as int)
}

/// The number of units of size `1 / per_unit` that a fixed-point number
/// stands for, rounded to the nearest whole unit.
pub open spec fn whole_units(a: int, per_unit: int) -> int
    recommends
        0 <= a,
        0 <= per_unit,
{
    div_rounded(a * per_unit, UNIT as int)
}

/// Rounds a count of millionths to the nearest whole number.
pub fn round_millionths(n: u128) -> (r: u128)
    ensures
        r == div_rounded(n as int, UNIT as int),
{
    let whole: u128 = n / 1_000_000;
    let rest: u128 = n % 1_000_000;
    if rest >= 500_000 {
        whole + 1
    } else {
        whole
    }
}

/// The fixed-point product of `a` and `b`, or `None` where the exact product
/// of the two representations does not fit into 128 bits.
pub fn scale(a: u128, b: u128) -> (r: Option<u128>)
    ensures
        r == if a * b <= u128::MAX {
            Some(scaled_product(a as int, b as int) as u128)
        } else {
            None
        },
        r matches Some(p) ==> p == scaled_product(a as int, b as int),
{
    match a.checked_mul(b) {
        Some(exact) => Some(round_millionths(exact)),
        None => None,
    }
}

/// A product that overflows 128 bits is, even after scaling, larger than any
/// 64-bit number.
pub proof fn lemma_overflowing_product_is_large(a: int, b: int)
    requires
        a * b > u128::MAX,
    ensures
        scaled_product(a, b) > u64::MAX,
{
}

/// Scaling by a factor of at least one does not shrink a number.
pub proof fn lemma_scaled_product_grows(a: int, b: int)
    requires
        0 <= a,
        UNIT <= b,
    ensures
        scaled_product(a, b) >= a,
{
    assert(a * b >= a * UNIT) by (nonlinear_arith)
        requires
            0 <= a,
            UNIT <= b,
    ;
}

} // verus!
