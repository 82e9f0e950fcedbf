//! Q32.32 fixed-point scalars.
//!
//! A scalar is an `i64` whose mathematical value is `bits / FX_ONE`. Addition
//! and subtraction are the plain integer operations; multiplication rescales
//! the double-width product, rounding toward negative infinity.

use vstd::prelude::*;
use vstd::arithmetic::div_mod::lemma_div_basics_5;
use vstd::arithmetic::div_mod::lemma_fundamental_div_mod;
use vstd::arithmetic::div_mod::lemma_fundamental_div_mod_converse;
use vstd::arithmetic::div_mod::lemma_mod_division_less_than_divisor;

verus! {

/// Number of raw units in the scalar 1.0 (the Q32.32 scale, `2^32`).
pub const FX_ONE: i64 = 4294967296;

/// Whether a mathematical value is representable as a raw `i64` scalar.
pub open spec fn fits_i64(v: int) -> bool {
    i64::MIN <= v <= i64::MAX
}

/// Product of two raw scalars: the integer product rescaled by `FX_ONE`,
/// rounded toward negative infinity.
pub open spec fn fxm(a: int, b: int) -> int {
    (a * b) / (FX_ONE as int)
}

/// Multiplying by a raw zero gives zero.
pub proof fn lemma_fxm_zero(b: int)
    ensures
        fxm(0, b) == 0,
        fxm(b, 0) == 0,
{
    assert(0 * b == 0);
    assert(b * 0 == 0);
    assert(0int / (FX_ONE as int) == 0);
}

/// Floor division of a positive dividend negated: `(-m) / d` equals the
/// negated ceiling of `m / d`.
proof fn lemma_neg_floor_div(m: int, d: int)
    requires
        1 <= m,
        1 <= d,
    ensures
        (-m) / d == -((m + d - 1) / d),
{
    let q = m / d;
    let r = m % d;
    lemma_fundamental_div_mod(m, d);
    lemma_mod_division_less_than_divisor(m, d);
    if r == 0 {
        assert(m + d - 1 == q * d + (d - 1)) by (nonlinear_arith)
            requires
                m == d * q + r,
                r == 0,
        ;
        lemma_fundamental_div_mod_converse(m + d - 1, d, q, d - 1);
        assert(-m == (-q) * d + 0) by (nonlinear_arith)
            requires
                m == d * q + r,
                r == 0,
        ;
        lemma_fundamental_div_mod_converse(-m, d, -q, 0);
    } else {
        assert(m + d - 1 == (q + 1) * d + (r - 1)) by (nonlinear_arith)
            requires
                m == d * q + r,
        ;
        lemma_fundamental_div_mod_converse(m + d - 1, d, q + 1, r - 1);
        assert(-m == (-(q + 1)) * d + (d - r)) by (nonlinear_arith)
            requires
                m == d * q + r,
        ;
        lemma_fundamental_div_mod_converse(-m, d, -(q + 1), d - r);
    }
}

/// Double-width products of raw scalars stay well inside `i128`.
proof fn lemma_i64_product_bounds(a: int, b: int)
    requires
        i64::MIN <= a <= i64::MAX,
        i64::MIN <= b <= i64::MAX,
    ensures
        -0x40000000000000000000000000000000 <= a * b
            <= 0x40000000000000000000000000000000,
{
    assert(-0x40000000000000000000000000000000 <= a * b
        <= 0x40000000000000000000000000000000) by (nonlinear_arith)
        requires
            -0x8000000000000000 <= a <= 0x7fffffffffffffff,
            -0x8000000000000000 <= b <= 0x7fffffffffffffff,
    ;
}

/// Quotient of a double-width product by the scale, rounded toward negative
/// infinity.
fn floor_div_scale(p: i128) -> (q: i128)
    requires
        -0x40000000000000000000000000000000 <= p
            <= 0x40000000000000000000000000000000,
    ensures
        q == p as int / (FX_ONE as int),
{
    let d: u128 = FX_ONE as u128;
    if p >= 0 {
        let q: u128 = (p as u128) / d;
        proof {
            lemma_div_basics_5(p as int, FX_ONE as int);
        }
        q as i128
    } else {
        let m: u128 = (-p) as u128;
        let q: u128 = (m + (d - 1)) / d;
        proof {
            lemma_div_basics_5(m as int + (FX_ONE as int - 1), FX_ONE as int);
            lemma_neg_floor_div(m as int, FX_ONE as int);
        }
        -(q as i128)
    }
}

/// Fixed-point product of two scalars, exact whenever the rescaled result is
/// representable.
pub fn fx_mul(a: i64, b: i64) -> (r: i64)
    requires
        fits_i64(fxm(a as int, b as int)),
    ensures
        r as int == fxm(a as int, b as int),
{
    proof {
        lemma_i64_product_bounds(a as int, b as int);
    }
    let p: i128 = (a as i128) * (b as i128);
    let q: i128 = floor_div_scale(p);
    q as i64
}

/// Fixed-point product that reports instead of requiring representability:
/// `Some` carries the exact rescaled product, `None` means it would not fit.
pub fn fx_mul_checked(a: i64, b: i64) -> (r: Option<i64>)
    ensures
        fits_i64(fxm(a as int, b as int)) ==> (r matches Some(v) && v as int == fxm(
            a as int,
            b as int,
        )),
        !fits_i64(fxm(a as int, b as int)) ==> r is None,
{
    proof {
        lemma_i64_product_bounds(a as int, b as int);
    }
    let p: i128 = (a as i128) * (b as i128);
    let q: i128 = floor_div_scale(p);
    if i64::MIN as i128 <= q && q <= i64::MAX as i128 {
        Some(q as i64)
    } else {
        None
    }
}

/// Sum of two raw scalars when it is representable, `None` otherwise.
pub fn fx_add_checked(a: i64, b: i64) -> (r: Option<i64>)
    ensures
        fits_i64(a as int + b as int) ==> (r matches Some(v) && v as int == a as int + b as int),
        !fits_i64(a as int + b as int) ==> r is None,
{
    let s: i128 = a as i128 + b as i128;
    if i64::MIN as i128 <= s && s <= i64::MAX as i128 {
        Some(s as i64)
    } else {
        None
    }
}

/// Difference of two raw scalars when it is representable, `None` otherwise.
pub fn fx_sub_checked(a: i64, b: i64) -> (r: Option<i64>)
    ensures
        fits_i64(a as int - b as int) ==> (r matches Some(v) && v as int == a as int - b as int),
        !fits_i64(a as int - b as int) ==> r is None,
{
    let s: i128 = a as i128 - b as i128;
    if i64::MIN as i128 <= s && s <= i64::MAX as i128 {
        Some(s as i64)
    } else {
        None
    }
}

} // verus!
