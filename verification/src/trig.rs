//! Fixed-point sine and cosine, used to rotate the body-frame thrust vector
//! into the world frame.
//!
//! The values come from the CORDIC routines of the `cordic` crate, on `fixed`
//! crate Q32.32 numbers: the same representation this library uses, so the
//! wrappers only move raw bits in and out. The results are pure functions of
//! the angle bits, named here by uninterpreted spec functions.

use vstd::prelude::*;

verus! {

/// The sine of a Q32.32 angle, as a raw Q32.32 scalar: the exact value the
/// CORDIC routine returns for these angle bits.
pub uninterp spec fn sin_fx(theta: int) -> int;

/// The cosine of a Q32.32 angle, as a raw Q32.32 scalar: the exact value the
/// CORDIC routine returns for these angle bits.
pub uninterp spec fn cos_fx(theta: int) -> int;

/// Relies on cordic::sin over fixed::types::I32F32: a total, deterministic
/// function of the angle bits alone.
#[verifier::external_body]
pub(crate) fn sin_bits(theta: i64) -> (r: i64)
    ensures
        r as int == sin_fx(theta as int),
{
    cordic::sin(fixed::types::I32F32::from_bits(theta)).to_bits()
}

/// Relies on cordic::cos over fixed::types::I32F32: a total, deterministic
/// function of the angle bits alone.
#[verifier::external_body]
pub(crate) fn cos_bits(theta: i64) -> (r: i64)
    ensures
        r as int == cos_fx(theta as int),
{
    cordic::cos(fixed::types::I32F32::from_bits(theta)).to_bits()
}

} // verus!
