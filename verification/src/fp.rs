//! Double-precision IEEE 754 scalars, carried as their bit patterns.
//!
//! The network never holds a floating-point value directly: every scalar is
//! the `u64` encoding of an IEEE 754 double. The four arithmetic operations
//! and the ordering test are performed by `rustc_apfloat`, a software
//! implementation of IEEE 754 whose numeric results are bit-identical to
//! hardware doubles rounded to nearest, ties to even (only the payloads of
//! NaN results, which IEEE leaves open and hardware varies on, are its own
//! fixed choice). Each operation's result is a pure function of the operand
//! bits alone, so each gets an uninterpreted name that the contracts of the
//! rest of the library are stated over.

use vstd::prelude::*;
use rustc_apfloat::Float;

verus! {

/// The bits of positive zero.
pub const ZERO_BITS: u64 = 0;
/// The bits of one.
pub const ONE_BITS: u64 = 0x3FF0_0000_0000_0000;

/// IEEE 754 double-precision addition of the two encoded values.
pub uninterp spec fn f64_add(a: u64, b: u64) -> u64;

/// IEEE 754 double-precision subtraction of the two encoded values.
pub uninterp spec fn f64_sub(a: u64, b: u64) -> u64;

/// IEEE 754 double-precision multiplication of the two encoded values.
pub uninterp spec fn f64_mul(a: u64, b: u64) -> u64;

/// IEEE 754 double-precision division of the two encoded values.
pub uninterp spec fn f64_div(a: u64, b: u64) -> u64;

/// The IEEE 754 "less than" comparison of the two encoded values.
pub uninterp spec fn f64_lt(a: u64, b: u64) -> bool;

/// The double nearest to the given unsigned integer, encoded as bits.
pub uninterp spec fn f64_from_u64(n: u64) -> u64;

/// Relies on `rustc_apfloat::ieee::Double`'s `core::ops::Add` impl:
/// IEEE 754 addition, rounded to nearest, ties to even.
#[verifier::external_body]
pub(crate) fn add_bits(a: u64, b: u64) -> (r: u64)
    ensures
        r == f64_add(a, b),
{
    (rustc_apfloat::ieee::Double::from_bits(a as u128)
        + rustc_apfloat::ieee::Double::from_bits(b as u128))
        .value
        .to_bits() as u64
}

/// Relies on `rustc_apfloat::ieee::Double`'s `core::ops::Sub` impl:
/// IEEE 754 subtraction, rounded to nearest, ties to even.
#[verifier::external_body]
pub(crate) fn sub_bits(a: u64, b: u64) -> (r: u64)
    ensures
        r == f64_sub(a, b),
{
    (rustc_apfloat::ieee::Double::from_bits(a as u128)
        - rustc_apfloat::ieee::Double::from_bits(b as u128))
        .value
        .to_bits() as u64
}

/// Relies on `rustc_apfloat::ieee::Double`'s `core::ops::Mul` impl:
/// IEEE 754 multiplication, rounded to nearest, ties to even.
#[verifier::external_body]
pub(crate) fn mul_bits(a: u64, b: u64) -> (r: u64)
    ensures
        r == f64_mul(a, b),
{
    (rustc_apfloat::ieee::Double::from_bits(a as u128)
        * rustc_apfloat::ieee::Double::from_bits(b as u128))
        .value
        .to_bits() as u64
}

/// Relies on `rustc_apfloat::ieee::Double`'s `core::ops::Div` impl:
/// IEEE 754 division, rounded to nearest, ties to even.
#[verifier::external_body]
pub(crate) fn div_bits(a: u64, b: u64) -> (r: u64)
    ensures
        r == f64_div(a, b),
{
    (rustc_apfloat::ieee::Double::from_bits(a as u128)
        / rustc_apfloat::ieee::Double::from_bits(b as u128))
        .value
        .to_bits() as u64
}

/// Relies on `rustc_apfloat::ieee::Double`'s `PartialOrd` impl: the IEEE 754
/// ordered "less than" comparison (false whenever an operand is a NaN).
#[verifier::external_body]
pub(crate) fn lt_bits(a: u64, b: u64) -> (r: bool)
    ensures
        r == f64_lt(a, b),
{
    rustc_apfloat::ieee::Double::from_bits(a as u128)
        < rustc_apfloat::ieee::Double::from_bits(b as u128)
}

/// Relies on `rustc_apfloat::Float::from_u128`: conversion of an unsigned
/// integer to the nearest double, rounded to nearest, ties to even.
#[verifier::external_body]
pub(crate) fn from_u64_bits(n: u64) -> (r: u64)
    ensures
        r == f64_from_u64(n),
{
    rustc_apfloat::ieee::Double::from_u128(n as u128).value.to_bits() as u64
}

/// Relies on `rand::random`: a uniformly distributed `u64` drawn from the
/// thread-local generator. Nothing is promised of the value.
#[verifier::external_body]
pub(crate) fn random_u64() -> u64 {
    rand::random::<u64>()
}

} // verus!
