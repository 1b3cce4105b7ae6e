//! The trusted boundary to the arbitrary-precision integer collaborator,
//! the `num_bigint` crate: type declarations, the spec-level interpretation
//! of its values, and wrappers for the few operations the digit logic calls.

use vstd::prelude::*;
use crate::digits::{digits_le_base_10, magnitude_of};
use crate::ints::{ArbitrarySizeIntSubset, IntSubset};

verus! {

#[verifier::external_type_specification]
#[verifier::external_body]
pub struct ExBigUint(num_bigint::BigUint);

#[verifier::external_type_specification]
#[verifier::external_body]
pub struct ExBigInt(num_bigint::BigInt);

/// The natural number that a `BigUint` holds.
pub uninterp spec fn big_uint_value(v: num_bigint::BigUint) -> nat;

/// The integer that a `BigInt` holds.
pub uninterp spec fn big_int_value(v: num_bigint::BigInt) -> int;

impl IntSubset for num_bigint::BigUint {
    open spec fn spec_int_value(&self) -> int {
        big_uint_value(*self) as int
    }
}

impl ArbitrarySizeIntSubset for num_bigint::BigUint {

}

impl IntSubset for num_bigint::BigInt {
    open spec fn spec_int_value(&self) -> int {
        big_int_value(*self)
    }
}

impl ArbitrarySizeIntSubset for num_bigint::BigInt {

}

/// Relies on `Rem<u8>` for `&BigUint`: the remainder of division by a small
/// non-zero divisor, as a new `BigUint`.
#[verifier::external_body]
pub(crate) fn big_uint_rem_u8(v: &num_bigint::BigUint, d: u8) -> (r: num_bigint::BigUint)
    requires
        d >= 1,
    ensures
        big_uint_value(r) == big_uint_value(*v) % (d as nat),
{
    v % d
}

/// Relies on `BigUint::iter_u32_digits`: an iterator over the little-endian
/// `u32` digit words, empty exactly for zero, whose first word is the value
/// modulo 2^32.
#[verifier::external_body]
pub(crate) fn big_uint_least_significant_u32(v: &num_bigint::BigUint) -> (r: Option<u32>)
    ensures
        r is None <==> big_uint_value(*v) == 0,
        r matches Some(d) ==> d as nat == big_uint_value(*v) % 0x1_0000_0000,
{
    v.iter_u32_digits().next()
}

/// Relies on `BigInt::magnitude`: the unsigned magnitude of the value.
#[verifier::external_body]
pub(crate) fn big_int_magnitude(v: &num_bigint::BigInt) -> (r: &num_bigint::BigUint)
    ensures
        big_uint_value(*r) == magnitude_of(big_int_value(*v)),
{
    v.magnitude()
}

/// Relies on `BigUint::to_radix_le` with radix 10: the base-10 digits of the
/// value in little-endian order, `[0]` for zero, with no superfluous digits.
#[verifier::external_body]
pub(crate) fn big_uint_to_radix_le_10(v: &num_bigint::BigUint) -> (r: Vec<u8>)
    ensures
        r@ == digits_le_base_10(big_uint_value(*v)),
{
    v.to_radix_le(10)
}

/// Relies on `BigInt::to_radix_le` with radix 10: the sign together with the
/// base-10 little-endian digits of the magnitude; only the digits are kept.
#[verifier::external_body]
pub(crate) fn big_int_to_radix_le_10(v: &num_bigint::BigInt) -> (r: Vec<u8>)
    ensures
        r@ == digits_le_base_10(magnitude_of(big_int_value(*v))),
{
    let (_, digits) = v.to_radix_le(10);
    digits
}

} // verus!
