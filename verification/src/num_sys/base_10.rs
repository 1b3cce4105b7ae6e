//! Base-10 digit operations: last digit, digit sum, little-endian digit
//! vector, and the canonical decimal string.

use vstd::prelude::*;
use crate::digits::{
    decimal_string_of, digits_le_base_10, last_digit_base_10, lemma_sum_digits_le, magnitude_of,
    sum_digits_rec, sum_digits_with_modulo,
};
use crate::ints::IntSubset;
use crate::num_sys::big::{
    big_int_magnitude, big_int_to_radix_le_10, big_int_value, big_uint_least_significant_u32,
    big_uint_rem_u8,
    big_uint_to_radix_le_10, big_uint_value,
};

verus! {

/// The last digit base 10, guaranteed to be representable as a `u8`. Taken
/// of the magnitude, so a value and its additive inverse agree on it.
pub trait GetLastDigitBase10AsU8: IntSubset {
    fn get_last_digit_base_10_as_u8(&self) -> (r: u8)
        ensures
            r == last_digit_base_10(self.spec_int_value()),
    ;
}

/// The magnitude of a signed 128-bit value, computed without overflow even
/// at the minimum value.
fn magnitude_as_u128(v: i128) -> (m: u128)
    ensures
        m as nat == magnitude_of(v as int),
{
    if v >= 0 {
        v as u128
    } else {
        ((-(v + 1)) as u128) + 1
    }
}

/// The least significant base-10 digit of an unsigned 128-bit value.
fn last_digit_of_u128(m: u128) -> (r: u8)
    ensures
        r as nat == (m as nat) % 10,
{
    (m % 10) as u8
}

impl GetLastDigitBase10AsU8 for u8 {
    fn get_last_digit_base_10_as_u8(&self) -> (r: u8)
        ensures
            r == last_digit_base_10(*self as int),
    {
        last_digit_of_u128(*self as u128)
    }
}

impl GetLastDigitBase10AsU8 for u16 {
    fn get_last_digit_base_10_as_u8(&self) -> (r: u8)
        ensures
            r == last_digit_base_10(*self as int),
    {
        last_digit_of_u128(*self as u128)
    }
}

impl GetLastDigitBase10AsU8 for u32 {
    fn get_last_digit_base_10_as_u8(&self) -> (r: u8)
        ensures
            r == last_digit_base_10(*self as int),
    {
        last_digit_of_u128(*self as u128)
    }
}

impl GetLastDigitBase10AsU8 for u64 {
    fn get_last_digit_base_10_as_u8(&self) -> (r: u8)
        ensures
            r == last_digit_base_10(*self as int),
    {
        last_digit_of_u128(*self as u128)
    }
}

impl GetLastDigitBase10AsU8 for u128 {
    fn get_last_digit_base_10_as_u8(&self) -> (r: u8)
        ensures
            r == last_digit_base_10(*self as int),
    {
        last_digit_of_u128(*self)
    }
}

impl GetLastDigitBase10AsU8 for usize {
    fn get_last_digit_base_10_as_u8(&self) -> (r: u8)
        ensures
            r == last_digit_base_10(*self as int),
    {
        last_digit_of_u128(*self as u128)
    }
}

impl GetLastDigitBase10AsU8 for i8 {
    fn get_last_digit_base_10_as_u8(&self) -> (r: u8)
        ensures
            r == last_digit_base_10(*self as int),
    {
        last_digit_of_u128(magnitude_as_u128(*self as i128))
    }
}

impl GetLastDigitBase10AsU8 for i16 {
    fn get_last_digit_base_10_as_u8(&self) -> (r: u8)
        ensures
            r == last_digit_base_10(*self as int),
    {
        last_digit_of_u128(magnitude_as_u128(*self as i128))
    }
}

impl GetLastDigitBase10AsU8 for i32 {
    fn get_last_digit_base_10_as_u8(&self) -> (r: u8)
        ensures
            r == last_digit_base_10(*self as int),
    {
        last_digit_of_u128(magnitude_as_u128(*self as i128))
    }
}

impl GetLastDigitBase10AsU8 for i64 {
    fn get_last_digit_base_10_as_u8(&self) -> (r: u8)
        ensures
            r == last_digit_base_10(*self as int),
    {
        last_digit_of_u128(magnitude_as_u128(*self as i128))
    }
}

impl GetLastDigitBase10AsU8 for i128 {
    fn get_last_digit_base_10_as_u8(&self) -> (r: u8)
        ensures
            r == last_digit_base_10(*self as int),
    {
        last_digit_of_u128(magnitude_as_u128(*self))
    }
}

impl GetLastDigitBase10AsU8 for isize {
    fn get_last_digit_base_10_as_u8(&self) -> (r: u8)
        ensures
            r == last_digit_base_10(*self as int),
    {
        last_digit_of_u128(magnitude_as_u128(*self as i128))
    }
}

/// The digits of a value, least significant first, as unsigned 8-bit
/// values: one entry per base-10 digit of the magnitude, always at least
/// one. The vector's length need not match its capacity, which is only an
/// upper-bound estimate.
pub trait NewVecU8OfDigitsBase10Le: IntSubset {
    fn new_vec_u8_of_digits_le(&self) -> (r: Vec<u8>)
        ensures
            r@ == digits_le_base_10(magnitude_of(self.spec_int_value())),
    ;
}

/// The little-endian base-10 digit vector of an unsigned 128-bit value,
/// built by repeated division; `capacity` merely pre-sizes the vector.
fn digits_le_vec_of_u128(m: u128, capacity: usize) -> (r: Vec<u8>)
    ensures
        r@ == digits_le_base_10(m as nat),
{
    let mut v: Vec<u8> = Vec::with_capacity(capacity);
    let mut q: u128 = m;
    let d0: u8 = (q % 10) as u8;
    v.push(d0);
    q = q / 10;
    proof {
        if m < 10 {
            assert(v@ =~= digits_le_base_10(m as nat));
        } else {
            assert(v@ + digits_le_base_10(q as nat) =~= digits_le_base_10(m as nat));
        }
    }
    while q != 0
        invariant
            q == 0 ==> v@ == digits_le_base_10(m as nat),
            q != 0 ==> digits_le_base_10(m as nat) == v@ + digits_le_base_10(q as nat),
        decreases q,
    {
        let ghost prev = v@;
        let ghost prev_q = q as nat;
        let d: u8 = (q % 10) as u8;
        v.push(d);
        q = q / 10;
        proof {
            assert(v@ =~= prev + seq![d]);
            if q == 0 {
                assert(digits_le_base_10(prev_q) =~= seq![d]);
                assert(v@ =~= digits_le_base_10(m as nat));
            } else {
                assert(digits_le_base_10(prev_q) =~= seq![d] + digits_le_base_10(q as nat));
                assert(v@ + digits_le_base_10(q as nat) =~= prev + digits_le_base_10(prev_q));
            }
        }
    }
    v
}

impl NewVecU8OfDigitsBase10Le for u8 {
    fn new_vec_u8_of_digits_le(&self) -> (r: Vec<u8>)
        ensures
            r@ == digits_le_base_10(magnitude_of(*self as int)),
    {
        digits_le_vec_of_u128(*self as u128, 3)
    }
}

impl NewVecU8OfDigitsBase10Le for u16 {
    fn new_vec_u8_of_digits_le(&self) -> (r: Vec<u8>)
        ensures
            r@ == digits_le_base_10(magnitude_of(*self as int)),
    {
        digits_le_vec_of_u128(*self as u128, 5)
    }
}

impl NewVecU8OfDigitsBase10Le for u32 {
    fn new_vec_u8_of_digits_le(&self) -> (r: Vec<u8>)
        ensures
            r@ == digits_le_base_10(magnitude_of(*self as int)),
    {
        digits_le_vec_of_u128(*self as u128, 10)
    }
}

impl NewVecU8OfDigitsBase10Le for u64 {
    fn new_vec_u8_of_digits_le(&self) -> (r: Vec<u8>)
        ensures
            r@ == digits_le_base_10(magnitude_of(*self as int)),
    {
        digits_le_vec_of_u128(*self as u128, 20)
    }
}

impl NewVecU8OfDigitsBase10Le for u128 {
    fn new_vec_u8_of_digits_le(&self) -> (r: Vec<u8>)
        ensures
            r@ == digits_le_base_10(magnitude_of(*self as int)),
    {
        digits_le_vec_of_u128(*self, 39)
    }
}

impl NewVecU8OfDigitsBase10Le for usize {
    fn new_vec_u8_of_digits_le(&self) -> (r: Vec<u8>)
        ensures
            r@ == digits_le_base_10(magnitude_of(*self as int)),
    {
        digits_le_vec_of_u128(*self as u128, 20)
    }
}

impl NewVecU8OfDigitsBase10Le for i8 {
    fn new_vec_u8_of_digits_le(&self) -> (r: Vec<u8>)
        ensures
            r@ == digits_le_base_10(magnitude_of(*self as int)),
    {
        digits_le_vec_of_u128(magnitude_as_u128(*self as i128), 3)
    }
}

impl NewVecU8OfDigitsBase10Le for i16 {
    fn new_vec_u8_of_digits_le(&self) -> (r: Vec<u8>)
        ensures
            r@ == digits_le_base_10(magnitude_of(*self as int)),
    {
        digits_le_vec_of_u128(magnitude_as_u128(*self as i128), 5)
    }
}

impl NewVecU8OfDigitsBase10Le for i32 {
    fn new_vec_u8_of_digits_le(&self) -> (r: Vec<u8>)
        ensures
            r@ == digits_le_base_10(magnitude_of(*self as int)),
    {
        digits_le_vec_of_u128(magnitude_as_u128(*self as i128), 10)
    }
}

impl NewVecU8OfDigitsBase10Le for i64 {
    fn new_vec_u8_of_digits_le(&self) -> (r: Vec<u8>)
        ensures
            r@ == digits_le_base_10(magnitude_of(*self as int)),
    {
        digits_le_vec_of_u128(magnitude_as_u128(*self as i128), 19)
    }
}

impl NewVecU8OfDigitsBase10Le for i128 {
    fn new_vec_u8_of_digits_le(&self) -> (r: Vec<u8>)
        ensures
            r@ == digits_le_base_10(magnitude_of(*self as int)),
    {
        digits_le_vec_of_u128(magnitude_as_u128(*self), 39)
    }
}

impl NewVecU8OfDigitsBase10Le for isize {
    fn new_vec_u8_of_digits_le(&self) -> (r: Vec<u8>)
        ensures
            r@ == digits_le_base_10(magnitude_of(*self as int)),
    {
        digits_le_vec_of_u128(magnitude_as_u128(*self as i128), 19)
    }
}

impl NewVecU8OfDigitsBase10Le for num_bigint::BigUint {
    fn new_vec_u8_of_digits_le(&self) -> (r: Vec<u8>)
        ensures
            r@ == digits_le_base_10(magnitude_of(big_uint_value(*self) as int)),
    {
        big_uint_to_radix_le_10(self)
    }
}

impl NewVecU8OfDigitsBase10Le for num_bigint::BigInt {
    fn new_vec_u8_of_digits_le(&self) -> (r: Vec<u8>)
        ensures
            r@ == digits_le_base_10(magnitude_of(big_int_value(*self))),
    {
        big_int_to_radix_le_10(self)
    }
}

impl GetLastDigitBase10AsU8 for num_bigint::BigUint {
    fn get_last_digit_base_10_as_u8(&self) -> (r: u8)
        ensures
            r == last_digit_base_10(big_uint_value(*self) as int),
    {
        let rem = big_uint_rem_u8(self, 10);
        proof {
            vstd::arithmetic::div_mod::lemma_small_mod(
                big_uint_value(rem),
                0x1_0000_0000nat,
            );
        }
        match big_uint_least_significant_u32(&rem) {
            Option::None => 0u8,
            Option::Some(d) => d as u8,
        }
    }
}

impl GetLastDigitBase10AsU8 for num_bigint::BigInt {
    fn get_last_digit_base_10_as_u8(&self) -> (r: u8)
        ensures
            r == last_digit_base_10(big_int_value(*self)),
    {
        big_int_magnitude(self).get_last_digit_base_10_as_u8()
    }
}

/// The number ten, in the implementing type.
pub trait Ten {
    const TEN: Self;
}

impl Ten for u8 {
    const TEN: u8 = 10;
}

impl Ten for u16 {
    const TEN: u16 = 10;
}

impl Ten for u32 {
    const TEN: u32 = 10;
}

impl Ten for u64 {
    const TEN: u64 = 10;
}

impl Ten for u128 {
    const TEN: u128 = 10;
}

impl Ten for usize {
    const TEN: usize = 10;
}

impl Ten for i8 {
    const TEN: i8 = 10;
}

impl Ten for i16 {
    const TEN: i16 = 10;
}

impl Ten for i32 {
    const TEN: i32 = 10;
}

impl Ten for i64 {
    const TEN: i64 = 10;
}

impl Ten for i128 {
    const TEN: i128 = 10;
}

impl Ten for isize {
    const TEN: isize = 10;
}

/// Summing digits with a default configuration: the base, accumulator,
/// optional-modulus and output types of the implementer, and the two entry
/// points. The accumulator is 8 bits wide, so the base is clamped to 255 and
/// the output is only meaningful while the true digit sum fits 8 bits.
pub trait SumDigitsDefaults: IntSubset {
    type Base;

    type Accumulator;

    type OptModulo;

    type Output;

    /// Digit sum in the default configuration: base 10, no modulus.
    fn std_sum_digits(&self) -> (r: u8)
        ensures
            r as nat == sum_digits_with_modulo(
                magnitude_of(self.spec_int_value()),
                10,
                Option::None,
            ),
    ;

    /// Digit sum in base `base` (clamped to 255), reduced by a present
    /// modulus below 255 after the sum is complete.
    fn generic_std_sum_digits(&self, base: u128, opt_modulo: Option<u128>) -> (r: u8)
        requires
            base >= 2,
            opt_modulo matches Some(m) ==> m >= 1,
        ensures
            r as nat == sum_digits_with_modulo(
                magnitude_of(self.spec_int_value()),
                base as nat,
                opt_modulo,
            ),
    ;
}

impl SumDigitsDefaults for u8 {
    type Base = u8;

    type Accumulator = u8;

    type OptModulo = u8;

    type Output = u8;

    fn std_sum_digits(&self) -> (r: u8)
        ensures
            r as nat == sum_digits_with_modulo(*self as nat, 10, Option::None),
    {
        self.generic_std_sum_digits(10, Option::None)
    }

    fn generic_std_sum_digits(&self, base: u128, opt_modulo: Option<u128>) -> (r: u8)
        ensures
            r as nat == sum_digits_with_modulo(*self as nat, base as nat, opt_modulo),
    {
        let b: u8 = if base > 255 {
            255
        } else {
            base as u8
        };
        let n: u8 = *self;
        proof {
            lemma_sum_digits_le(n as nat, b as nat);
        }
        let mut acc: u8 = n % b;
        let mut q: u8 = n / b;
        proof {
            if n < b {
                vstd::arithmetic::div_mod::lemma_small_mod(n as nat, b as nat);
                vstd::arithmetic::div_mod::lemma_basic_div(n as int, b as int);
            }
        }
        while q != 0
            invariant
                2 <= b,
                acc + sum_digits_rec(q as nat, b as nat) == sum_digits_rec(n as nat, b as nat),
                sum_digits_rec(n as nat, b as nat) <= n,
            decreases q,
        {
            proof {
                vstd::arithmetic::div_mod::lemma_div_decreases(q as int, b as int);
                if q < b {
                    vstd::arithmetic::div_mod::lemma_small_mod(q as nat, b as nat);
                    vstd::arithmetic::div_mod::lemma_basic_div(q as int, b as int);
                }
            }
            acc = acc + q % b;
            q = q / b;
        }
        match opt_modulo {
            Option::None => acc,
            Option::Some(m) => {
                if m >= 255 {
                    acc
                } else {
                    acc % (m as u8)
                }
            },
        }
    }
}

/// Summing the base-`base` digits of a value, with an optional final modulo
/// reduction: the convenience entry point over [`SumDigitsDefaults`].
pub trait SumDigits: IntSubset {
    fn sum_digits(&self, base: u128, opt_modulo: Option<u128>) -> (r: u8)
        requires
            base >= 2,
            opt_modulo matches Some(m) ==> m >= 1,
        ensures
            r as nat == sum_digits_with_modulo(
                magnitude_of(self.spec_int_value()),
                base as nat,
                opt_modulo,
            ),
    ;
}

impl<T: SumDigitsDefaults> SumDigits for T {
    fn sum_digits(&self, base: u128, opt_modulo: Option<u128>) -> (r: u8)
        ensures
            r as nat == sum_digits_with_modulo(
                magnitude_of(self.spec_int_value()),
                base as nat,
                opt_modulo,
            ),
    {
        self.generic_std_sum_digits(base, opt_modulo)
    }
}

/// The digit-sum operation keyed by the full tuple of participating types:
/// number, base, accumulator, optional modulus, and output.
pub trait SumDigitsTypeTuple {
    type Number: IntSubset;

    type Base;

    type Accumulator;

    type OptModulo;

    type Output;

    fn sum_digits(n_ref: &Self::Number, base: u128, opt_modulo: Option<u128>) -> (r: u8)
        requires
            base >= 2,
            opt_modulo matches Some(m) ==> m >= 1,
        ensures
            r as nat == sum_digits_with_modulo(
                magnitude_of(n_ref.spec_int_value()),
                base as nat,
                opt_modulo,
            ),
    ;
}

impl<Number, Base, Accumulator, OptModulo, Output> SumDigitsTypeTuple for (
    Number,
    Base,
    Accumulator,
    OptModulo,
    Output,
) where
    Number: SumDigitsDefaults<
        Base = Base,
        Accumulator = Accumulator,
        OptModulo = OptModulo,
        Output = Output,
    >,
{
    type Number = Number;

    type Base = Base;

    type Accumulator = Accumulator;

    type OptModulo = OptModulo;

    type Output = Output;

    fn sum_digits(n_ref: &Number, base: u128, opt_modulo: Option<u128>) -> (r: u8)
        ensures
            r as nat == sum_digits_with_modulo(
                magnitude_of(n_ref.spec_int_value()),
                base as nat,
                opt_modulo,
            ),
    {
        n_ref.generic_std_sum_digits(base, opt_modulo)
    }
}

/// The canonical base-10 textual form: sign-prefixed, with no leading zeros
/// beyond a bare `0`.
pub trait ToCanonicalRepresentationBase10AsString: IntSubset {
    fn to_canonical_representation_base_10_as_string(&self) -> (r: String)
        ensures
            r@ == decimal_string_of(self.spec_int_value()),
    ;
}

/// Relies on `i128`'s `Display` implementation: the standard sign-prefixed,
/// no-leading-zero decimal form.
#[verifier::external_body]
fn i128_to_decimal_string(v: i128) -> (r: String)
    ensures
        r@ == decimal_string_of(v as int),
{
    v.to_string()
}

/// Relies on `u128`'s `Display` implementation: the standard no-leading-zero
/// decimal form.
#[verifier::external_body]
fn u128_to_decimal_string(v: u128) -> (r: String)
    ensures
        r@ == decimal_string_of(v as int),
{
    v.to_string()
}

impl ToCanonicalRepresentationBase10AsString for u8 {
    fn to_canonical_representation_base_10_as_string(&self) -> (r: String)
        ensures
            r@ == decimal_string_of(*self as int),
    {
        u128_to_decimal_string(*self as u128)
    }
}

impl ToCanonicalRepresentationBase10AsString for u16 {
    fn to_canonical_representation_base_10_as_string(&self) -> (r: String)
        ensures
            r@ == decimal_string_of(*self as int),
    {
        u128_to_decimal_string(*self as u128)
    }
}

impl ToCanonicalRepresentationBase10AsString for u32 {
    fn to_canonical_representation_base_10_as_string(&self) -> (r: String)
        ensures
            r@ == decimal_string_of(*self as int),
    {
        u128_to_decimal_string(*self as u128)
    }
}

impl ToCanonicalRepresentationBase10AsString for u64 {
    fn to_canonical_representation_base_10_as_string(&self) -> (r: String)
        ensures
            r@ == decimal_string_of(*self as int),
    {
        u128_to_decimal_string(*self as u128)
    }
}

impl ToCanonicalRepresentationBase10AsString for u128 {
    fn to_canonical_representation_base_10_as_string(&self) -> (r: String)
        ensures
            r@ == decimal_string_of(*self as int),
    {
        u128_to_decimal_string(*self)
    }
}

impl ToCanonicalRepresentationBase10AsString for usize {
    fn to_canonical_representation_base_10_as_string(&self) -> (r: String)
        ensures
            r@ == decimal_string_of(*self as int),
    {
        u128_to_decimal_string(*self as u128)
    }
}

impl ToCanonicalRepresentationBase10AsString for i8 {
    fn to_canonical_representation_base_10_as_string(&self) -> (r: String)
        ensures
            r@ == decimal_string_of(*self as int),
    {
        i128_to_decimal_string(*self as i128)
    }
}

impl ToCanonicalRepresentationBase10AsString for i16 {
    fn to_canonical_representation_base_10_as_string(&self) -> (r: String)
        ensures
            r@ == decimal_string_of(*self as int),
    {
        i128_to_decimal_string(*self as i128)
    }
}

impl ToCanonicalRepresentationBase10AsString for i32 {
    fn to_canonical_representation_base_10_as_string(&self) -> (r: String)
        ensures
            r@ == decimal_string_of(*self as int),
    {
        i128_to_decimal_string(*self as i128)
    }
}

impl ToCanonicalRepresentationBase10AsString for i64 {
    fn to_canonical_representation_base_10_as_string(&self) -> (r: String)
        ensures
            r@ == decimal_string_of(*self as int),
    {
        i128_to_decimal_string(*self as i128)
    }
}

impl ToCanonicalRepresentationBase10AsString for i128 {
    fn to_canonical_representation_base_10_as_string(&self) -> (r: String)
        ensures
            r@ == decimal_string_of(*self as int),
    {
        i128_to_decimal_string(*self)
    }
}

impl ToCanonicalRepresentationBase10AsString for isize {
    fn to_canonical_representation_base_10_as_string(&self) -> (r: String)
        ensures
            r@ == decimal_string_of(*self as int),
    {
        i128_to_decimal_string(*self as i128)
    }
}

} // verus!
