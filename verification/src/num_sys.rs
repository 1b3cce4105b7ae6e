//! Traits pertaining to numeral systems.

pub mod base_10;
pub mod big;

use vstd::prelude::*;
use crate::digits::{
    digits_le_base_10, last_digit_base_10, lemma_digits_le_len_bound, lemma_pow10_values,
    magnitude_of,
};
use crate::ints::IntSubset;
use crate::num_sys::base_10::{GetLastDigitBase10AsU8, NewVecU8OfDigitsBase10Le};
use crate::num_sys::big::{big_int_value, big_uint_value};

verus! {

/// The canonical interpretation of "last digit", guaranteed to be
/// representable as a `u8`. For integer subsets it is the last digit base
/// 10, taken of the magnitude, so it is insensitive to sign.
pub trait GetLastDigitAsU8: IntSubset {
    fn get_last_digit_as_u8(&self) -> (r: u8)
        ensures
            r == last_digit_base_10(self.spec_int_value()),
    ;
}

/// An upper bound, known per type, on the length of the canonical base-10
/// representation of any value of the type (sign included for signed types).
pub trait GetMaxLenBase10AsUsize: IntSubset {
    fn get_max_len_base_10_as_usize(&self) -> (r: usize)
        ensures
            digits_le_base_10(magnitude_of(self.spec_int_value())).len() <= r,
    ;
}

/// The canonical interpretation of "digits", each representable as a `u8`.
/// The digits come least significant first, one per base-10 digit of the
/// magnitude; the vector's length need not match its capacity.
pub trait CreateVecU8OfDigits: IntSubset {
    fn create_vec_u8_of_digits(&self) -> (r: Vec<u8>)
        ensures
            r@ == digits_le_base_10(magnitude_of(self.spec_int_value())),
    ;
}

impl<T: NewVecU8OfDigitsBase10Le> CreateVecU8OfDigits for T {
    fn create_vec_u8_of_digits(&self) -> (r: Vec<u8>)
        ensures
            r@ == digits_le_base_10(magnitude_of(self.spec_int_value())),
    {
        self.new_vec_u8_of_digits_le()
    }
}

impl GetLastDigitAsU8 for u8 {
    fn get_last_digit_as_u8(&self) -> (r: u8)
        ensures
            r == last_digit_base_10(*self as int),
    {
        self.get_last_digit_base_10_as_u8()
    }
}

impl GetLastDigitAsU8 for u16 {
    fn get_last_digit_as_u8(&self) -> (r: u8)
        ensures
            r == last_digit_base_10(*self as int),
    {
        self.get_last_digit_base_10_as_u8()
    }
}

impl GetLastDigitAsU8 for u32 {
    fn get_last_digit_as_u8(&self) -> (r: u8)
        ensures
            r == last_digit_base_10(*self as int),
    {
        self.get_last_digit_base_10_as_u8()
    }
}

impl GetLastDigitAsU8 for u64 {
    fn get_last_digit_as_u8(&self) -> (r: u8)
        ensures
            r == last_digit_base_10(*self as int),
    {
        self.get_last_digit_base_10_as_u8()
    }
}

impl GetLastDigitAsU8 for u128 {
    fn get_last_digit_as_u8(&self) -> (r: u8)
        ensures
            r == last_digit_base_10(*self as int),
    {
        self.get_last_digit_base_10_as_u8()
    }
}

impl GetLastDigitAsU8 for usize {
    fn get_last_digit_as_u8(&self) -> (r: u8)
        ensures
            r == last_digit_base_10(*self as int),
    {
        self.get_last_digit_base_10_as_u8()
    }
}

impl GetLastDigitAsU8 for i8 {
    fn get_last_digit_as_u8(&self) -> (r: u8)
        ensures
            r == last_digit_base_10(*self as int),
    {
        self.get_last_digit_base_10_as_u8()
    }
}

impl GetLastDigitAsU8 for i16 {
    fn get_last_digit_as_u8(&self) -> (r: u8)
        ensures
            r == last_digit_base_10(*self as int),
    {
        self.get_last_digit_base_10_as_u8()
    }
}

impl GetLastDigitAsU8 for i32 {
    fn get_last_digit_as_u8(&self) -> (r: u8)
        ensures
            r == last_digit_base_10(*self as int),
    {
        self.get_last_digit_base_10_as_u8()
    }
}

impl GetLastDigitAsU8 for i64 {
    fn get_last_digit_as_u8(&self) -> (r: u8)
        ensures
            r == last_digit_base_10(*self as int),
    {
        self.get_last_digit_base_10_as_u8()
    }
}

impl GetLastDigitAsU8 for i128 {
    fn get_last_digit_as_u8(&self) -> (r: u8)
        ensures
            r == last_digit_base_10(*self as int),
    {
        self.get_last_digit_base_10_as_u8()
    }
}

impl GetLastDigitAsU8 for isize {
    fn get_last_digit_as_u8(&self) -> (r: u8)
        ensures
            r == last_digit_base_10(*self as int),
    {
        self.get_last_digit_base_10_as_u8()
    }
}

impl GetLastDigitAsU8 for num_bigint::BigUint {
    fn get_last_digit_as_u8(&self) -> (r: u8)
        ensures
            r == last_digit_base_10(big_uint_value(*self) as int),
    {
        self.get_last_digit_base_10_as_u8()
    }
}

impl GetLastDigitAsU8 for num_bigint::BigInt {
    fn get_last_digit_as_u8(&self) -> (r: u8)
        ensures
            r == last_digit_base_10(big_int_value(*self)),
    {
        self.get_last_digit_base_10_as_u8()
    }
}

impl GetMaxLenBase10AsUsize for u8 {
    fn get_max_len_base_10_as_usize(&self) -> (r: usize)
        ensures
            digits_le_base_10(magnitude_of(*self as int)).len() <= r,
            r == 3,
    {
        proof {
            lemma_pow10_values();
            lemma_digits_le_len_bound(magnitude_of(self.spec_int_value()), 3);
        }
        3
    }
}

impl GetMaxLenBase10AsUsize for u16 {
    fn get_max_len_base_10_as_usize(&self) -> (r: usize)
        ensures
            digits_le_base_10(magnitude_of(*self as int)).len() <= r,
            r == 5,
    {
        proof {
            lemma_pow10_values();
            lemma_digits_le_len_bound(magnitude_of(self.spec_int_value()), 5);
        }
        5
    }
}

impl GetMaxLenBase10AsUsize for u32 {
    fn get_max_len_base_10_as_usize(&self) -> (r: usize)
        ensures
            digits_le_base_10(magnitude_of(*self as int)).len() <= r,
            r == 10,
    {
        proof {
            lemma_pow10_values();
            lemma_digits_le_len_bound(magnitude_of(self.spec_int_value()), 10);
        }
        10
    }
}

impl GetMaxLenBase10AsUsize for u64 {
    fn get_max_len_base_10_as_usize(&self) -> (r: usize)
        ensures
            digits_le_base_10(magnitude_of(*self as int)).len() <= r,
            r == 20,
    {
        proof {
            lemma_pow10_values();
            lemma_digits_le_len_bound(magnitude_of(self.spec_int_value()), 20);
        }
        20
    }
}

impl GetMaxLenBase10AsUsize for u128 {
    fn get_max_len_base_10_as_usize(&self) -> (r: usize)
        ensures
            digits_le_base_10(magnitude_of(*self as int)).len() <= r,
            r == 39,
    {
        proof {
            lemma_pow10_values();
            lemma_digits_le_len_bound(magnitude_of(self.spec_int_value()), 39);
        }
        39
    }
}

impl GetMaxLenBase10AsUsize for usize {
    fn get_max_len_base_10_as_usize(&self) -> (r: usize)
        ensures
            digits_le_base_10(magnitude_of(*self as int)).len() <= r,
            r == 20,
    {
        proof {
            lemma_pow10_values();
            lemma_digits_le_len_bound(magnitude_of(self.spec_int_value()), 20);
        }
        20
    }
}

impl GetMaxLenBase10AsUsize for i8 {
    fn get_max_len_base_10_as_usize(&self) -> (r: usize)
        ensures
            digits_le_base_10(magnitude_of(*self as int)).len() <= r,
            r == 4,
    {
        proof {
            lemma_pow10_values();
            lemma_digits_le_len_bound(magnitude_of(self.spec_int_value()), 3);
        }
        4
    }
}

impl GetMaxLenBase10AsUsize for i16 {
    fn get_max_len_base_10_as_usize(&self) -> (r: usize)
        ensures
            digits_le_base_10(magnitude_of(*self as int)).len() <= r,
            r == 6,
    {
        proof {
            lemma_pow10_values();
            lemma_digits_le_len_bound(magnitude_of(self.spec_int_value()), 5);
        }
        6
    }
}

impl GetMaxLenBase10AsUsize for i32 {
    fn get_max_len_base_10_as_usize(&self) -> (r: usize)
        ensures
            digits_le_base_10(magnitude_of(*self as int)).len() <= r,
            r == 11,
    {
        proof {
            lemma_pow10_values();
            lemma_digits_le_len_bound(magnitude_of(self.spec_int_value()), 10);
        }
        11
    }
}

impl GetMaxLenBase10AsUsize for i64 {
    fn get_max_len_base_10_as_usize(&self) -> (r: usize)
        ensures
            digits_le_base_10(magnitude_of(*self as int)).len() <= r,
            r == 20,
    {
        proof {
            lemma_pow10_values();
            lemma_digits_le_len_bound(magnitude_of(self.spec_int_value()), 19);
        }
        20
    }
}

impl GetMaxLenBase10AsUsize for i128 {
    fn get_max_len_base_10_as_usize(&self) -> (r: usize)
        ensures
            digits_le_base_10(magnitude_of(*self as int)).len() <= r,
            r == 40,
    {
        proof {
            lemma_pow10_values();
            lemma_digits_le_len_bound(magnitude_of(self.spec_int_value()), 39);
        }
        40
    }
}

impl GetMaxLenBase10AsUsize for isize {
    fn get_max_len_base_10_as_usize(&self) -> (r: usize)
        ensures
            digits_le_base_10(magnitude_of(*self as int)).len() <= r,
            r == 20,
    {
        proof {
            lemma_pow10_values();
            lemma_digits_le_len_bound(magnitude_of(self.spec_int_value()), 19);
        }
        20
    }
}

} // verus!
