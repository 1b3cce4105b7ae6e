use dd_maths_traits::num_sys::base_10::{
    GetLastDigitBase10AsU8, NewVecU8OfDigitsBase10Le, SumDigits, SumDigitsDefaults,
    SumDigitsTypeTuple, Ten, ToCanonicalRepresentationBase10AsString,
};
use dd_maths_traits::num_sys::{CreateVecU8OfDigits, GetLastDigitAsU8, GetMaxLenBase10AsUsize};
use num_bigint::{BigInt, BigUint};

#[test]
fn get_last_digit_as_u8_works_for_negative_primitive_signed_integers() {
    assert_eq!((-17).get_last_digit_as_u8(), 7);
}

#[test]
fn get_last_digit_as_u8_works_for_big_uint_test1() {
    let big_uint = BigUint::from(340_282_366_920_938_463_463_374_607_431_768_211_451u128);
    assert_eq!(big_uint.get_last_digit_as_u8(), 1);
}

#[test]
fn get_last_digit_as_u8_works_for_big_uint_test2() {
    let big_uint = BigUint::from(340_282_366_920_938_463_463_374_607_431_768_211_452u128);
    assert_eq!(big_uint.get_last_digit_as_u8(), 2);
}

#[test]
fn get_last_digit_as_u8_works_for_big_int_test1() {
    let big_int = BigInt::from(-170_141_183_460_469_231_731_687_303_715_884_105_721i128);
    assert_eq!(big_int.get_last_digit_as_u8(), 1);
}

#[test]
fn get_last_digit_as_u8_works_for_big_int_test2() {
    let big_int = BigInt::from(-170_141_183_460_469_231_731_687_303_715_884_105_722i128);
    assert_eq!(big_int.get_last_digit_as_u8(), 2);
}

#[test]
fn sum_digits_works_for_default_type_tuple_of_u8() {
    assert_eq!(
        <(u8, u8, u8, u8, u8) as SumDigitsTypeTuple>::sum_digits(&5u8, 10, None),
        5u8
    );
}

#[test]
fn sum_digits_for_5u8() {
    assert_eq!(5u8.std_sum_digits(), 5u8)
}

#[test]
fn sum_digits_mod_2_works_for_5u8() {
    assert_eq!(5u8.sum_digits(10, Some(2)), 1u8)
}

#[test]
fn to_canonical_representation_base_10_as_string_works_for_negative_primitive_signed_integers() {
    assert_eq!((-17).to_canonical_representation_base_10_as_string(), "-17");
}

#[test]
fn last_digit_of_zero_is_zero() {
    assert_eq!(0i32.get_last_digit_as_u8(), 0);
    assert_eq!(0u8.get_last_digit_base_10_as_u8(), 0);
}

#[test]
fn digits_of_zero_are_a_single_zero() {
    assert_eq!(0u8.new_vec_u8_of_digits_le(), vec![0]);
    assert_eq!(0i64.new_vec_u8_of_digits_le(), vec![0]);
}

#[test]
fn sum_digits_of_zero_is_zero() {
    assert_eq!(0u8.std_sum_digits(), 0);
}

#[test]
fn digits_of_199_little_endian() {
    assert_eq!(199u8.new_vec_u8_of_digits_le(), vec![9, 9, 1]);
}

#[test]
fn sum_digits_of_199_is_19() {
    assert_eq!(199u8.std_sum_digits(), 19);
}

#[test]
fn last_digit_matches_value_mod_10_for_small_nonnegatives() {
    for v in 0u32..100 {
        assert_eq!(v.get_last_digit_as_u8(), (v % 10) as u8);
    }
}

#[test]
fn last_digit_is_sign_insensitive_for_sampled_values() {
    for v in [-99i64, -17, -10, -1, 0, 1, 10, 17, 99] {
        assert_eq!(v.get_last_digit_as_u8(), (-v).get_last_digit_as_u8());
    }
}

#[test]
fn last_digit_of_minimum_i128_uses_the_magnitude() {
    assert_eq!(i128::MIN.get_last_digit_as_u8(), 8);
}

#[test]
fn digits_round_trip_reconstructs_the_magnitude() {
    let digits = (-12345i32).new_vec_u8_of_digits_le();
    let mut value: u64 = 0;
    for &d in digits.iter().rev() {
        value = value * 10 + d as u64;
    }
    assert_eq!(value, 12345);
}

#[test]
fn sum_digits_with_modulo_matches_raw_sum_reduced() {
    for m in 1u128..20 {
        assert_eq!(
            199u8.sum_digits(10, Some(m)) as u128,
            199u8.sum_digits(10, None) as u128 % m
        );
    }
}

#[test]
fn sum_digits_with_modulo_at_least_255_returns_the_raw_sum() {
    assert_eq!(199u8.sum_digits(10, Some(255)), 19);
    assert_eq!(199u8.sum_digits(10, Some(1000)), 19);
}

#[test]
fn sum_digits_clamps_bases_above_255() {
    // With the base clamped to 255, the magnitude 199 is a single digit.
    assert_eq!(199u8.sum_digits(300, None), 199);
    assert_eq!(199u8.sum_digits(255, None), 199);
}

#[test]
fn sum_digits_in_base_2_counts_set_bits() {
    assert_eq!(5u8.sum_digits(2, None), 2);
    assert_eq!(255u8.sum_digits(2, None), 8);
}

#[test]
fn big_uint_digits_little_endian() {
    assert_eq!(BigUint::from(199u32).new_vec_u8_of_digits_le(), vec![9, 9, 1]);
    assert_eq!(BigUint::from(0u32).new_vec_u8_of_digits_le(), vec![0]);
}

#[test]
fn big_int_digits_use_the_magnitude() {
    assert_eq!(BigInt::from(-199).new_vec_u8_of_digits_le(), vec![9, 9, 1]);
    assert_eq!(
        BigInt::from(340_282_366_920_938_463_463_374_607_431_768_211_451u128)
            .new_vec_u8_of_digits_le()[0],
        1
    );
}

#[test]
fn create_vec_u8_of_digits_agrees_with_the_le_digit_vector() {
    assert_eq!(199u8.create_vec_u8_of_digits(), vec![9, 9, 1]);
    assert_eq!(BigUint::from(42u32).create_vec_u8_of_digits(), vec![2, 4]);
}

#[test]
fn canonical_representation_of_unsigned_values() {
    assert_eq!(255u8.to_canonical_representation_base_10_as_string(), "255");
    assert_eq!(0u32.to_canonical_representation_base_10_as_string(), "0");
    assert_eq!(
        u128::MAX.to_canonical_representation_base_10_as_string(),
        "340282366920938463463374607431768211455"
    );
}

#[test]
fn canonical_representation_of_extreme_signed_values() {
    assert_eq!(
        i128::MIN.to_canonical_representation_base_10_as_string(),
        "-170141183460469231731687303715884105728"
    );
    assert_eq!((-128i8).to_canonical_representation_base_10_as_string(), "-128");
}

#[test]
fn max_len_base_10_bounds_the_digit_count() {
    assert_eq!(255u8.get_max_len_base_10_as_usize(), 3);
    assert_eq!((-128i8).get_max_len_base_10_as_usize(), 4);
    assert_eq!(u64::MAX.get_max_len_base_10_as_usize(), 20);
    assert!(u64::MAX.new_vec_u8_of_digits_le().len() <= u64::MAX.get_max_len_base_10_as_usize());
}

#[test]
fn ten_is_ten() {
    assert_eq!(u8::TEN, 10);
    assert_eq!(i32::TEN, 10);
    assert_eq!(u128::TEN, 10);
}

#[test]
fn digits_of_the_widest_unsigned_value() {
    let digits = u128::MAX.new_vec_u8_of_digits_le();
    assert_eq!(digits.len(), 39);
    assert_eq!(digits[0], 5);
    assert_eq!(digits[38], 3);
}
