//! The mathematical model of base-10 (and general-base) digit decomposition,
//! together with the laws that hold of it.

use vstd::prelude::*;

verus! {

/// The magnitude (absolute value) of a mathematical integer.
pub open spec fn magnitude_of(v: int) -> nat {
    if v < 0 {
        (-v) as nat
    } else {
        v as nat
    }
}

/// The least significant base-10 digit of the magnitude of `v`.
pub open spec fn last_digit_base_10(v: int) -> u8 {
    (magnitude_of(v) % 10) as u8
}

/// The little-endian base-10 digit sequence of `n`: least significant digit
/// first, always at least one digit (`0` decomposes to `[0]`), and no digits
/// beyond what the decimal representation of `n` requires.
pub open spec fn digits_le_base_10(n: nat) -> Seq<u8>
    decreases n,
{
    if n < 10 {
        seq![n as u8]
    } else {
        seq![(n % 10) as u8] + digits_le_base_10(n / 10)
    }
}

/// The value of a little-endian base-10 digit sequence.
pub open spec fn digits_le_value(s: Seq<u8>) -> nat
    decreases s.len(),
{
    if s.len() == 0 {
        0
    } else {
        (s[0] + 10 * digits_le_value(s.drop_first())) as nat
    }
}

/// The sum of the base-`b` digits of `n`, under the do-while reading of
/// decomposition: a quotient that has become `0` contributes nothing more.
pub open spec fn sum_digits_rec(n: nat, b: nat) -> nat
    recommends
        b >= 2,
    decreases n
    when b >= 2
    via sum_digits_rec_decreases
{
    if n < b {
        n
    } else {
        n % b + sum_digits_rec(n / b, b)
    }
}

#[via_fn]
proof fn sum_digits_rec_decreases(n: nat, b: nat) {
    if n >= b {
        vstd::arithmetic::div_mod::lemma_div_decreases(n as int, b as int);
    }
}

/// A base above 255 is clamped to 255 before decomposition: the accumulator
/// is 8 bits wide, so larger divisors are not distinguished.
pub open spec fn clamp_base_to_255(base: nat) -> nat {
    if base > 255 {
        255
    } else {
        base
    }
}

/// What the digit-sum accumulator returns for value `n`, requested base
/// `base` and optional modulus: the base is clamped to 255, and the raw sum
/// is reduced only by a present modulus below 255.
pub open spec fn sum_digits_with_modulo(n: nat, base: nat, opt_modulo: Option<u128>) -> nat {
    match opt_modulo {
        Option::None => sum_digits_rec(n, clamp_base_to_255(base)),
        Option::Some(m) => if m >= 255 {
            sum_digits_rec(n, clamp_base_to_255(base))
        } else {
            sum_digits_rec(n, clamp_base_to_255(base)) % (m as nat)
        },
    }
}

/// The character for one digit value.
pub open spec fn digit_to_char(d: nat) -> char
    recommends
        d < 10,
{
    ((d + 48) as u8) as char
}

/// The base-10 character sequence of `n`, most significant digit first, with
/// no leading zeros beyond a bare `0`.
pub open spec fn decimal_chars_of(n: nat) -> Seq<char>
    decreases n,
{
    if n < 10 {
        seq![digit_to_char(n)]
    } else {
        decimal_chars_of(n / 10) + seq![digit_to_char(n % 10)]
    }
}

/// The canonical decimal representation of `v`: sign-prefixed for negative
/// values, no leading zeros beyond a bare `0`.
pub open spec fn decimal_string_of(v: int) -> Seq<char> {
    if v < 0 {
        seq!['-'] + decimal_chars_of(magnitude_of(v))
    } else {
        decimal_chars_of(magnitude_of(v))
    }
}

/// Powers of ten, for bounding the length of digit sequences.
pub open spec fn pow10(k: nat) -> nat
    decreases k,
{
    if k == 0 {
        1
    } else {
        10 * pow10((k - 1) as nat)
    }
}

/// Taking the last digit is sign-insensitive: a value and its additive
/// inverse have the same last digit.
pub proof fn lemma_last_digit_sign_insensitive(v: int)
    ensures
        last_digit_base_10(v) == last_digit_base_10(-v),
{
}

/// On non-negative values the last digit is the remainder modulo 10.
pub proof fn lemma_last_digit_nonneg(v: int)
    requires
        v >= 0,
    ensures
        last_digit_base_10(v) as int == v % 10,
{
}

/// Reading the little-endian digit sequence of `n` back as a base-10 number
/// reproduces `n`.
pub proof fn lemma_digits_le_round_trip(n: nat)
    ensures
        digits_le_value(digits_le_base_10(n)) == n,
    decreases n,
{
    if n < 10 {
        let s = digits_le_base_10(n);
        assert(s =~= seq![n as u8]);
        assert(s.drop_first() =~= Seq::<u8>::empty());
        assert(digits_le_value(Seq::<u8>::empty()) == 0);
        assert(digits_le_value(s) == (s[0] + 10 * digits_le_value(s.drop_first())) as nat);
    } else {
        lemma_digits_le_round_trip(n / 10);
        let s = digits_le_base_10(n);
        assert(s =~= seq![(n % 10) as u8] + digits_le_base_10(n / 10));
        assert(s.drop_first() =~= digits_le_base_10(n / 10));
        assert(digits_le_value(s) == (s[0] + 10 * digits_le_value(s.drop_first())) as nat);
        vstd::arithmetic::div_mod::lemma_fundamental_div_mod(n as int, 10);
    }
}

/// The digit sequence is canonical: never empty, every entry is a digit, and
/// only `0` ends in a zero digit.
pub proof fn lemma_digits_le_canonical(n: nat)
    ensures
        digits_le_base_10(n).len() >= 1,
        forall|i: int|
            0 <= i < digits_le_base_10(n).len() ==> #[trigger] digits_le_base_10(n)[i] < 10,
        n > 0 ==> digits_le_base_10(n).last() != 0,
        digits_le_base_10(0) =~= seq![0u8],
    decreases n,
{
    if n < 10 {
    } else {
        lemma_digits_le_canonical(n / 10);
        vstd::arithmetic::div_mod::lemma_fundamental_div_mod(n as int, 10);
    }
}

/// For a base of at least 2, the digit sum never exceeds the value itself.
pub proof fn lemma_sum_digits_le(n: nat, b: nat)
    requires
        b >= 2,
    ensures
        sum_digits_rec(n, b) <= n,
    decreases n,
{
    if n >= b {
        vstd::arithmetic::div_mod::lemma_div_decreases(n as int, b as int);
        lemma_sum_digits_le(n / b, b);
        vstd::arithmetic::div_mod::lemma_fundamental_div_mod(n as int, b as int);
        assert(b * (n / b) >= 1 * (n / b)) by (nonlinear_arith)
            requires
                b >= 1,
                n / b >= 0,
        ;
    }
}

/// Reducing the raw digit sum by a present modulus below 255 is exactly a
/// reduction modulo that value.
pub proof fn lemma_sum_digits_modulo(n: nat, m: u128)
    requires
        1 <= m < 255,
    ensures
        sum_digits_with_modulo(n, 10, Option::Some(m)) == sum_digits_with_modulo(
            n,
            10,
            Option::None,
        ) % (m as nat),
{
}

/// The concrete powers of ten that bound the decimal length of each
/// fixed-width machine integer type.
pub proof fn lemma_pow10_values()
    ensures
        pow10(3) == 1000,
        pow10(5) == 100000,
        pow10(10) == 10000000000,
        pow10(19) == 10000000000000000000,
        pow10(20) == 100000000000000000000,
        pow10(39) == 1000000000000000000000000000000000000000,
{
    reveal_with_fuel(pow10, 40);
}

/// Digit-sequence length is bounded by the exponent of any dominating power
/// of ten.
pub proof fn lemma_digits_le_len_bound(n: nat, k: nat)
    requires
        k >= 1,
        n < pow10(k),
    ensures
        digits_le_base_10(n).len() <= k,
    decreases n,
{
    if n < 10 {
    } else {
        assert(pow10(k) == 10 * pow10((k - 1) as nat));
        vstd::arithmetic::div_mod::lemma_multiply_divide_lt(n as int, 10, pow10((k - 1) as nat) as int);
        if k == 1 {
            assert(pow10(1) == 10 * pow10(0));
        }
        lemma_digits_le_len_bound(n / 10, (k - 1) as nat);
    }
}

} // verus!
