//! Weight patterns and the sums they give over the digits of a number.
//!
//! A pattern is an ordered, non-empty sequence of weights. It is laid over
//! the digits of a number from the lowest digit upwards, one weight per
//! digit, and starts over when it is exhausted.

use crate::digits::{decimal_len, digit_sum, lemma_decimal_len_u64, lemma_digit_sum_at_most};
use vstd::arithmetic::div_mod::{
    lemma_fundamental_div_mod,
    lemma_mod_add_multiples_vanish,
    lemma_mod_multiples_vanish,
    lemma_small_mod,
};
use vstd::arithmetic::mul::lemma_mul_upper_bound;
use vstd::prelude::*;

verus! {

/// The largest product of a weight and a digit.
pub const MAX_PRODUCT: u64 = 255 * 9;

/// A bound on the sum that the digits of a 64-bit number give under any
/// pattern: twenty digits, each with the largest product.
pub const MAX_SUM: u64 = 20 * MAX_PRODUCT;

/// The weight that falls on the digit at position `pos`, where position 0
/// is the lowest digit: the pattern repeats along the number.
pub open spec fn weight_at(pattern: Seq<u8>, pos: nat) -> nat
    recommends
        pattern.len() > 0,
{
    pattern[(pos % pattern.len()) as int] as nat
}

/// The sum of the digits of `digits`, each multiplied by its weight, where
/// the lowest digit of `digits` stands at position `pos` of the pattern.
pub open spec fn weighted_sum(digits: nat, pattern: Seq<u8>, pos: nat) -> nat
    recommends
        pattern.len() > 0,
    decreases digits,
{
    if digits == 0 {
        0
    } else {
        weight_at(pattern, pos) * (digits % 10) + weighted_sum(digits / 10, pattern, pos + 1)
    }
}

/// As `weighted_sum`, but each product of a weight and a digit enters the
/// sum by its digit sum and not by its value.
pub open spec fn cross_weighted_sum(digits: nat, pattern: Seq<u8>, pos: nat) -> nat
    recommends
        pattern.len() > 0,
    decreases digits,
{
    if digits == 0 {
        0
    } else {
        digit_sum(weight_at(pattern, pos) * (digits % 10)) + cross_weighted_sum(
            digits / 10,
            pattern,
            pos + 1,
        )
    }
}

/// In a pass over the pattern that starts at a multiple of its length,
/// the digit at offset `offset` meets the weight `pattern[offset]`, and
/// their product is at most `MAX_PRODUCT`.
pub proof fn lemma_weight_in_pass(pattern: Seq<u8>, start: nat, offset: nat, digit: nat)
    requires
        offset < pattern.len(),
        start % pattern.len() == 0,
        digit <= 9,
    ensures
        weight_at(pattern, start + offset) == pattern[offset as int],
        pattern[offset as int] * digit <= MAX_PRODUCT,
{
    let len = pattern.len() as int;
    lemma_fundamental_div_mod(start as int, len);
    lemma_mod_multiples_vanish(start as int / len, offset as int, len);
    lemma_small_mod(offset, pattern.len());
    lemma_mul_upper_bound(pattern[offset as int] as int, 255, digit as int, 9);
}

/// A pass over the whole pattern that starts at a multiple of its length
/// ends at the next one.
pub proof fn lemma_pass_ends_at_multiple(len: nat, start: nat)
    requires
        len > 0,
        start % len == 0,
    ensures
        (start + len) % len == 0,
{
    lemma_mod_add_multiples_vanish(start as int, len as int);
}

/// Taking the lowest digit off a number moves its weighted product from the
/// sum that is still to come into the sum that was gathered. This holds
/// for zero too, which adds nothing.
pub proof fn lemma_weighted_sum_step(digits: nat, pattern: Seq<u8>, pos: nat)
    ensures
        weighted_sum(digits, pattern, pos) == weight_at(pattern, pos) * (digits % 10)
            + weighted_sum(digits / 10, pattern, pos + 1),
        cross_weighted_sum(digits, pattern, pos) == digit_sum(
            weight_at(pattern, pos) * (digits % 10),
        ) + cross_weighted_sum(digits / 10, pattern, pos + 1),
{
    if digits == 0 {
        assert(weight_at(pattern, pos) * 0 == 0) by (nonlinear_arith);
    }
}

/// A weighted sum grows by at most the largest product for each digit, and
/// the digit sums of the products never give more than the products do.
pub proof fn lemma_weighted_sum_bound(digits: nat, pattern: Seq<u8>, pos: nat)
    ensures
        cross_weighted_sum(digits, pattern, pos) <= weighted_sum(digits, pattern, pos),
        weighted_sum(digits, pattern, pos) <= decimal_len(digits) * MAX_PRODUCT,
    decreases digits,
{
    if digits != 0 {
        let weight = weight_at(pattern, pos);
        let digit = digits % 10;
        lemma_weighted_sum_bound(digits / 10, pattern, pos + 1);
        lemma_digit_sum_at_most(weight * digit);
        lemma_mul_upper_bound(weight as int, 255, digit as int, 9);
    }
}

/// Under no pattern do the digits of a 64-bit number sum to more than
/// `MAX_SUM`.
pub proof fn lemma_weighted_sum_u64(digits: nat, pattern: Seq<u8>)
    requires
        digits <= u64::MAX,
    ensures
        cross_weighted_sum(digits, pattern, 0) <= weighted_sum(digits, pattern, 0) <= MAX_SUM,
{
    lemma_weighted_sum_bound(digits, pattern, 0);
    lemma_decimal_len_u64(digits);
    lemma_mul_upper_bound(decimal_len(digits) as int, 20, MAX_PRODUCT as int, MAX_PRODUCT as int);
}

} // verus!
