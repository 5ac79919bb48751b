//! Decimal digits of a number, read from the lowest digit upwards by
//! division, never from text.

use vstd::prelude::*;

verus! {

/// The sum of the decimal digits of `n`, taken in one pass: `999` gives `27`,
/// not `9`.
pub open spec fn digit_sum(n: nat) -> nat
    decreases n,
{
    if n == 0 {
        0
    } else {
        n % 10 + digit_sum(n / 10)
    }
}

/// How many decimal digits `n` has; zero has none.
pub open spec fn decimal_len(n: nat) -> nat
    decreases n,
{
    if n == 0 {
        0
    } else {
        1 + decimal_len(n / 10)
    }
}

/// A number of a single digit is its own digit sum.
pub proof fn lemma_digit_sum_of_digit(d: nat)
    requires
        d <= 9,
    ensures
        digit_sum(d) == d,
{
    reveal_with_fuel(digit_sum, 2);
}

/// Writing a digit behind a number adds that digit to its digit sum.
pub proof fn lemma_digit_sum_of_appended_digit(n: nat, d: nat)
    requires
        d <= 9,
    ensures
        digit_sum(10 * n + d) == digit_sum(n) + d,
{
}

/// Summing the digits never gives more than the number itself.
pub proof fn lemma_digit_sum_at_most(n: nat)
    ensures
        digit_sum(n) <= n,
    decreases n,
{
    if n != 0 {
        lemma_digit_sum_at_most(n / 10);
    }
}

/// A number that fits in 64 bits has at most twenty decimal digits.
pub proof fn lemma_decimal_len_u64(n: nat)
    requires
        n <= u64::MAX,
    ensures
        decimal_len(n) <= 20,
{
    reveal_with_fuel(decimal_len, 21);
}

/// Sums the decimal digits of `number`.
pub fn simple_checksum(mut number: u64) -> (sum: u64)
    ensures
        sum == digit_sum(number as nat),
        number <= 9 ==> sum == number,
{
    let ghost whole = number;
    proof {
        lemma_digit_sum_at_most(whole as nat);
    }
    let mut sum: u64 = 0;
    while number != 0
        invariant
            sum + digit_sum(number as nat) == digit_sum(whole as nat),
            digit_sum(whole as nat) <= u64::MAX,
        decreases number,
    {
        sum += number % 10;
        number /= 10;
    }
    proof {
        if whole <= 9 {
            lemma_digit_sum_of_digit(whole as nat);
        }
    }
    sum
}

} // verus!
