//! The four validation routines that the marks are bound to.
//!
//! Every routine splits the account number into its lowest digit, the
//! check digit that was provided, and the digits above it. It sums those
//! digits under a weight pattern, derives the check digit that the sum asks
//! for, and holds the two against each other.
//!
//! A routine takes any account number and any pattern that is not empty.
//! In its contract, `account_number` is the number that the caller passed.

use crate::digits::simple_checksum;
use crate::error::{KontonummerError, KontonummerResult};
use crate::weights::{
    cross_weighted_sum,
    lemma_pass_ends_at_multiple,
    lemma_weight_in_pass,
    lemma_weighted_sum_step,
    lemma_weighted_sum_u64,
    weighted_sum,
    MAX_SUM,
};
use vstd::prelude::*;

verus! {

/// The check digit that a sum asks for under modulus 10: what is missing
/// to the next multiple of ten.
pub open spec fn expected_mod10(sum: nat) -> nat {
    ((10 - sum % 10) % 10) as nat
}

/// The value that a sum asks for under modulus 11: eleven less the
/// remainder. It lies between 1 and 11, so 10 and 11 are no digits.
pub open spec fn expected_mod11(sum: nat) -> nat {
    (11 - sum % 11) as nat
}

/// The check digit that routine 00 derives from the digits `body` that
/// stand above it: the digit sums of the weighted digits, modulus 10.
pub open spec fn check_digit_00(body: nat, pattern: Seq<u8>) -> nat {
    expected_mod10(cross_weighted_sum(body, pattern, 0))
}

/// The check digit that routine 01 derives from the digits `body` that
/// stand above it: the weighted digits themselves, modulus 10.
pub open spec fn check_digit_01(body: nat, pattern: Seq<u8>) -> nat {
    expected_mod10(weighted_sum(body, pattern, 0))
}

/// The check digit that routine 02 derives from the digits `body` that
/// stand above it, if there is one: the value asked for under modulus 11,
/// unless it is 10 or 11.
pub open spec fn check_digit_02(body: nat, pattern: Seq<u8>) -> Option<nat> {
    let expected = expected_mod11(weighted_sum(body, pattern, 0));
    if expected <= 9 {
        Some(expected)
    } else {
        None
    }
}

/// The check digit that routine 06 derives from the digits `body` that
/// stand above it, if there is one: the value asked for under modulus 11,
/// with 0 in place of 10, and none in place of 11.
pub open spec fn check_digit_06(body: nat, pattern: Seq<u8>) -> Option<nat> {
    let expected = expected_mod11(weighted_sum(body, pattern, 0));
    if expected <= 9 {
        Some(expected)
    } else if expected == 10 {
        Some(0)
    } else {
        None
    }
}

/// What routine 00 says of an account number: it is valid exactly if its
/// lowest digit is the check digit derived from the digits above it.
pub open spec fn outcome_00(account: nat, pattern: Seq<u8>) -> KontonummerResult<()> {
    if account % 10 == check_digit_00(account / 10, pattern) {
        Ok(())
    } else {
        Err(KontonummerError::InvalidChecksum)
    }
}

/// What routine 01 says of an account number: it is valid exactly if its
/// lowest digit is the check digit derived from the digits above it.
pub open spec fn outcome_01(account: nat, pattern: Seq<u8>) -> KontonummerResult<()> {
    if account % 10 == check_digit_01(account / 10, pattern) {
        Ok(())
    } else {
        Err(KontonummerError::InvalidChecksum)
    }
}

/// What routine 02 says of an account number. Where the sum asks for 10,
/// no check digit can be confirmed and the computed value is not usable,
/// whatever digit was provided. Otherwise the account number is valid
/// exactly if its lowest digit is the value asked for.
pub open spec fn outcome_02(account: nat, pattern: Seq<u8>) -> KontonummerResult<()> {
    let expected = expected_mod11(weighted_sum(account / 10, pattern, 0));
    if expected == 10 {
        Err(KontonummerError::CalculatedChecksumNotUsable)
    } else if expected == account % 10 {
        Ok(())
    } else {
        Err(KontonummerError::InvalidChecksum)
    }
}

/// What routine 06 says of an account number. Where the sum asks for 10,
/// the check digit 0 stands for it. Otherwise the account number is valid
/// exactly if its lowest digit is the value asked for.
pub open spec fn outcome_06(account: nat, pattern: Seq<u8>) -> KontonummerResult<()> {
    let expected = expected_mod11(weighted_sum(account / 10, pattern, 0));
    if (expected == 10 && account % 10 == 0) || expected == account % 10 {
        Ok(())
    } else {
        Err(KontonummerError::InvalidChecksum)
    }
}

/// Routine 00: the sum of the digit sums of the weighted digits above the
/// check digit, reduced modulo 10.
pub fn check_pattern_00(mut account_number: u64, pattern: &[u8]) -> (outcome: KontonummerResult<()>)
    requires
        pattern@.len() > 0,
    ensures
        outcome == outcome_00(account_number as nat, pattern@),
        outcome is Ok <==> account_number % 10 == check_digit_00(
            (account_number / 10) as nat,
            pattern@,
        ),
        outcome is Err ==> outcome == Err::<(), _>(KontonummerError::InvalidChecksum),
{
    let provided_checksum: u64 = account_number % 10;
    account_number /= 10;
    let ghost total = cross_weighted_sum(account_number as nat, pattern@, 0);
    let ghost mut pos: nat = 0;
    proof {
        lemma_weighted_sum_u64(account_number as nat, pattern@);
    }

    let mut checksum: u64 = 0;
    while account_number != 0
        invariant
            pattern@.len() > 0,
            pos % pattern@.len() == 0,
            total <= MAX_SUM,
            checksum + cross_weighted_sum(account_number as nat, pattern@, pos) == total,
        decreases account_number,
    {
        let ghost start = pos;
        let ghost before = account_number;
        for weight in pass: pattern
            invariant
                pattern@.len() > 0,
                start % pattern@.len() == 0,
                pos == start + pass.index(),
                total <= MAX_SUM,
                checksum + cross_weighted_sum(account_number as nat, pattern@, pos) == total,
                0 < before,
                account_number <= before,
                pass.index() > 0 ==> account_number < before,
        {
            proof {
                lemma_weight_in_pass(
                    pattern@,
                    start,
                    pass.index() as nat,
                    (account_number % 10) as nat,
                );
                lemma_weighted_sum_step(account_number as nat, pattern@, pos);
                pos = pos + 1;
            }
            checksum += simple_checksum((*weight as u64) * (account_number % 10));
            account_number /= 10;
        }
        proof {
            lemma_pass_ends_at_multiple(pattern@.len(), start);
        }
    }
    checksum %= 10;
    checksum = (10 - checksum) % 10;

    if provided_checksum == checksum {
        Ok(())
    } else {
        Err(KontonummerError::InvalidChecksum)
    }
}

/// Routine 01: the weighted sum of the digits above the check digit,
/// reduced modulo 10.
pub fn check_pattern_01(mut account_number: u64, pattern: &[u8]) -> (outcome: KontonummerResult<()>)
    requires
        pattern@.len() > 0,
    ensures
        outcome == outcome_01(account_number as nat, pattern@),
        outcome is Ok <==> account_number % 10 == check_digit_01(
            (account_number / 10) as nat,
            pattern@,
        ),
        outcome is Err ==> outcome == Err::<(), _>(KontonummerError::InvalidChecksum),
{
    let provided_checksum: u64 = account_number % 10;
    account_number /= 10;
    let ghost total = weighted_sum(account_number as nat, pattern@, 0);
    let ghost mut pos: nat = 0;
    proof {
        lemma_weighted_sum_u64(account_number as nat, pattern@);
    }

    let mut checksum: u64 = 0;
    while account_number != 0
        invariant
            pattern@.len() > 0,
            pos % pattern@.len() == 0,
            total <= MAX_SUM,
            checksum + weighted_sum(account_number as nat, pattern@, pos) == total,
        decreases account_number,
    {
        let ghost start = pos;
        let ghost before = account_number;
        for weight in pass: pattern
            invariant
                pattern@.len() > 0,
                start % pattern@.len() == 0,
                pos == start + pass.index(),
                total <= MAX_SUM,
                checksum + weighted_sum(account_number as nat, pattern@, pos) == total,
                0 < before,
                account_number <= before,
                pass.index() > 0 ==> account_number < before,
        {
            proof {
                lemma_weight_in_pass(
                    pattern@,
                    start,
                    pass.index() as nat,
                    (account_number % 10) as nat,
                );
                lemma_weighted_sum_step(account_number as nat, pattern@, pos);
                pos = pos + 1;
            }
            checksum += (*weight as u64) * (account_number % 10);
            account_number /= 10;
        }
        proof {
            lemma_pass_ends_at_multiple(pattern@.len(), start);
        }
    }
    checksum %= 10;
    checksum = (10 - checksum) % 10;

    if provided_checksum == checksum {
        Ok(())
    } else {
        Err(KontonummerError::InvalidChecksum)
    }
}

/// Routine 02: the weighted sum of the digits above the check digit,
/// reduced modulo 11, where a computed 10 cannot be used.
pub fn check_pattern_02(mut account_number: u64, pattern: &[u8]) -> (outcome: KontonummerResult<()>)
    requires
        pattern@.len() > 0,
    ensures
        outcome == outcome_02(account_number as nat, pattern@),
        outcome == Err::<(), _>(KontonummerError::CalculatedChecksumNotUsable) <==> expected_mod11(
            weighted_sum((account_number / 10) as nat, pattern@, 0),
        ) == 10,
        outcome is Ok <==> check_digit_02((account_number / 10) as nat, pattern@) == Some(
            (account_number % 10) as nat,
        ),
        outcome != Err::<(), _>(KontonummerError::UnknownMark),
{
    let provided_checksum: u64 = account_number % 10;
    account_number /= 10;
    let ghost total = weighted_sum(account_number as nat, pattern@, 0);
    let ghost mut pos: nat = 0;
    proof {
        lemma_weighted_sum_u64(account_number as nat, pattern@);
    }

    let mut checksum: u64 = 0;
    while account_number != 0
        invariant
            pattern@.len() > 0,
            pos % pattern@.len() == 0,
            total <= MAX_SUM,
            checksum + weighted_sum(account_number as nat, pattern@, pos) == total,
        decreases account_number,
    {
        let ghost start = pos;
        let ghost before = account_number;
        for weight in pass: pattern
            invariant
                pattern@.len() > 0,
                start % pattern@.len() == 0,
                pos == start + pass.index(),
                total <= MAX_SUM,
                checksum + weighted_sum(account_number as nat, pattern@, pos) == total,
                0 < before,
                account_number <= before,
                pass.index() > 0 ==> account_number < before,
        {
            proof {
                lemma_weight_in_pass(
                    pattern@,
                    start,
                    pass.index() as nat,
                    (account_number % 10) as nat,
                );
                lemma_weighted_sum_step(account_number as nat, pattern@, pos);
                pos = pos + 1;
            }
            checksum += (*weight as u64) * (account_number % 10);
            account_number /= 10;
        }
        proof {
            lemma_pass_ends_at_multiple(pattern@.len(), start);
        }
    }

    checksum %= 11;
    checksum = 11 - checksum;

    match (checksum, provided_checksum) {
        (10, _) => Err(KontonummerError::CalculatedChecksumNotUsable),
        (a, b) if a == b => Ok(()),
        _ => Err(KontonummerError::InvalidChecksum),
    }
}

/// Routine 06: the weighted sum of the digits above the check digit,
/// reduced modulo 11, where the check digit 0 stands for a computed 10.
pub fn check_pattern_06(mut account_number: u64, pattern: &[u8]) -> (outcome: KontonummerResult<()>)
    requires
        pattern@.len() > 0,
    ensures
        outcome == outcome_06(account_number as nat, pattern@),
        expected_mod11(weighted_sum((account_number / 10) as nat, pattern@, 0)) == 10
            && account_number % 10 == 0 ==> outcome is Ok,
        expected_mod11(weighted_sum((account_number / 10) as nat, pattern@, 0)) == 10
            && account_number % 10 != 0 ==> outcome == Err::<(), _>(
            KontonummerError::InvalidChecksum,
        ),
        outcome is Ok <==> check_digit_06((account_number / 10) as nat, pattern@) == Some(
            (account_number % 10) as nat,
        ),
        outcome is Err ==> outcome == Err::<(), _>(KontonummerError::InvalidChecksum),
{
    let provided_checksum: u64 = account_number % 10;
    account_number /= 10;
    let ghost total = weighted_sum(account_number as nat, pattern@, 0);
    let ghost mut pos: nat = 0;
    proof {
        lemma_weighted_sum_u64(account_number as nat, pattern@);
    }

    let mut checksum: u64 = 0;
    while account_number != 0
        invariant
            pattern@.len() > 0,
            pos % pattern@.len() == 0,
            total <= MAX_SUM,
            checksum + weighted_sum(account_number as nat, pattern@, pos) == total,
        decreases account_number,
    {
        let ghost start = pos;
        let ghost before = account_number;
        for weight in pass: pattern
            invariant
                pattern@.len() > 0,
                start % pattern@.len() == 0,
                pos == start + pass.index(),
                total <= MAX_SUM,
                checksum + weighted_sum(account_number as nat, pattern@, pos) == total,
                0 < before,
                account_number <= before,
                pass.index() > 0 ==> account_number < before,
        {
            proof {
                lemma_weight_in_pass(
                    pattern@,
                    start,
                    pass.index() as nat,
                    (account_number % 10) as nat,
                );
                lemma_weighted_sum_step(account_number as nat, pattern@, pos);
                pos = pos + 1;
            }
            checksum += (*weight as u64) * (account_number % 10);
            account_number /= 10;
        }
        proof {
            lemma_pass_ends_at_multiple(pattern@.len(), start);
        }
    }

    checksum %= 11;
    checksum = 11 - checksum;

    match (checksum, provided_checksum) {
        (10, 0) => Ok(()),
        (a, b) if a == b => Ok(()),
        _ => Err(KontonummerError::InvalidChecksum),
    }
}

/// Round trip under routine 00: the digits `body` followed by `digit` are
/// accepted exactly if `digit` is the check digit that the routine derives
/// from `body`, and the routine derives one from every `body`.
pub proof fn lemma_round_trip_00(body: nat, pattern: Seq<u8>, digit: nat)
    requires
        digit <= 9,
    ensures
        check_digit_00(body, pattern) <= 9,
        outcome_00(10 * body + digit, pattern) is Ok <==> digit == check_digit_00(body, pattern),
{
}

/// Round trip under routine 01: the digits `body` followed by `digit` are
/// accepted exactly if `digit` is the check digit that the routine derives
/// from `body`, and the routine derives one from every `body`.
pub proof fn lemma_round_trip_01(body: nat, pattern: Seq<u8>, digit: nat)
    requires
        digit <= 9,
    ensures
        check_digit_01(body, pattern) <= 9,
        outcome_01(10 * body + digit, pattern) is Ok <==> digit == check_digit_01(body, pattern),
{
}

/// Round trip under routine 02: the digits `body` followed by `digit` are
/// accepted exactly if `digit` is the check digit that the routine derives
/// from `body`. Where it derives none, no digit completes `body`.
pub proof fn lemma_round_trip_02(body: nat, pattern: Seq<u8>, digit: nat)
    requires
        digit <= 9,
    ensures
        outcome_02(10 * body + digit, pattern) is Ok <==> check_digit_02(body, pattern) == Some(
            digit,
        ),
{
}

/// Round trip under routine 06: the digits `body` followed by `digit` are
/// accepted exactly if `digit` is the check digit that the routine derives
/// from `body`. Where it derives none, no digit completes `body`.
pub proof fn lemma_round_trip_06(body: nat, pattern: Seq<u8>, digit: nat)
    requires
        digit <= 9,
    ensures
        outcome_06(10 * body + digit, pattern) is Ok <==> check_digit_06(body, pattern) == Some(
            digit,
        ),
{
}

} // verus!
