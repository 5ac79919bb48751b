//! The marks and the methods they are bound to.
//!
//! A mark is the one-byte code by which a bank names the method that
//! validates its account numbers. The binding of marks to routines and
//! weight patterns is fixed.

use crate::error::{KontonummerError, KontonummerResult};
use crate::routines::{
    check_digit_00,
    check_digit_01,
    check_digit_02,
    check_digit_06,
    check_pattern_00,
    check_pattern_01,
    check_pattern_02,
    check_pattern_06,
    outcome_00,
    outcome_01,
    outcome_02,
    outcome_06,
};
use vstd::prelude::*;

verus! {

/// From this account number on, mark 08 accepts without looking at the
/// digits.
pub const MARK_08_THRESHOLD: u64 = 60000;

/// The mark whose method is registered but not provided yet.
pub const PENDING_MARK: u8 = 0x11;

/// The marks for which a method is registered.
pub open spec fn is_known_mark(mark: u8) -> bool {
    mark <= 0x09 || mark == 0x10 || mark == PENDING_MARK
}

/// Whether `mark` is the one whose method is not provided yet. Such a mark
/// is known, and no outcome is defined for it.
pub open spec fn is_pending_mark(mark: u8) -> bool {
    mark == PENDING_MARK
}

/// The weight pattern that a mark is bound to. It is empty for a mark that
/// weighs no digits.
pub open spec fn pattern_of_mark(mark: u8) -> Seq<u8> {
    if mark == 0x00 || mark == 0x03 || mark == 0x08 {
        seq![2u8, 1]
    } else if mark == 0x01 {
        seq![3u8, 7, 1]
    } else if mark == 0x05 {
        seq![7u8, 3, 1]
    } else if mark == 0x04 || mark == 0x06 {
        seq![2u8, 3, 4, 5, 6, 7]
    } else if mark == 0x02 {
        seq![2u8, 3, 4, 5, 6, 7, 8, 9]
    } else if mark == 0x07 || mark == 0x10 {
        seq![2u8, 3, 4, 5, 6, 7, 8, 9, 10]
    } else {
        Seq::empty()
    }
}

/// What a mark says of an account number: the outcome of the routine that
/// the mark is bound to, under the mark's pattern. Mark 08 accepts every
/// account number from the threshold on and asks routine 00 below it; mark
/// 09 accepts every account number.
pub open spec fn outcome_of_mark(mark: u8, account: nat) -> KontonummerResult<()>
    recommends
        !is_pending_mark(mark),
{
    let pattern = pattern_of_mark(mark);
    if mark == 0x00 {
        outcome_00(account, pattern)
    } else if mark == 0x01 || mark == 0x03 || mark == 0x05 {
        outcome_01(account, pattern)
    } else if mark == 0x02 || mark == 0x04 || mark == 0x07 {
        outcome_02(account, pattern)
    } else if mark == 0x06 || mark == 0x10 {
        outcome_06(account, pattern)
    } else if mark == 0x08 {
        if account >= MARK_08_THRESHOLD {
            Ok(())
        } else {
            outcome_00(account, pattern)
        }
    } else if mark == 0x09 {
        Ok(())
    } else if is_pending_mark(mark) {
        arbitrary()
    } else {
        Err(KontonummerError::UnknownMark)
    }
}

/// The check digit that a mark derives from the digits `body` that stand
/// above it, where its routine derives one. Mark 09 verifies no digit and
/// derives none; nor does a mark that is pending or unknown.
pub open spec fn check_digit_of_mark(mark: u8, body: nat) -> Option<nat> {
    let pattern = pattern_of_mark(mark);
    if mark == 0x00 || mark == 0x08 {
        Some(check_digit_00(body, pattern))
    } else if mark == 0x01 || mark == 0x03 || mark == 0x05 {
        Some(check_digit_01(body, pattern))
    } else if mark == 0x02 || mark == 0x04 || mark == 0x07 {
        check_digit_02(body, pattern)
    } else if mark == 0x06 || mark == 0x10 {
        check_digit_06(body, pattern)
    } else {
        None
    }
}

/// Validates `account_number` by the method that `mark` is bound to.
///
/// An unknown mark is an error like any other. The pending mark is not: no
/// outcome exists for it, so it is left out, and a caller that cannot rule
/// it out compares the mark with `PENDING_MARK` first.
pub fn check_blz(mark: u8, account_number: u64) -> (outcome: KontonummerResult<()>)
    requires
        !is_pending_mark(mark),
    ensures
        outcome == outcome_of_mark(mark, account_number as nat),
        outcome == Err::<(), _>(KontonummerError::UnknownMark) <==> !is_known_mark(mark),
        mark == 0x09 ==> outcome is Ok,
        mark == 0x08 && account_number >= 60000 ==> outcome is Ok,
        mark == 0x08 && account_number < 60000 ==> outcome == outcome_00(
            account_number as nat,
            seq![2u8, 1],
        ),
{
    match mark {
        0x00 => check_pattern_00(account_number, &[2, 1]),
        0x01 => check_pattern_01(account_number, &[3, 7, 1]),
        0x02 => check_pattern_02(account_number, &[2, 3, 4, 5, 6, 7, 8, 9]),
        0x03 => check_pattern_01(account_number, &[2, 1]),
        0x04 => check_pattern_02(account_number, &[2, 3, 4, 5, 6, 7]),
        0x05 => check_pattern_01(account_number, &[7, 3, 1]),
        0x06 => check_pattern_06(account_number, &[2, 3, 4, 5, 6, 7]),
        0x07 => check_pattern_02(account_number, &[2, 3, 4, 5, 6, 7, 8, 9, 10]),
        0x08 => if account_number >= MARK_08_THRESHOLD {
            Ok(())
        } else {
            check_pattern_00(account_number, &[2, 1])
        },
        0x09 => Ok(()),
        0x10 => check_pattern_06(account_number, &[2, 3, 4, 5, 6, 7, 8, 9, 10]),
        PENDING_MARK => unreached(),
        _ => Err(KontonummerError::UnknownMark),
    }
}

/// Round trip through a mark: where the mark derives a check digit from
/// the digits `body`, these digits followed by that digit are an account
/// number that the mark accepts.
pub proof fn lemma_round_trip_of_mark(mark: u8, body: nat)
    ensures
        check_digit_of_mark(mark, body) matches Some(digit) ==> digit <= 9 && outcome_of_mark(
            mark,
            10 * body + digit,
        ) == Ok::<(), KontonummerError>(()),
{
}

/// Under a mark that is bound to one of the four routines, no digit but
/// the derived one completes the digits `body`: where the mark derives
/// none, every account number with these leading digits is turned down.
pub proof fn lemma_check_digit_of_mark_is_unique(mark: u8, body: nat, digit: nat)
    requires
        mark <= 0x07 || mark == 0x10,
        digit <= 9,
    ensures
        outcome_of_mark(mark, 10 * body + digit) is Ok <==> check_digit_of_mark(mark, body)
            == Some(digit),
{
}

} // verus!
