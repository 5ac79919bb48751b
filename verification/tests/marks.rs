use kontonummer::routines::{
    check_pattern_00, check_pattern_01, check_pattern_02, check_pattern_06,
};
use kontonummer::{check_blz, KontonummerError, MARK_08_THRESHOLD, PENDING_MARK};

const INVALID: Result<(), KontonummerError> = Err(KontonummerError::InvalidChecksum);
const NOT_USABLE: Result<(), KontonummerError> =
    Err(KontonummerError::CalculatedChecksumNotUsable);
const UNKNOWN: Result<(), KontonummerError> = Err(KontonummerError::UnknownMark);

#[test]
fn test_mark_00() {
    assert_eq!(check_blz(0x00, 9290701), Ok(()));
    assert_eq!(check_blz(0x00, 539290858), Ok(()));
    assert_eq!(check_blz(0x00, 1501824), Ok(()));
    assert_eq!(check_blz(0x00, 1501832), Ok(()));
}

#[test]
fn test_mark_06() {
    assert_eq!(check_blz(0x06, 94012341), Ok(()));
    assert_eq!(check_blz(0x06, 5073321010), Ok(()));
}

#[test]
fn test_mark_10() {
    assert_eq!(check_blz(0x10, 12345008), Ok(()));
    assert_eq!(check_blz(0x10, 87654008), Ok(()));
}

#[test]
fn mark_00_turns_down_a_wrong_check_digit() {
    for digit in 0..=9u64 {
        assert_eq!(check_blz(0x00, 9290700 + digit).is_ok(), digit == 1);
    }
    assert_eq!(check_blz(0x00, 9290702), INVALID);
}

#[test]
fn mark_00_and_mark_03_differ_by_the_digit_sum() {
    // Both weigh with [2, 1]; only mark 00 takes the digit sums of the products.
    assert_eq!(check_blz(0x00, 1501824), Ok(()));
    assert_eq!(check_blz(0x03, 1501824), INVALID);
    assert_eq!(check_blz(0x03, 1501825), Ok(()));
    assert_eq!(check_blz(0x00, 1501825), INVALID);
}

#[test]
fn each_mark_weighs_with_its_own_pattern() {
    // The digit that completes 4815162 under each mark.
    let accepted = [
        (0x00u8, Some(5u64)),
        (0x01, Some(9)),
        (0x02, Some(9)),
        (0x03, Some(5)),
        (0x04, None),
        (0x05, Some(3)),
        (0x06, None),
        (0x07, Some(9)),
        (0x10, Some(9)),
    ];
    for (mark, expected) in accepted {
        for digit in 0..=9u64 {
            assert_eq!(
                check_blz(mark, 48_151_620 + digit).is_ok(),
                expected == Some(digit)
            );
        }
    }
    // The digit that completes 100000000 tells the patterns of length 6, 8 and 9 apart.
    assert_eq!(check_blz(0x02, 1_000_000_009), Ok(()));
    assert_eq!(check_blz(0x04, 1_000_000_007), Ok(()));
    assert_eq!(check_blz(0x06, 1_000_000_007), Ok(()));
    assert_eq!(check_blz(0x07, 1_000_000_001), Ok(()));
    assert_eq!(check_blz(0x10, 1_000_000_001), Ok(()));
    assert_eq!(check_blz(0x01, 1_000_000_009), Ok(()));
    assert_eq!(check_blz(0x05, 1_000_000_009), Ok(()));
    assert_eq!(check_blz(0x01, 30_000_001), Ok(()));
    assert_eq!(check_blz(0x05, 30_000_009), Ok(()));
}

#[test]
fn each_mark_calls_its_routine() {
    let accounts = [0u64, 60, 61, 140, 9290701, 94012341, 12345008, 48_151_629, u64::MAX];
    for account in accounts {
        assert_eq!(check_blz(0x00, account), check_pattern_00(account, &[2, 1]));
        assert_eq!(check_blz(0x01, account), check_pattern_01(account, &[3, 7, 1]));
        assert_eq!(
            check_blz(0x02, account),
            check_pattern_02(account, &[2, 3, 4, 5, 6, 7, 8, 9])
        );
        assert_eq!(check_blz(0x03, account), check_pattern_01(account, &[2, 1]));
        assert_eq!(
            check_blz(0x04, account),
            check_pattern_02(account, &[2, 3, 4, 5, 6, 7])
        );
        assert_eq!(check_blz(0x05, account), check_pattern_01(account, &[7, 3, 1]));
        assert_eq!(
            check_blz(0x06, account),
            check_pattern_06(account, &[2, 3, 4, 5, 6, 7])
        );
        assert_eq!(
            check_blz(0x07, account),
            check_pattern_02(account, &[2, 3, 4, 5, 6, 7, 8, 9, 10])
        );
        assert_eq!(
            check_blz(0x10, account),
            check_pattern_06(account, &[2, 3, 4, 5, 6, 7, 8, 9, 10])
        );
    }
}

#[test]
fn all_zero_account_numbers_under_modulus_10() {
    for mark in [0x00u8, 0x01, 0x03, 0x05, 0x08, 0x09] {
        assert_eq!(check_blz(mark, 0), Ok(()));
    }
}

#[test]
fn all_zero_account_numbers_under_modulus_11() {
    // The sum 0 asks for 11, which no check digit is.
    for mark in [0x02u8, 0x04, 0x06, 0x07, 0x10] {
        assert_eq!(check_blz(mark, 0), INVALID);
    }
}

#[test]
fn one_leading_digit_and_zeros_round_trip() {
    // 1000000 followed by the digit that each mark derives from it.
    assert_eq!(check_blz(0x00, 10_000_008), Ok(()));
    assert_eq!(check_blz(0x01, 10_000_007), Ok(()));
    assert_eq!(check_blz(0x02, 10_000_003), Ok(()));
    assert_eq!(check_blz(0x03, 10_000_008), Ok(()));
    assert_eq!(check_blz(0x04, 10_000_009), Ok(()));
    assert_eq!(check_blz(0x05, 10_000_003), Ok(()));
    assert_eq!(check_blz(0x06, 10_000_009), Ok(()));
    assert_eq!(check_blz(0x07, 10_000_003), Ok(()));
    assert_eq!(check_blz(0x10, 10_000_003), Ok(()));
    // And with any other digit it is turned down.
    assert_eq!(check_blz(0x00, 10_000_007), INVALID);
    assert_eq!(check_blz(0x01, 10_000_008), INVALID);
    assert_eq!(check_blz(0x02, 10_000_004), INVALID);
    assert_eq!(check_blz(0x03, 10_000_009), INVALID);
    assert_eq!(check_blz(0x04, 10_000_000), INVALID);
    assert_eq!(check_blz(0x05, 10_000_004), INVALID);
    assert_eq!(check_blz(0x06, 10_000_000), INVALID);
    assert_eq!(check_blz(0x07, 10_000_002), INVALID);
    assert_eq!(check_blz(0x10, 10_000_002), INVALID);
}

#[test]
fn marks_of_routine_02_cannot_use_a_computed_ten() {
    for mark in [0x02u8, 0x04, 0x07] {
        for digit in 0..=9u64 {
            assert_eq!(check_blz(mark, 60 + digit), NOT_USABLE);
        }
    }
}

#[test]
fn marks_of_routine_06_take_zero_for_a_computed_ten() {
    for mark in [0x06u8, 0x10] {
        assert_eq!(check_blz(mark, 60), Ok(()));
        for digit in 1..=9u64 {
            assert_eq!(check_blz(mark, 60 + digit), INVALID);
        }
    }
}

#[test]
fn mark_08_accepts_from_the_threshold_on() {
    assert_eq!(check_blz(0x08, 60000), Ok(()));
    assert_eq!(check_blz(0x08, 60001), Ok(()));
    assert_eq!(check_blz(0x08, 9290702), Ok(()));
    assert_eq!(check_blz(0x08, u64::MAX), Ok(()));
    // Mark 00 turns the same numbers down.
    assert_eq!(check_blz(0x00, 60000), INVALID);
    assert_eq!(check_blz(0x00, 60001), INVALID);
    assert_eq!(check_blz(0x00, 9290702), INVALID);
}

#[test]
fn mark_08_checks_below_the_threshold() {
    assert_eq!(check_blz(0x08, 59999), INVALID);
    assert_eq!(check_blz(0x08, 59998), Ok(()));
    assert_eq!(check_blz(0x08, 19), INVALID);
    assert_eq!(check_blz(0x08, 18), Ok(()));
    assert_eq!(check_blz(0x08, 0), Ok(()));
    for account in 59_900..60_000u64 {
        assert_eq!(check_blz(0x08, account), check_pattern_00(account, &[2, 1]));
        assert_eq!(check_blz(0x08, account), check_blz(0x00, account));
    }
}

#[test]
fn mark_09_accepts_everything() {
    for account in [0u64, 1, 9, 10, 60, 59999, 60000, 9290702, u64::MAX] {
        assert_eq!(check_blz(0x09, account), Ok(()));
    }
}

#[test]
fn unassigned_marks_are_unknown() {
    for mark in (0x0Au8..=0x0F).chain(0x12..=0xFF) {
        assert_eq!(check_blz(mark, 9290701), UNKNOWN);
        assert_eq!(check_blz(mark, 0), UNKNOWN);
        assert_eq!(check_blz(mark, u64::MAX), UNKNOWN);
    }
}

#[test]
fn assigned_marks_are_never_unknown() {
    for mark in (0x00u8..=0x09).chain(0x10..=0x10) {
        for account in [0u64, 60, 9290701, 94012341, u64::MAX] {
            assert_ne!(check_blz(mark, account), UNKNOWN);
        }
    }
}

#[test]
fn the_named_marks_and_limits() {
    assert_eq!(PENDING_MARK, 0x11);
    assert_eq!(MARK_08_THRESHOLD, 60000);
    assert_eq!(check_blz(0x08, MARK_08_THRESHOLD), Ok(()));
    assert_eq!(check_blz(0x08, MARK_08_THRESHOLD - 1), INVALID);
}
