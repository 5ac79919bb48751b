//! Check-digit validation for German bank account numbers.
//!
//! A bank names by a one-byte mark the method that validates its account
//! numbers. `check_blz` takes a mark and an account number and says whether
//! the check digit of the account number, its lowest digit, is the one
//! that the method derives from the digits above it.

pub mod digits;
pub mod dispatch;
pub mod error;
pub mod routines;
pub mod weights;

pub use digits::simple_checksum;
pub use dispatch::{check_blz, MARK_08_THRESHOLD, PENDING_MARK};
pub use error::{KontonummerError, KontonummerResult};
pub use routines::{check_pattern_00, check_pattern_01, check_pattern_02, check_pattern_06};
