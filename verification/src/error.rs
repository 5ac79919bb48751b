//! The reasons for which an account number is turned down.

use vstd::prelude::*;

verus! {

/// What every check in this crate returns: `Ok(())` for an account number
/// whose check digit is consistent, otherwise the reason why it is not.
pub type KontonummerResult<T> = Result<T, KontonummerError>;

/// Why an account number was not accepted.
#[derive(Debug, Copy, Clone, PartialEq, Eq, Structural)]
pub enum KontonummerError {
    /// No method is registered for the mark that was given.
    UnknownMark,
    /// The check digit of the account number differs from the computed one.
    InvalidChecksum,
    /// The computed value is one that the method cannot use as a check
    /// digit, so no check digit can be confirmed for these leading digits.
    CalculatedChecksumNotUsable,
}

impl KontonummerError {
    /// The stable numeric code of an error: 1 for an unknown mark, 2 for a
    /// check digit that does not match, 3 for a computed digit that the
    /// method cannot use.
    pub open spec fn code(self) -> usize {
        match self {
            KontonummerError::UnknownMark => 1,
            KontonummerError::InvalidChecksum => 2,
            KontonummerError::CalculatedChecksumNotUsable => 3,
        }
    }
}

impl Into<usize> for KontonummerError {
    /// Converts the error into its numeric code, `self.code()`.
    fn into(self) -> (code: usize) {
        match self {
            KontonummerError::UnknownMark => 0x01,
            KontonummerError::InvalidChecksum => 0x02,
            KontonummerError::CalculatedChecksumNotUsable => 0x03,
        }
    }
}

/// What `into` returns, for contracts: the error's code.
impl vstd::std_specs::convert::IntoSpecImpl<usize> for KontonummerError {
    open spec fn obeys_into_spec() -> bool {
        true
    }

    open spec fn into_spec(self) -> usize {
        self.code()
    }
}

} // verus!
