//! The failure codes of the ledger.

use vstd::prelude::*;

verus! {

/// Why an operation was rejected. Every error is fatal to the operation that
/// raised it: nothing the operation staged is committed.
#[derive(Clone, Copy, Debug, PartialEq, Eq, Structural)]
pub enum MangoError {
    /// A zero amount, or wire data that does not decode.
    InvalidInput,
    /// Every slot of the account is taken by another token.
    PositionLimitExceeded,
    /// An active position has no bank among the health inputs.
    MissingBank,
    /// The bank of an active position came without a usable price.
    MissingOracle,
    /// A checked fixed-point operation left the representable range.
    ArithmeticOverflow,
    /// The account's health after the operation would be negative.
    InsufficientHealth,
    /// The account is flagged bankrupt.
    Bankrupt,
}

impl MangoError {
    /// The number under which the host reports this error.
    pub open spec fn spec_code(self) -> u32 {
        match self {
            MangoError::InvalidInput => 0,
            MangoError::PositionLimitExceeded => 1,
            MangoError::MissingBank => 2,
            MangoError::MissingOracle => 3,
            MangoError::ArithmeticOverflow => 4,
            MangoError::InsufficientHealth => 5,
            MangoError::Bankrupt => 6,
        }
    }

    #[verifier::when_used_as_spec(spec_code)]
    pub fn code(self) -> (c: u32)
        ensures
            c == self.spec_code(),
    {
        match self {
            MangoError::InvalidInput => 0,
            MangoError::PositionLimitExceeded => 1,
            MangoError::MissingBank => 2,
            MangoError::MissingOracle => 3,
            MangoError::ArithmeticOverflow => 4,
            MangoError::InsufficientHealth => 5,
            MangoError::Bankrupt => 6,
        }
    }
}

} // verus!
