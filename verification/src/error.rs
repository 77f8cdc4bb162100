//! Error taxonomy of the sale core. Every validation failure aborts the
//! request before any mutation or transfer is issued.

use vstd::prelude::*;

verus! {

/// Everything that can go wrong while handling a request. Each operation's
/// contract states exactly on which inputs each variant is returned.
#[derive(Clone, Copy, Debug, PartialEq, Eq, Structural)]
pub enum TokensellError {
    UnknownInstruction,
    TokenTransferFailed,
    NotRentExempt,
    InvalidUSDTTargetAccount,
    InvalidAccount,
    InvalidOwner,
    NoTokensInVault,
    WrongMint,
    Overflow,
    NothingToClaim,
    AccountInitialized,
    SellNotStarted,
    SellEnded,
    InvalidEndTimestamp,
    SignatureRequired,
    MinimalDeposit,
    SizeMismatch,
    DeserializationFailed,
}

impl TokensellError {
    /// The numeric code a host ledger reports for this error.
    pub fn code(&self) -> (r: u32)
        ensures
            r == self.spec_code(),
    {
        match self {
            TokensellError::UnknownInstruction => 0,
            TokensellError::TokenTransferFailed => 1,
            TokensellError::NotRentExempt => 2,
            TokensellError::InvalidUSDTTargetAccount => 3,
            TokensellError::InvalidAccount => 4,
            TokensellError::InvalidOwner => 5,
            TokensellError::NoTokensInVault => 6,
            TokensellError::WrongMint => 7,
            TokensellError::Overflow => 8,
            TokensellError::NothingToClaim => 9,
            TokensellError::AccountInitialized => 10,
            TokensellError::SellNotStarted => 11,
            TokensellError::SellEnded => 12,
            TokensellError::InvalidEndTimestamp => 13,
            TokensellError::SignatureRequired => 14,
            TokensellError::MinimalDeposit => 15,
            TokensellError::SizeMismatch => 16,
            TokensellError::DeserializationFailed => 17,
        }
    }

    pub open spec fn spec_code(&self) -> u32 {
        match self {
            TokensellError::UnknownInstruction => 0,
            TokensellError::TokenTransferFailed => 1,
            TokensellError::NotRentExempt => 2,
            TokensellError::InvalidUSDTTargetAccount => 3,
            TokensellError::InvalidAccount => 4,
            TokensellError::InvalidOwner => 5,
            TokensellError::NoTokensInVault => 6,
            TokensellError::WrongMint => 7,
            TokensellError::Overflow => 8,
            TokensellError::NothingToClaim => 9,
            TokensellError::AccountInitialized => 10,
            TokensellError::SellNotStarted => 11,
            TokensellError::SellEnded => 12,
            TokensellError::InvalidEndTimestamp => 13,
            TokensellError::SignatureRequired => 14,
            TokensellError::MinimalDeposit => 15,
            TokensellError::SizeMismatch => 16,
            TokensellError::DeserializationFailed => 17,
        }
    }
}

} // verus!
