//! Error codes of the bounty-escrow contract.
//!
//! The numeric code of each error is part of the contract's interface:
//! clients match on it, so codes never change. Code 15 is a retired code
//! that no error may ever take again.
use vstd::prelude::*;

verus! {

/// Errors returned by the bounty-escrow contract.
#[derive(Clone, Copy, Debug, PartialEq, Eq, Structural)]
pub enum Error {
    /// The contract was initialised already.
    AlreadyInitialized,
    /// The contract was not initialised.
    NotInitialized,
    /// A bounty with that id exists already.
    BountyExists,
    /// No bounty has that id.
    BountyNotFound,
    /// The bounty's funds are not locked.
    FundsNotLocked,
    /// The bounty's deadline has not passed.
    DeadlineNotPassed,
    /// The caller may not perform the operation.
    Unauthorized,
    /// The fee rate is out of range.
    InvalidFeeRate,
    /// Fees are enabled without a recipient.
    FeeRecipientNotSet,
    /// The batch is empty or too large.
    InvalidBatchSize,
    /// Batch inputs have different lengths.
    BatchSizeMismatch,
    /// A batch names the same bounty twice.
    DuplicateBountyId,
    /// The amount is not positive or exceeds what is held.
    InvalidAmount,
    /// The deadline is in the past.
    InvalidDeadline,
    /// The escrow holds too little for the payout.
    InsufficientFunds,
    /// The refund lacks the required approval.
    RefundNotApproved,
    /// The operation is paused.
    FundsPaused,
    /// The amount is below the configured minimum.
    AmountBelowMinimum,
    /// The amount is above the configured maximum.
    AmountAboveMaximum,
    /// The circuit breaker is open.
    CircuitBreakerOpen,
    /// The claim window has passed.
    ClaimExpired,
    /// The governance contract's version is too old.
    GovernanceVersionTooLow,
    /// A claim is pending for the bounty.
    PendingClaimExists,
}

/// The stable numeric code of `e`.
pub open spec fn error_code(e: Error) -> u32 {
    match e {
        Error::AlreadyInitialized => 1,
        Error::NotInitialized => 2,
        Error::BountyExists => 3,
        Error::BountyNotFound => 4,
        Error::FundsNotLocked => 5,
        Error::DeadlineNotPassed => 6,
        Error::Unauthorized => 7,
        Error::InvalidFeeRate => 8,
        Error::FeeRecipientNotSet => 9,
        Error::InvalidBatchSize => 10,
        Error::BatchSizeMismatch => 11,
        Error::DuplicateBountyId => 12,
        Error::InvalidAmount => 13,
        Error::InvalidDeadline => 14,
        Error::InsufficientFunds => 16,
        Error::RefundNotApproved => 17,
        Error::FundsPaused => 18,
        Error::AmountBelowMinimum => 19,
        Error::AmountAboveMaximum => 20,
        Error::CircuitBreakerOpen => 21,
        Error::ClaimExpired => 22,
        Error::GovernanceVersionTooLow => 23,
        Error::PendingClaimExists => 24,
    }
}

impl Error {
    /// The stable numeric code of this error.
    pub fn code(&self) -> (code: u32)
        ensures
            code == error_code(*self),
    {
        match self {
            Error::AlreadyInitialized => 1,
            Error::NotInitialized => 2,
            Error::BountyExists => 3,
            Error::BountyNotFound => 4,
            Error::FundsNotLocked => 5,
            Error::DeadlineNotPassed => 6,
            Error::Unauthorized => 7,
            Error::InvalidFeeRate => 8,
            Error::FeeRecipientNotSet => 9,
            Error::InvalidBatchSize => 10,
            Error::BatchSizeMismatch => 11,
            Error::DuplicateBountyId => 12,
            Error::InvalidAmount => 13,
            Error::InvalidDeadline => 14,
            Error::InsufficientFunds => 16,
            Error::RefundNotApproved => 17,
            Error::FundsPaused => 18,
            Error::AmountBelowMinimum => 19,
            Error::AmountAboveMaximum => 20,
            Error::CircuitBreakerOpen => 21,
            Error::ClaimExpired => 22,
            Error::GovernanceVersionTooLow => 23,
            Error::PendingClaimExists => 24,
        }
    }

    /// The error with numeric code `code`, if there is one.
    pub fn from_code(code: u32) -> (error: Option<Error>)
        ensures
            error matches Some(e) ==> error_code(e) == code,
            error is None ==> forall|e: Error| error_code(e) != code,
    {
        match code {
            1 => Some(Error::AlreadyInitialized),
            2 => Some(Error::NotInitialized),
            3 => Some(Error::BountyExists),
            4 => Some(Error::BountyNotFound),
            5 => Some(Error::FundsNotLocked),
            6 => Some(Error::DeadlineNotPassed),
            7 => Some(Error::Unauthorized),
            8 => Some(Error::InvalidFeeRate),
            9 => Some(Error::FeeRecipientNotSet),
            10 => Some(Error::InvalidBatchSize),
            11 => Some(Error::BatchSizeMismatch),
            12 => Some(Error::DuplicateBountyId),
            13 => Some(Error::InvalidAmount),
            14 => Some(Error::InvalidDeadline),
            16 => Some(Error::InsufficientFunds),
            17 => Some(Error::RefundNotApproved),
            18 => Some(Error::FundsPaused),
            19 => Some(Error::AmountBelowMinimum),
            20 => Some(Error::AmountAboveMaximum),
            21 => Some(Error::CircuitBreakerOpen),
            22 => Some(Error::ClaimExpired),
            23 => Some(Error::GovernanceVersionTooLow),
            24 => Some(Error::PendingClaimExists),
            _ => None,
        }
    }
}

/// Distinct errors have distinct codes, every code lies between 1 and 24,
/// and no error has the retired code 15.
pub proof fn law_codes_are_stable(a: Error, b: Error)
    ensures
        error_code(a) == error_code(b) ==> a == b,
        error_code(a) != 15,
        1 <= error_code(a) <= 24,
{
}

} // verus!
