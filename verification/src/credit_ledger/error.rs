use vstd::prelude::*;

verus! {

/// Refusals of the credit ledger. Each has a stable number (see `code`) so an
/// off-chain service can map it to a response.
#[derive(Clone, Copy, Debug, PartialEq, Eq, Structural)]
pub enum Error {
    NotInitialized,
    AlreadyInitialized,
    NotAuthorized,
    PartyNotApproved,
    /// A framework with this id already exists.
    FrameworkExists,
    /// The referenced framework does not exist or is not active.
    FrameworkNotActive,
    /// The position's owner/custodian, or the pledging bank, is not the party
    /// named in the control framework.
    FrameworkPartyMismatch,
    PositionNotFound,
    PositionExists,
    PositionNotFree,
    AttestationStale,
    /// A pledge was attempted on a position the custodian has not confirmed
    /// and immobilized.
    PositionNotEarmarked,
    /// The custodian tried to immobilize a position the owner has not selected.
    PositionNotSelected,
    /// The custodian tried to confirm release of a position not awaiting it.
    PositionNotReleasePending,
    /// These exact bar serials are already held by another live position.
    BarSetAlreadyActive,
    PledgeNotFound,
    PledgeNotActive,
    LineNotFound,
    LineNotActive,
    LimitExceedsBorrowingBase,
    InsufficientCapacity,
    OutstandingBalance,
    /// The rule is 0 < ltv_bps < maintenance_bps <= 10000, and every risk
    /// product must fit in an i128.
    InvalidRiskParams,
    DuplicateAuthRef,
    AmountNotPositive,
    /// A repayment with this payment reference was already applied.
    DuplicatePaymentRef,
    /// An adjustment with this id already exists.
    AdjustmentExists,
    /// The adjustment is not in the status this step requires.
    AdjustmentWrongStatus,
    /// The proposed collateral would not cover the drawn balance at the
    /// advance rate.
    AdjustmentUndercovered,
    /// No unreversed drawdown is recorded under this authorization reference.
    NothingToReverse,
    /// A reversal must unwind exactly the amount drawn.
    ReversalAmountMismatch,
    NotDefaulted,
    CurePeriodNotExpired,
    AlreadyEnforced,
    /// A default notice must grant a cure window ending after the current ledger.
    CureDeadlineNotFuture,
    /// The submitted price is older than the allowed freshness window.
    PriceStale,
    /// The submitted price's confidence band is wider than the allowed tolerance.
    PriceConfidenceTooWide,
    /// The submitted price or confidence was not a positive value.
    PriceNotPositive,
    /// No enforcement-readiness record exists for this line.
    ReadinessNotFound,
    /// The readiness record is not in a state that permits this transition.
    ReadinessWrongStatus,
    /// The bank-resume was asked of a line that is not under a bank stop.
    LineNotSuspended,
    /// A credit line with this id already exists.
    LineExists,
    /// This pledge already has a bound credit line.
    PledgeAlreadyHasLine,
    /// The repayment exceeds the outstanding drawn balance.
    RepaymentExceedsOutstandingBalance,
    /// The oracle price timestamp is later than the current ledger timestamp.
    PriceFromFuture,
    /// Revaluation thresholds or freshness parameters are malformed.
    InvalidRevaluationParams,
    /// A legally critical evidence/document hash is all-zero.
    InvalidDocumentHash,
    /// Readiness cannot be promoted because its validity window has passed.
    ReadinessExpired,
    /// A pledge with this id already exists.
    PledgeExists,
}

pub open spec fn error_code(e: Error) -> u32 {
    match e {
        Error::NotInitialized => 1,
        Error::AlreadyInitialized => 2,
        Error::NotAuthorized => 3,
        Error::PartyNotApproved => 4,
        Error::FrameworkExists => 5,
        Error::FrameworkNotActive => 6,
        Error::FrameworkPartyMismatch => 7,
        Error::PositionNotFound => 10,
        Error::PositionExists => 11,
        Error::PositionNotFree => 12,
        Error::AttestationStale => 13,
        Error::PositionNotEarmarked => 14,
        Error::PositionNotSelected => 15,
        Error::PositionNotReleasePending => 16,
        Error::BarSetAlreadyActive => 17,
        Error::PledgeNotFound => 20,
        Error::PledgeNotActive => 21,
        Error::LineNotFound => 30,
        Error::LineNotActive => 31,
        Error::LimitExceedsBorrowingBase => 32,
        Error::InsufficientCapacity => 33,
        Error::OutstandingBalance => 34,
        Error::InvalidRiskParams => 35,
        Error::DuplicateAuthRef => 40,
        Error::AmountNotPositive => 41,
        Error::DuplicatePaymentRef => 42,
        Error::AdjustmentExists => 43,
        Error::AdjustmentWrongStatus => 44,
        Error::AdjustmentUndercovered => 45,
        Error::NothingToReverse => 46,
        Error::ReversalAmountMismatch => 47,
        Error::NotDefaulted => 50,
        Error::CurePeriodNotExpired => 51,
        Error::AlreadyEnforced => 52,
        Error::CureDeadlineNotFuture => 53,
        Error::PriceStale => 60,
        Error::PriceConfidenceTooWide => 61,
        Error::PriceNotPositive => 62,
        Error::ReadinessNotFound => 70,
        Error::ReadinessWrongStatus => 71,
        Error::LineNotSuspended => 72,
        Error::LineExists => 73,
        Error::PledgeAlreadyHasLine => 74,
        Error::RepaymentExceedsOutstandingBalance => 75,
        Error::PriceFromFuture => 76,
        Error::InvalidRevaluationParams => 77,
        Error::InvalidDocumentHash => 78,
        Error::ReadinessExpired => 79,
        Error::PledgeExists => 80,
    }
}

impl Error {
    /// The stable number of this refusal.
    pub fn code(&self) -> (r: u32)
        ensures
            r == error_code(*self),
    {
        match self {
            Error::NotInitialized => 1,
            Error::AlreadyInitialized => 2,
            Error::NotAuthorized => 3,
            Error::PartyNotApproved => 4,
            Error::FrameworkExists => 5,
            Error::FrameworkNotActive => 6,
            Error::FrameworkPartyMismatch => 7,
            Error::PositionNotFound => 10,
            Error::PositionExists => 11,
            Error::PositionNotFree => 12,
            Error::AttestationStale => 13,
            Error::PositionNotEarmarked => 14,
            Error::PositionNotSelected => 15,
            Error::PositionNotReleasePending => 16,
            Error::BarSetAlreadyActive => 17,
            Error::PledgeNotFound => 20,
            Error::PledgeNotActive => 21,
            Error::LineNotFound => 30,
            Error::LineNotActive => 31,
            Error::LimitExceedsBorrowingBase => 32,
            Error::InsufficientCapacity => 33,
            Error::OutstandingBalance => 34,
            Error::InvalidRiskParams => 35,
            Error::DuplicateAuthRef => 40,
            Error::AmountNotPositive => 41,
            Error::DuplicatePaymentRef => 42,
            Error::AdjustmentExists => 43,
            Error::AdjustmentWrongStatus => 44,
            Error::AdjustmentUndercovered => 45,
            Error::NothingToReverse => 46,
            Error::ReversalAmountMismatch => 47,
            Error::NotDefaulted => 50,
            Error::CurePeriodNotExpired => 51,
            Error::AlreadyEnforced => 52,
            Error::CureDeadlineNotFuture => 53,
            Error::PriceStale => 60,
            Error::PriceConfidenceTooWide => 61,
            Error::PriceNotPositive => 62,
            Error::ReadinessNotFound => 70,
            Error::ReadinessWrongStatus => 71,
            Error::LineNotSuspended => 72,
            Error::LineExists => 73,
            Error::PledgeAlreadyHasLine => 74,
            Error::RepaymentExceedsOutstandingBalance => 75,
            Error::PriceFromFuture => 76,
            Error::InvalidRevaluationParams => 77,
            Error::InvalidDocumentHash => 78,
            Error::ReadinessExpired => 79,
            Error::PledgeExists => 80,
        }
    }
}

} // verus!
