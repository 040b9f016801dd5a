use vstd::prelude::*;

verus! {

/// Refusals of the rewards ledger, each with a stable number (see `code`).
#[derive(Clone, Copy, Debug, PartialEq, Eq, Structural)]
pub enum Error {
    AlreadyInitialized,
    NotInitialized,
    NotAuthorized,
    PartyNotApproved,
    CampaignExists,
    CampaignNotFound,
    CampaignNotActive,
    CampaignNotInWindow,
    InvalidAmount,
    InvalidRate,
    InvalidWindow,
    BudgetInsufficient,
    UserCapExceeded,
    SpendExists,
    SpendNotFound,
    AccrualNotFound,
    InvalidStatus,
    PolicyMismatch,
    Expired,
    NotExpired,
    ClaimExists,
    VoucherExists,
    RedemptionExists,
    AmountMismatch,
    ClaimNotFound,
    VoucherNotFound,
    RedemptionNotFound,
    /// The gold price supplied at redemption was not positive.
    PriceNotPositive,
    /// An arithmetic operation overflowed i128.
    MathOverflow,
    /// A market-critical evidence or policy hash is all-zero.
    InvalidEvidenceHash,
}

pub open spec fn error_code(e: Error) -> u32 {
    match e {
        Error::AlreadyInitialized => 1,
        Error::NotInitialized => 2,
        Error::NotAuthorized => 3,
        Error::PartyNotApproved => 4,
        Error::CampaignExists => 5,
        Error::CampaignNotFound => 6,
        Error::CampaignNotActive => 7,
        Error::CampaignNotInWindow => 8,
        Error::InvalidAmount => 9,
        Error::InvalidRate => 10,
        Error::InvalidWindow => 11,
        Error::BudgetInsufficient => 12,
        Error::UserCapExceeded => 13,
        Error::SpendExists => 14,
        Error::SpendNotFound => 15,
        Error::AccrualNotFound => 16,
        Error::InvalidStatus => 17,
        Error::PolicyMismatch => 18,
        Error::Expired => 19,
        Error::NotExpired => 20,
        Error::ClaimExists => 21,
        Error::VoucherExists => 22,
        Error::RedemptionExists => 23,
        Error::AmountMismatch => 24,
        Error::ClaimNotFound => 25,
        Error::VoucherNotFound => 26,
        Error::RedemptionNotFound => 27,
        Error::PriceNotPositive => 28,
        Error::MathOverflow => 29,
        Error::InvalidEvidenceHash => 30,
    }
}

impl Error {
    /// The stable number of this refusal.
    pub fn code(&self) -> (r: u32)
        ensures
            r == error_code(*self),
    {
        match self {
            Error::AlreadyInitialized => 1,
            Error::NotInitialized => 2,
            Error::NotAuthorized => 3,
            Error::PartyNotApproved => 4,
            Error::CampaignExists => 5,
            Error::CampaignNotFound => 6,
            Error::CampaignNotActive => 7,
            Error::CampaignNotInWindow => 8,
            Error::InvalidAmount => 9,
            Error::InvalidRate => 10,
            Error::InvalidWindow => 11,
            Error::BudgetInsufficient => 12,
            Error::UserCapExceeded => 13,
            Error::SpendExists => 14,
            Error::SpendNotFound => 15,
            Error::AccrualNotFound => 16,
            Error::InvalidStatus => 17,
            Error::PolicyMismatch => 18,
            Error::Expired => 19,
            Error::NotExpired => 20,
            Error::ClaimExists => 21,
            Error::VoucherExists => 22,
            Error::RedemptionExists => 23,
            Error::AmountMismatch => 24,
            Error::ClaimNotFound => 25,
            Error::VoucherNotFound => 26,
            Error::RedemptionNotFound => 27,
            Error::PriceNotPositive => 28,
            Error::MathOverflow => 29,
            Error::InvalidEvidenceHash => 30,
        }
    }
}

} // verus!
