use vstd::prelude::*;

use crate::primitives::{Address, Bytes32};

verus! {

/// Operational roles: who may write which market-relevant state.
///
/// Sponsor funds campaigns and decides claims; Verifier records finally
/// posted eligible spend; GoldPartner confirms redemption into bullion; Bank
/// may claw back rewards; Processor is reserved.
#[derive(Clone, Copy, Debug, PartialEq, Eq, Structural)]
pub enum Role {
    Admin,
    Sponsor,
    Verifier,
    GoldPartner,
    Processor,
    Bank,
}

#[derive(Clone, Copy, Debug, PartialEq, Eq, Structural)]
pub enum CampaignStatus {
    Active,
    Paused,
    Closed,
}

/// A sponsor-funded reward campaign. Its budget is split into running
/// buckets: `reserved` is owed but not yet redeemed, `redeemed` is settled to
/// gold, `cancelled` and `expired` were released back to the budget.
#[derive(Clone, Copy, Debug, PartialEq, Eq, Structural)]
pub struct RewardCampaign {
    pub sponsor: Address,
    pub verifier: Address,
    pub gold_partner: Address,
    /// reward rate in basis points: 50 = 0.50%
    pub reward_rate_bps: u32,
    /// maximum eligible spend per user
    pub user_spend_cap: i128,
    pub total_budget: i128,
    pub reserved_reward_value: i128,
    pub redeemed_reward_value: i128,
    pub cancelled_reward_value: i128,
    pub expired_reward_value: i128,
    /// total fine gold allocated across the campaign, troy oz * 1e7
    pub redeemed_fine_weight_oz_e7: i128,
    pub currency_code: u32,
    pub start_ledger: u32,
    pub end_ledger: u32,
    /// claim window after spend finality, in ledgers
    pub claim_window_ledgers: u32,
    pub eligible_mcc_policy_hash: Bytes32,
    pub redemption_terms_hash: Bytes32,
    pub sponsor_product_scope_hash: Bytes32,
    pub funding_commitment_hash: Bytes32,
    pub status: CampaignStatus,
}

#[derive(Clone, Copy, Debug, PartialEq, Eq, Structural)]
pub enum SpendStatus {
    Recorded,
    Final,
    Cancelled,
}

/// A posted card transaction the verifier says is eligible.
#[derive(Clone, Copy, Debug, PartialEq, Eq, Structural)]
pub struct EligibleSpend {
    pub campaign_id: Bytes32,
    pub card_line_hash: Bytes32,
    pub user: Address,
    pub verifier: Address,
    pub spend_ref_hash: Bytes32,
    pub amount: i128,
    pub eligible_amount: i128,
    pub currency_code: u32,
    pub category_policy_hash: Bytes32,
    pub posted_at_ledger: u32,
    pub finality_hash: Bytes32,
    pub status: SpendStatus,
}

#[derive(Clone, Copy, Debug, PartialEq, Eq, Structural)]
pub enum RewardStatus {
    Pending,
    Claimable,
    ClaimSubmitted,
    VoucherIssued,
    Redeemed,
    Cancelled,
    Expired,
    Rejected,
}

#[derive(Clone, Copy, Debug, PartialEq, Eq, Structural)]
pub struct RewardAccrual {
    pub campaign_id: Bytes32,
    pub user: Address,
    pub spend_ref_hash: Bytes32,
    pub eligible_spend_amount: i128,
    pub reward_value: i128,
    pub currency_code: u32,
    pub accrued_at_ledger: u32,
    pub claimable_at_ledger: u32,
    pub claim_expiry_ledger: u32,
    pub status: RewardStatus,
}

/// Per-(campaign, user) running totals, including the fine gold redeemed.
#[derive(Clone, Copy, Debug, PartialEq, Eq, Structural)]
pub struct UserCampaignUsage {
    pub eligible_spend_total: i128,
    pub reward_value_total: i128,
    /// fine gold redeemed by this user in this campaign, troy oz * 1e7
    pub fine_weight_oz_e7_total: i128,
}

#[derive(Clone, Copy, Debug, PartialEq, Eq, Structural)]
pub enum ClaimStatus {
    Submitted,
    Approved,
    Rejected,
}

/// A one-time user claim supported by receipt evidence.
#[derive(Clone, Copy, Debug, PartialEq, Eq, Structural)]
pub struct RewardClaim {
    pub campaign_id: Bytes32,
    pub user: Address,
    pub spend_ref_hash: Bytes32,
    pub receipt_bundle_hash: Bytes32,
    pub submitted_at_ledger: u32,
    pub sponsor_response_hash: Bytes32,
    pub status: ClaimStatus,
}

#[derive(Clone, Copy, Debug, PartialEq, Eq, Structural)]
pub struct VoucherRecord {
    pub campaign_id: Bytes32,
    pub user: Address,
    pub spend_ref_hash: Bytes32,
    pub voucher_hash: Bytes32,
    pub reward_value: i128,
    pub issued_at_ledger: u32,
    pub expiry_ledger: u32,
}

/// The proof that the gold partner allocated bullion against a voucher,
/// carrying the price used and the resulting fine weight.
#[derive(Clone, Copy, Debug, PartialEq, Eq, Structural)]
pub struct RedemptionRecord {
    pub campaign_id: Bytes32,
    pub user: Address,
    pub spend_ref_hash: Bytes32,
    pub order_hash: Bytes32,
    pub product_hash: Bytes32,
    pub redeemed_value: i128,
    /// gold price per troy ounce used for conversion, program units * 1e7
    pub price_per_oz_e7: i128,
    /// resulting fine gold weight, troy oz * 1e7
    pub fine_weight_oz_e7: i128,
    pub custody_receipt_hash: Bytes32,
    pub redeemed_at_ledger: u32,
}

/// The economics, window and policy hashes of a new campaign.
#[derive(Clone, Copy, Debug, PartialEq, Eq, Structural)]
pub struct CampaignConfig {
    pub reward_rate_bps: u32,
    pub user_spend_cap: i128,
    pub total_budget: i128,
    pub currency_code: u32,
    pub start_ledger: u32,
    pub end_ledger: u32,
    pub claim_window_ledgers: u32,
    pub eligible_mcc_policy_hash: Bytes32,
    pub redemption_terms_hash: Bytes32,
    pub sponsor_product_scope_hash: Bytes32,
    pub funding_commitment_hash: Bytes32,
}

/// The posted card transaction and spend amount being recorded.
#[derive(Clone, Copy, Debug, PartialEq, Eq, Structural)]
pub struct SpendInput {
    pub spend_ref_hash: Bytes32,
    pub card_line_hash: Bytes32,
    pub amount: i128,
    pub currency_code: u32,
    pub category_policy_hash: Bytes32,
    pub posted_at_ledger: u32,
}

/// A role granted to a party: the key of the approval registry.
#[derive(Clone, Copy, Debug, PartialEq, Eq, Structural)]
pub struct Grant {
    pub party: Address,
    pub role: Role,
}

/// The key of a user's running totals within a campaign.
#[derive(Clone, Copy, Debug, PartialEq, Eq, Structural)]
pub struct UsageKey {
    pub campaign_id: Bytes32,
    pub user: Address,
}

} // verus!
