//! What each rewards-ledger operation guarantees when it is accepted, stated
//! directly over its inputs and the records before and after: the campaign
//! policy a spend must meet and the reward it earns, the claim window, and
//! what a settlement, a cancellation or an expiry does to the buckets.
use vstd::prelude::*;

use crate::primitives::{Address, Bytes32};
use super::state::campaigns::{step_create_campaign, MAX_RATE_BPS};
use super::state::claims::{
    step_confirm_redemption, step_expire_reward, step_sponsor_approve_claim, step_sponsor_reject_claim,
    step_submit_claim,
};
use super::state::spend::{
    lemma_reward_le_eligible, step_cancel_reward, step_confirm_spend_final, step_record_eligible_spend,
};
use super::error::Error;
use super::state::RewardsState;
use super::types::{
    CampaignConfig, CampaignStatus, ClaimStatus, RewardStatus, Role, SpendInput, SpendStatus, UsageKey,
};

verus! {

/// The eligible part of a spend: the amount, capped at what is left of the
/// user's spend cap in the campaign.
pub open spec fn capped(amount: i128, cap_left: int) -> int {
    if amount > cap_left {
        cap_left
    } else {
        amount as int
    }
}

/// An accepted spend meets the campaign's policy: a positive amount with
/// non-zero references, an Active campaign, its own verifier, a ledger
/// within the campaign window, the campaign's currency and category policy,
/// and a fresh spend reference. The reward returned is the eligible part
/// (the amount capped at what is left of the user's cap) times the rate in
/// basis points, rounded down; it is positive and fits in the budget still
/// uncommitted. The reservation grows by exactly the reward, the user's
/// totals by the eligible part and the reward, and the recorded spend and
/// accrual carry the campaign's currency.
pub proof fn law_spend_follows_campaign_policy(
    s: RewardsState,
    campaign_id: Bytes32,
    user: Address,
    verifier: Address,
    input: SpendInput,
    ledger_sequence: u32,
)
    requires
        s.valid(),
        step_record_eligible_spend(s, campaign_id, user, verifier, input, ledger_sequence) is Ok,
    ensures
        ({
            let p = step_record_eligible_spend(s, campaign_id, user, verifier, input, ledger_sequence)->Ok_0;
            let post = p.0;
            let reward = p.1;
            let c = s.campaigns[campaign_id];
            let c1 = post.campaigns[campaign_id];
            let key = UsageKey { campaign_id, user };
            let u = s.usage_of(key);
            let eligible = capped(input.amount, c.user_spend_cap - u.eligible_spend_total);
            let spend = post.spends[input.spend_ref_hash];
            let accrual = post.accruals[input.spend_ref_hash];
            &&& input.amount > 0
            &&& !input.spend_ref_hash.spec_is_zero() && !input.card_line_hash.spec_is_zero()
            &&& !input.category_policy_hash.spec_is_zero()
            &&& c.status == CampaignStatus::Active
            &&& c.verifier == verifier
            &&& c.start_ledger <= ledger_sequence <= c.end_ledger
            &&& input.currency_code == c.currency_code
            &&& input.category_policy_hash == c.eligible_mcc_policy_hash
            &&& !s.spends.contains_key(input.spend_ref_hash)
            &&& 0 < eligible <= input.amount
            &&& reward == (eligible * c.reward_rate_bps) / 10_000
            &&& 0 < reward
            &&& c.reserved_reward_value + c.redeemed_reward_value + reward <= c.total_budget
            &&& c1.reserved_reward_value == c.reserved_reward_value + reward
            &&& c1.total_budget == c.total_budget && c1.redeemed_reward_value == c.redeemed_reward_value
            &&& post.usage[key].eligible_spend_total == u.eligible_spend_total + eligible
            &&& post.usage[key].reward_value_total == u.reward_value_total + reward
            &&& spend.currency_code == c.currency_code && accrual.currency_code == c.currency_code
            &&& spend.amount == input.amount && spend.eligible_amount == eligible
            &&& spend.user == user && spend.campaign_id == campaign_id
            &&& spend.status == SpendStatus::Recorded
            &&& accrual.reward_value == reward && accrual.eligible_spend_amount == eligible
            &&& accrual.user == user && accrual.campaign_id == campaign_id
            &&& accrual.status == RewardStatus::Pending
        }),
{
    let p = step_record_eligible_spend(s, campaign_id, user, verifier, input, ledger_sequence)->Ok_0;
    let a = p.0.accruals[input.spend_ref_hash];
    assert(s.campaigns.contains_key(campaign_id));
    lemma_reward_le_eligible(a.eligible_spend_amount, s.campaigns[campaign_id].reward_rate_bps);
}

/// An accepted campaign comes from an approved sponsor naming an approved
/// verifier and gold partner, with a rate of at most 1000 bps, a positive
/// cap and budget, a window that ends after it starts, a claim window, and
/// non-zero policy documents; it starts Active with every bucket empty.
pub proof fn law_campaign_creation_policy(
    s: RewardsState,
    campaign_id: Bytes32,
    sponsor: Address,
    verifier: Address,
    gold_partner: Address,
    cfg: CampaignConfig,
)
    requires
        s.valid(),
        step_create_campaign(s, campaign_id, sponsor, verifier, gold_partner, cfg) is Ok,
    ensures
        ({
            let c = step_create_campaign(s, campaign_id, sponsor, verifier, gold_partner, cfg)->Ok_0.0.campaigns[campaign_id];
            &&& s.approved(sponsor, Role::Sponsor) && s.approved(verifier, Role::Verifier)
            &&& s.approved(gold_partner, Role::GoldPartner)
            &&& 0 < cfg.reward_rate_bps <= MAX_RATE_BPS
            &&& cfg.user_spend_cap > 0 && cfg.total_budget > 0
            &&& cfg.start_ledger < cfg.end_ledger && cfg.claim_window_ledgers > 0
            &&& !s.campaigns.contains_key(campaign_id)
            &&& c.sponsor == sponsor && c.verifier == verifier && c.gold_partner == gold_partner
            &&& c.reward_rate_bps == cfg.reward_rate_bps && c.user_spend_cap == cfg.user_spend_cap
            &&& c.total_budget == cfg.total_budget && c.currency_code == cfg.currency_code
            &&& c.start_ledger == cfg.start_ledger && c.end_ledger == cfg.end_ledger
            &&& c.reserved_reward_value == 0 && c.redeemed_reward_value == 0
            &&& c.cancelled_reward_value == 0 && c.expired_reward_value == 0
            &&& c.status == CampaignStatus::Active
        }),
{
}

/// Finality opens the claim window: the campaign's verifier confirms a
/// Recorded spend with a Pending reward of an Active campaign; the reward
/// becomes Claimable from the current ledger until the claim window has run.
pub proof fn law_finality_opens_the_claim_window(
    s: RewardsState,
    campaign_id: Bytes32,
    spend_ref_hash: Bytes32,
    verifier: Address,
    finality_hash: Bytes32,
    ledger_sequence: u32,
)
    requires
        s.valid(),
        step_confirm_spend_final(s, campaign_id, spend_ref_hash, verifier, finality_hash, ledger_sequence) is Ok,
    ensures
        ({
            let post = step_confirm_spend_final(s, campaign_id, spend_ref_hash, verifier, finality_hash, ledger_sequence)->Ok_0.0;
            let c = s.campaigns[campaign_id];
            let a = post.accruals[spend_ref_hash];
            &&& c.verifier == verifier && c.status == CampaignStatus::Active
            &&& s.spends[spend_ref_hash].status == SpendStatus::Recorded
            &&& s.accruals[spend_ref_hash].status == RewardStatus::Pending
            &&& post.spends[spend_ref_hash].status == SpendStatus::Final
            &&& a.status == RewardStatus::Claimable
            &&& a.claimable_at_ledger == ledger_sequence
            &&& a.claim_expiry_ledger == ledger_sequence + c.claim_window_ledgers
            &&& a.reward_value == s.accruals[spend_ref_hash].reward_value
        }),
{
}

/// Claims run inside the window: the accrual's own user claims a Claimable
/// reward no later than its claim expiry; the campaign's sponsor approves a
/// submitted claim no later than the expiry, issuing a voucher worth exactly
/// the reward, or rejects it, releasing the reward from the reservation.
pub proof fn law_claims_run_inside_the_window(
    s: RewardsState,
    campaign_id: Bytes32,
    spend_ref_hash: Bytes32,
    user: Address,
    receipt_bundle_hash: Bytes32,
    sponsor: Address,
    sponsor_response_hash: Bytes32,
    voucher_hash: Bytes32,
    ledger_sequence: u32,
)
    requires
        s.valid(),
    ensures
        step_submit_claim(s, campaign_id, spend_ref_hash, user, receipt_bundle_hash, ledger_sequence) is Ok ==> {
            let a = s.accruals[spend_ref_hash];
            let post = step_submit_claim(s, campaign_id, spend_ref_hash, user, receipt_bundle_hash, ledger_sequence)->Ok_0.0;
            &&& a.user == user && a.campaign_id == campaign_id
            &&& a.status == RewardStatus::Claimable
            &&& ledger_sequence <= a.claim_expiry_ledger
            &&& !s.claims.contains_key(spend_ref_hash)
            &&& post.accruals[spend_ref_hash].status == RewardStatus::ClaimSubmitted
            &&& post.claims[spend_ref_hash].status == ClaimStatus::Submitted
        },
        step_sponsor_approve_claim(
            s,
            campaign_id,
            spend_ref_hash,
            sponsor,
            sponsor_response_hash,
            voucher_hash,
            ledger_sequence,
        ) is Ok ==> {
            let a = s.accruals[spend_ref_hash];
            let post = step_sponsor_approve_claim(
                s,
                campaign_id,
                spend_ref_hash,
                sponsor,
                sponsor_response_hash,
                voucher_hash,
                ledger_sequence,
            )->Ok_0.0;
            &&& s.campaigns[campaign_id].sponsor == sponsor
            &&& a.status == RewardStatus::ClaimSubmitted && a.campaign_id == campaign_id
            &&& ledger_sequence <= a.claim_expiry_ledger
            &&& post.accruals[spend_ref_hash].status == RewardStatus::VoucherIssued
            &&& post.vouchers[spend_ref_hash].reward_value == a.reward_value
            &&& post.vouchers[spend_ref_hash].user == a.user
            &&& post.claims[spend_ref_hash].status == ClaimStatus::Approved
        },
        step_sponsor_reject_claim(s, campaign_id, spend_ref_hash, sponsor, sponsor_response_hash) is Ok
            && s.campaigns[campaign_id].reserved_reward_value >= s.accruals[spend_ref_hash].reward_value ==> {
            let a = s.accruals[spend_ref_hash];
            let c = s.campaigns[campaign_id];
            let post = step_sponsor_reject_claim(s, campaign_id, spend_ref_hash, sponsor, sponsor_response_hash)->Ok_0.0;
            &&& c.sponsor == sponsor && a.status == RewardStatus::ClaimSubmitted
            &&& post.accruals[spend_ref_hash].status == RewardStatus::Rejected
            &&& post.claims[spend_ref_hash].status == ClaimStatus::Rejected
            &&& post.campaigns[campaign_id].reserved_reward_value == c.reserved_reward_value - a.reward_value
            &&& post.campaigns[campaign_id].cancelled_reward_value == c.cancelled_reward_value + a.reward_value
        },
{
}

/// A settlement redeems exactly the voucher's reward into gold: the
/// campaign's gold partner settles a VoucherIssued reward of that campaign
/// for exactly its value at a positive price; the fine weight recorded is
/// the value times 1e14 over the price, rounded down; the reward leaves the
/// reservation and joins the redeemed bucket, and the accrual is Redeemed.
pub proof fn law_redemption_settles_the_exact_reward(
    s: RewardsState,
    campaign_id: Bytes32,
    spend_ref_hash: Bytes32,
    gold_partner: Address,
    order_hash: Bytes32,
    product_hash: Bytes32,
    redeemed_value: i128,
    price_per_oz_e7: i128,
    custody_receipt_hash: Bytes32,
    ledger_sequence: u32,
)
    requires
        s.valid(),
        step_confirm_redemption(
            s,
            campaign_id,
            spend_ref_hash,
            gold_partner,
            order_hash,
            product_hash,
            redeemed_value,
            price_per_oz_e7,
            custody_receipt_hash,
            ledger_sequence,
        ) is Ok,
        s.campaigns[campaign_id].reserved_reward_value >= s.accruals[spend_ref_hash].reward_value,
    ensures
        ({
            let post = step_confirm_redemption(
                s,
                campaign_id,
                spend_ref_hash,
                gold_partner,
                order_hash,
                product_hash,
                redeemed_value,
                price_per_oz_e7,
                custody_receipt_hash,
                ledger_sequence,
            )->Ok_0.0;
            let a = s.accruals[spend_ref_hash];
            let c = s.campaigns[campaign_id];
            let c1 = post.campaigns[campaign_id];
            let r = post.redemptions[spend_ref_hash];
            &&& s.campaigns[campaign_id].gold_partner == gold_partner
            &&& a.campaign_id == campaign_id && a.status == RewardStatus::VoucherIssued
            &&& redeemed_value == a.reward_value && redeemed_value > 0
            &&& price_per_oz_e7 > 0
            &&& !s.redemptions.contains_key(spend_ref_hash)
            &&& r.redeemed_value == redeemed_value && r.price_per_oz_e7 == price_per_oz_e7
            &&& r.fine_weight_oz_e7 == (redeemed_value * 100_000_000_000_000) / (price_per_oz_e7 as int)
            &&& r.user == a.user
            &&& c1.reserved_reward_value == c.reserved_reward_value - redeemed_value
            &&& c1.redeemed_reward_value == c.redeemed_reward_value + redeemed_value
            &&& c1.redeemed_fine_weight_oz_e7 == c.redeemed_fine_weight_oz_e7 + r.fine_weight_oz_e7
            &&& post.accruals[spend_ref_hash].status == RewardStatus::Redeemed
        }),
{
}

/// A cancellation comes from the campaign's verifier or sponsor or an
/// approved bank, on a reward of that campaign that is not final; an expiry
/// lands only strictly after the claim expiry of a reward that has one and
/// is neither Pending nor final. Either releases the reward from the
/// reservation into its own bucket.
pub proof fn law_cancellation_and_expiry_release_the_reward(
    s: RewardsState,
    campaign_id: Bytes32,
    spend_ref_hash: Bytes32,
    actor: Address,
    reason_hash: Bytes32,
    ledger_sequence: u32,
)
    requires
        s.valid(),
        s.campaigns.contains_key(campaign_id) && s.accruals.contains_key(spend_ref_hash) ==> s.campaigns[campaign_id].reserved_reward_value
            >= s.accruals[spend_ref_hash].reward_value,
    ensures
        step_cancel_reward(s, campaign_id, spend_ref_hash, actor, reason_hash) is Ok ==> {
            let a = s.accruals[spend_ref_hash];
            let c = s.campaigns[campaign_id];
            let post = step_cancel_reward(s, campaign_id, spend_ref_hash, actor, reason_hash)->Ok_0.0;
            &&& (actor == c.verifier || actor == c.sponsor || s.approved(actor, Role::Bank))
            &&& a.campaign_id == campaign_id
            &&& a.status != RewardStatus::Redeemed && a.status != RewardStatus::Cancelled
            &&& a.status != RewardStatus::Expired && a.status != RewardStatus::Rejected
            &&& post.accruals[spend_ref_hash].status == RewardStatus::Cancelled
            &&& post.spends[spend_ref_hash].status == SpendStatus::Cancelled
            &&& post.campaigns[campaign_id].reserved_reward_value == c.reserved_reward_value - a.reward_value
            &&& post.campaigns[campaign_id].cancelled_reward_value == c.cancelled_reward_value + a.reward_value
        },
        step_expire_reward(s, campaign_id, spend_ref_hash, ledger_sequence) is Ok ==> {
            let a = s.accruals[spend_ref_hash];
            let c = s.campaigns[campaign_id];
            let post = step_expire_reward(s, campaign_id, spend_ref_hash, ledger_sequence)->Ok_0.0;
            &&& a.campaign_id == campaign_id
            &&& a.claim_expiry_ledger != 0 && ledger_sequence > a.claim_expiry_ledger
            &&& a.status != RewardStatus::Pending
            &&& a.status != RewardStatus::Redeemed && a.status != RewardStatus::Cancelled
            &&& a.status != RewardStatus::Expired && a.status != RewardStatus::Rejected
            &&& post.accruals[spend_ref_hash].status == RewardStatus::Expired
            &&& post.campaigns[campaign_id].reserved_reward_value == c.reserved_reward_value - a.reward_value
            &&& post.campaigns[campaign_id].expired_reward_value == c.expired_reward_value + a.reward_value
        },
{
}

/// The reward on an eligible amount is that amount times the rate in basis
/// points, rounded down; it is refused with `InvalidAmount` when either input
/// is not positive and with `MathOverflow` when the product leaves the i128
/// range.
pub proof fn law_reward_is_rate_of_eligible(eligible_amount: i128, reward_rate_bps: u32)
    ensures
        ({
            let r = super::state::reward_spec(eligible_amount, reward_rate_bps);
            &&& (eligible_amount <= 0 || reward_rate_bps == 0 ==> r == Err::<i128, super::error::Error>(
                super::error::Error::InvalidAmount,
            ))
            &&& (eligible_amount > 0 && reward_rate_bps > 0 && eligible_amount * reward_rate_bps > i128::MAX ==> r
                == Err::<i128, super::error::Error>(super::error::Error::MathOverflow))
            &&& (eligible_amount > 0 && reward_rate_bps > 0 && eligible_amount * reward_rate_bps <= i128::MAX ==> r
                is Ok && r->Ok_0 * 10_000 <= eligible_amount * reward_rate_bps < (r->Ok_0 + 1) * 10_000)
        }),
{
}

/// Threshold refusals of the rewards ledger happen only past their
/// thresholds: a spend is refused for its window only outside the campaign
/// window, for the user cap only when the user's eligible spend has reached
/// the cap, for the budget only when the reward would take reserved plus
/// redeemed value above the total budget, and for policy only on a currency
/// or category policy other than the campaign's; a claim or its approval is
/// refused as expired only after the claim expiry; an expiry is refused as
/// premature only up to and including the claim expiry (or with none set);
/// and a campaign is refused for its rate only outside 1..=1000 bps and for
/// its window only when it does not end after it starts or has no claim
/// window.
pub proof fn law_reward_threshold_refusals_are_exact(
    s: RewardsState,
    campaign_id: Bytes32,
    user: Address,
    verifier: Address,
    input: SpendInput,
    spend_ref_hash: Bytes32,
    hash1: Bytes32,
    hash2: Bytes32,
    ledger_sequence: u32,
    gold_partner: Address,
    cfg: CampaignConfig,
)
    requires
        s.valid(),
    ensures
        ({
            let r = step_record_eligible_spend(s, campaign_id, user, verifier, input, ledger_sequence);
            let c = s.campaigns[campaign_id];
            let u = s.usage_of(UsageKey { campaign_id, user });
            let eligible = capped(input.amount, c.user_spend_cap - u.eligible_spend_total);
            &&& (r == Err::<(RewardsState, i128), Error>(Error::CampaignNotInWindow) ==> ledger_sequence
                < c.start_ledger || ledger_sequence > c.end_ledger)
            &&& (r == Err::<(RewardsState, i128), Error>(Error::UserCapExceeded) ==> u.eligible_spend_total
                >= c.user_spend_cap)
            &&& (r == Err::<(RewardsState, i128), Error>(Error::BudgetInsufficient) ==> c.reserved_reward_value
                + c.redeemed_reward_value + (eligible * c.reward_rate_bps) / 10_000 > c.total_budget)
            &&& (r == Err::<(RewardsState, i128), Error>(Error::PolicyMismatch) ==> input.currency_code
                != c.currency_code || input.category_policy_hash != c.eligible_mcc_policy_hash)
        }),
        step_submit_claim(s, campaign_id, spend_ref_hash, user, hash1, ledger_sequence) == Err::<
            (RewardsState, ()),
            Error,
        >(Error::Expired) ==> ledger_sequence > s.accruals[spend_ref_hash].claim_expiry_ledger,
        step_sponsor_approve_claim(s, campaign_id, spend_ref_hash, user, hash1, hash2, ledger_sequence)
            == Err::<(RewardsState, ()), Error>(Error::Expired) ==> ledger_sequence
            > s.accruals[spend_ref_hash].claim_expiry_ledger,
        step_expire_reward(s, campaign_id, spend_ref_hash, ledger_sequence) == Err::<(RewardsState, ()), Error>(
            Error::NotExpired,
        ) ==> s.accruals[spend_ref_hash].claim_expiry_ledger == 0 || ledger_sequence
            <= s.accruals[spend_ref_hash].claim_expiry_ledger,
        step_create_campaign(s, campaign_id, user, verifier, gold_partner, cfg) == Err::<(RewardsState, ()), Error>(
            Error::InvalidRate,
        ) ==> cfg.reward_rate_bps == 0 || cfg.reward_rate_bps > MAX_RATE_BPS,
        step_create_campaign(s, campaign_id, user, verifier, gold_partner, cfg) == Err::<(RewardsState, ()), Error>(
            Error::InvalidWindow,
        ) ==> cfg.start_ledger >= cfg.end_ledger || cfg.claim_window_ledgers == 0,
{
}

} // verus!
