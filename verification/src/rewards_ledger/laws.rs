//! Properties of the rewards ledger that span operations: budget
//! reservations, single use of spend references, bounded rewards, and the
//! finality of settled rewards.
use vstd::prelude::*;

use crate::primitives::{Address, Bytes32};
use super::types::{CampaignConfig, CampaignStatus, Role, SpendInput, UsageKey};
use super::state::RewardsState;
use super::state::campaigns::{
    step_add_campaign_budget, step_approve_party, step_create_campaign, step_initialize, step_revoke_party,
    step_set_status,
};
use super::state::claims::{
    step_confirm_redemption, step_expire_reward, step_sponsor_approve_claim, step_sponsor_reject_claim,
    step_submit_claim,
};
use super::state::spend::{
    lemma_reward_le_eligible, step_cancel_reward, step_confirm_spend_final, step_record_eligible_spend,
    terminal,
};

verus! {

/// A reward is reserved only within the campaign budget: after an accepted
/// spend, reserved plus redeemed value never exceeds the total budget, and
/// the reservation grew by exactly the reward returned.
pub proof fn law_reservation_within_budget(
    s: RewardsState,
    campaign_id: Bytes32,
    user: Address,
    verifier: Address,
    input: SpendInput,
    ledger_sequence: u32,
)
    requires
        step_record_eligible_spend(s, campaign_id, user, verifier, input, ledger_sequence) is Ok,
    ensures
        ({
            let p = step_record_eligible_spend(s, campaign_id, user, verifier, input, ledger_sequence)->Ok_0;
            let c = p.0.campaigns[campaign_id];
            &&& c.reserved_reward_value + c.redeemed_reward_value <= c.total_budget
            &&& c.reserved_reward_value == s.campaigns[campaign_id].reserved_reward_value + p.1
            &&& c.total_budget == s.campaigns[campaign_id].total_budget
        }),
{
}

/// A reward is positive and never more than the eligible part of the spend,
/// which is never more than the spend itself; the user's running totals grow
/// by exactly those amounts.
pub proof fn law_reward_bounded_by_spend(
    s: RewardsState,
    campaign_id: Bytes32,
    user: Address,
    verifier: Address,
    input: SpendInput,
    ledger_sequence: u32,
)
    requires
        s.valid(),
        step_record_eligible_spend(s, campaign_id, user, verifier, input, ledger_sequence) is Ok,
    ensures
        ({
            let p = step_record_eligible_spend(s, campaign_id, user, verifier, input, ledger_sequence)->Ok_0;
            let a = p.0.accruals[input.spend_ref_hash];
            let key = UsageKey { campaign_id, user };
            &&& 0 < p.1 <= a.eligible_spend_amount <= input.amount
            &&& a.reward_value == p.1
            &&& p.0.usage[key].eligible_spend_total == s.usage_of(key).eligible_spend_total
                + a.eligible_spend_amount
            &&& p.0.usage[key].reward_value_total == s.usage_of(key).reward_value_total + p.1
            &&& p.0.usage[key].eligible_spend_total <= s.campaigns[campaign_id].user_spend_cap
        }),
{
    let p = step_record_eligible_spend(s, campaign_id, user, verifier, input, ledger_sequence)->Ok_0;
    let a = p.0.accruals[input.spend_ref_hash];
    assert(s.campaigns.contains_key(campaign_id));
    lemma_reward_le_eligible(a.eligible_spend_amount, s.campaigns[campaign_id].reward_rate_bps);
}

/// A spend reference is recorded at most once: after it is accepted, no
/// spend with the same reference is accepted again, in any campaign.
pub proof fn law_spend_ref_is_single_use(
    s: RewardsState,
    campaign_id: Bytes32,
    user: Address,
    verifier: Address,
    input: SpendInput,
    ledger_sequence: u32,
    campaign_id2: Bytes32,
    user2: Address,
    verifier2: Address,
    input2: SpendInput,
    ledger_sequence2: u32,
)
    requires
        step_record_eligible_spend(s, campaign_id, user, verifier, input, ledger_sequence) is Ok,
        input2.spend_ref_hash == input.spend_ref_hash,
    ensures
        step_record_eligible_spend(
            step_record_eligible_spend(s, campaign_id, user, verifier, input, ledger_sequence)->Ok_0.0,
            campaign_id2,
            user2,
            verifier2,
            input2,
            ledger_sequence2,
        ) is Err,
{
}

/// Redeemed, cancelled, expired and rejected rewards are final: a
/// cancellation of such a reward is always refused.
pub proof fn law_settled_reward_cannot_be_cancelled(
    s: RewardsState,
    campaign_id: Bytes32,
    spend_ref_hash: Bytes32,
    actor: Address,
    reason_hash: Bytes32,
)
    requires
        s.accruals.contains_key(spend_ref_hash),
        terminal(s.accruals[spend_ref_hash].status),
    ensures
        step_cancel_reward(s, campaign_id, spend_ref_hash, actor, reason_hash) is Err,
{
}

/// A redemption settles the reward for good: once it is confirmed, the
/// reward can no longer be cancelled.
pub proof fn law_redemption_is_final(
    s: RewardsState,
    campaign_id: Bytes32,
    spend_ref_hash: Bytes32,
    gold_partner: Address,
    order_hash: Bytes32,
    product_hash: Bytes32,
    redeemed_value: i128,
    price_per_oz_e7: i128,
    custody_receipt_hash: Bytes32,
    ledger_sequence: u32,
    campaign_id2: Bytes32,
    actor: Address,
    reason_hash: Bytes32,
)
    requires
        step_confirm_redemption(
            s,
            campaign_id,
            spend_ref_hash,
            gold_partner,
            order_hash,
            product_hash,
            redeemed_value,
            price_per_oz_e7,
            custody_receipt_hash,
            ledger_sequence,
        ) is Ok,
    ensures
        step_cancel_reward(
            step_confirm_redemption(
                s,
                campaign_id,
                spend_ref_hash,
                gold_partner,
                order_hash,
                product_hash,
                redeemed_value,
                price_per_oz_e7,
                custody_receipt_hash,
                ledger_sequence,
            )->Ok_0.0,
            campaign_id2,
            spend_ref_hash,
            actor,
            reason_hash,
        ) is Err,
{
}

/// Every operation of the rewards ledger, with its arguments.
pub ghost enum RewardsOp {
    Initialize { admin: Address },
    ApproveParty { party: Address, role: Role },
    RevokeParty { party: Address, role: Role },
    CreateCampaign {
        campaign_id: Bytes32,
        sponsor: Address,
        verifier: Address,
        gold_partner: Address,
        cfg: CampaignConfig,
    },
    AddBudget { campaign_id: Bytes32, sponsor: Address, amount: i128, funding_hash: Bytes32 },
    SetStatus { campaign_id: Bytes32, sponsor: Address, status: CampaignStatus },
    RecordSpend {
        campaign_id: Bytes32,
        user: Address,
        verifier: Address,
        input: SpendInput,
        ledger_sequence: u32,
    },
    ConfirmFinal {
        campaign_id: Bytes32,
        spend_ref_hash: Bytes32,
        verifier: Address,
        finality_hash: Bytes32,
        ledger_sequence: u32,
    },
    Cancel { campaign_id: Bytes32, spend_ref_hash: Bytes32, actor: Address, reason_hash: Bytes32 },
    SubmitClaim {
        campaign_id: Bytes32,
        spend_ref_hash: Bytes32,
        user: Address,
        receipt_bundle_hash: Bytes32,
        ledger_sequence: u32,
    },
    ApproveClaim {
        campaign_id: Bytes32,
        spend_ref_hash: Bytes32,
        sponsor: Address,
        sponsor_response_hash: Bytes32,
        voucher_hash: Bytes32,
        ledger_sequence: u32,
    },
    RejectClaim {
        campaign_id: Bytes32,
        spend_ref_hash: Bytes32,
        sponsor: Address,
        sponsor_response_hash: Bytes32,
    },
    ConfirmRedemption {
        campaign_id: Bytes32,
        spend_ref_hash: Bytes32,
        gold_partner: Address,
        order_hash: Bytes32,
        product_hash: Bytes32,
        redeemed_value: i128,
        price_per_oz_e7: i128,
        custody_receipt_hash: Bytes32,
        ledger_sequence: u32,
    },
    Expire { campaign_id: Bytes32, spend_ref_hash: Bytes32, ledger_sequence: u32 },
}

/// The state an operation leaves when it is accepted, `None` when refused.
pub open spec fn rewards_step(s: RewardsState, op: RewardsOp) -> Option<RewardsState> {
    let r: Result<RewardsState, ()> = match op {
        RewardsOp::Initialize { admin } => match step_initialize(s, admin) {
            Ok(p) => Ok(p.0),
            Err(_) => Err(()),
        },
        RewardsOp::ApproveParty { party, role } => match step_approve_party(s, party, role) {
            Ok(p) => Ok(p.0),
            Err(_) => Err(()),
        },
        RewardsOp::RevokeParty { party, role } => match step_revoke_party(s, party, role) {
            Ok(p) => Ok(p.0),
            Err(_) => Err(()),
        },
        RewardsOp::CreateCampaign { campaign_id, sponsor, verifier, gold_partner, cfg } => match step_create_campaign(
            s,
            campaign_id,
            sponsor,
            verifier,
            gold_partner,
            cfg,
        ) {
            Ok(p) => Ok(p.0),
            Err(_) => Err(()),
        },
        RewardsOp::AddBudget { campaign_id, sponsor, amount, funding_hash } => match step_add_campaign_budget(
            s,
            campaign_id,
            sponsor,
            amount,
            funding_hash,
        ) {
            Ok(p) => Ok(p.0),
            Err(_) => Err(()),
        },
        RewardsOp::SetStatus { campaign_id, sponsor, status } => match step_set_status(
            s,
            campaign_id,
            sponsor,
            status,
        ) {
            Ok(p) => Ok(p.0),
            Err(_) => Err(()),
        },
        RewardsOp::RecordSpend { campaign_id, user, verifier, input, ledger_sequence } =>
            match step_record_eligible_spend(s, campaign_id, user, verifier, input, ledger_sequence) {
            Ok(p) => Ok(p.0),
            Err(_) => Err(()),
        },
        RewardsOp::ConfirmFinal { campaign_id, spend_ref_hash, verifier, finality_hash, ledger_sequence } =>
            match step_confirm_spend_final(s, campaign_id, spend_ref_hash, verifier, finality_hash, ledger_sequence) {
            Ok(p) => Ok(p.0),
            Err(_) => Err(()),
        },
        RewardsOp::Cancel { campaign_id, spend_ref_hash, actor, reason_hash } => match step_cancel_reward(
            s,
            campaign_id,
            spend_ref_hash,
            actor,
            reason_hash,
        ) {
            Ok(p) => Ok(p.0),
            Err(_) => Err(()),
        },
        RewardsOp::SubmitClaim { campaign_id, spend_ref_hash, user, receipt_bundle_hash, ledger_sequence } =>
            match step_submit_claim(s, campaign_id, spend_ref_hash, user, receipt_bundle_hash, ledger_sequence) {
            Ok(p) => Ok(p.0),
            Err(_) => Err(()),
        },
        RewardsOp::ApproveClaim {
            campaign_id,
            spend_ref_hash,
            sponsor,
            sponsor_response_hash,
            voucher_hash,
            ledger_sequence,
        } => match step_sponsor_approve_claim(
            s,
            campaign_id,
            spend_ref_hash,
            sponsor,
            sponsor_response_hash,
            voucher_hash,
            ledger_sequence,
        ) {
            Ok(p) => Ok(p.0),
            Err(_) => Err(()),
        },
        RewardsOp::RejectClaim { campaign_id, spend_ref_hash, sponsor, sponsor_response_hash } =>
            match step_sponsor_reject_claim(s, campaign_id, spend_ref_hash, sponsor, sponsor_response_hash) {
            Ok(p) => Ok(p.0),
            Err(_) => Err(()),
        },
        RewardsOp::ConfirmRedemption {
            campaign_id,
            spend_ref_hash,
            gold_partner,
            order_hash,
            product_hash,
            redeemed_value,
            price_per_oz_e7,
            custody_receipt_hash,
            ledger_sequence,
        } => match step_confirm_redemption(
            s,
            campaign_id,
            spend_ref_hash,
            gold_partner,
            order_hash,
            product_hash,
            redeemed_value,
            price_per_oz_e7,
            custody_receipt_hash,
            ledger_sequence,
        ) {
            Ok(p) => Ok(p.0),
            Err(_) => Err(()),
        },
        RewardsOp::Expire { campaign_id, spend_ref_hash, ledger_sequence } => match step_expire_reward(
            s,
            campaign_id,
            spend_ref_hash,
            ledger_sequence,
        ) {
            Ok(p) => Ok(p.0),
            Err(_) => Err(()),
        },
    };
    match r {
        Ok(post) => Some(post),
        Err(_) => None,
    }
}

/// No campaign is over-committed: the value reserved for open rewards plus
/// the value already redeemed stays within the campaign's total budget.
pub open spec fn budget_kept(s: RewardsState) -> bool {
    forall|c: Bytes32| #[trigger]
        s.campaigns.contains_key(c) ==> s.campaigns[c].reserved_reward_value
            + s.campaigns[c].redeemed_reward_value <= s.campaigns[c].total_budget
}

/// The one input on which an operation can over-commit a campaign: settling
/// a reward worth more than the campaign still holds in reserve (the
/// reservation drops only to zero while the redeemed value grows by the full
/// reward).
pub open spec fn redeems_beyond_reserve(s: RewardsState, op: RewardsOp) -> bool {
    match op {
        RewardsOp::ConfirmRedemption { campaign_id, spend_ref_hash, .. } => s.campaigns.contains_key(
            campaign_id,
        ) && s.accruals.contains_key(spend_ref_hash) && s.campaigns[campaign_id].reserved_reward_value
            < s.accruals[spend_ref_hash].reward_value,
        _ => false,
    }
}

/// A campaign's budget is never over-committed, across every operation:
/// each accepted operation keeps reserved plus redeemed value within the
/// total budget of every campaign (except the settlement described by
/// `redeems_beyond_reserve`).
pub proof fn law_budget_never_overcommitted(s: RewardsState, op: RewardsOp)
    requires
        s.valid(),
        budget_kept(s),
        rewards_step(s, op) is Some,
        !redeems_beyond_reserve(s, op),
    ensures
        budget_kept(rewards_step(s, op)->0),
{
    let post = rewards_step(s, op)->0;
    assert forall|c: Bytes32| #[trigger] post.campaigns.contains_key(c) implies post.campaigns[c].reserved_reward_value
        + post.campaigns[c].redeemed_reward_value <= post.campaigns[c].total_budget by {
        if s.campaigns.contains_key(c) {
            assert(s.campaigns[c].reserved_reward_value + s.campaigns[c].redeemed_reward_value
                <= s.campaigns[c].total_budget);
            assert(s.campaigns[c].reserved_reward_value >= 0);
        }
    }
}

} // verus!
