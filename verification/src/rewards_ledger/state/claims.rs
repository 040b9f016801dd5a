//! Claims, vouchers, redemption into allocated gold, and expiry.
use vstd::prelude::*;

use crate::primitives::{Address, Bytes32};
use crate::rewards_ledger::error::Error;
use crate::rewards_ledger::types::{
    ClaimStatus, RedemptionRecord, RewardAccrual, RewardCampaign, RewardClaim, RewardStatus,
    UsageKey, UserCampaignUsage, VoucherRecord,
};
use super::spend::{fits, released, terminal};
use super::{outcome, usage_valid, RewardsLedger, RewardsState};

verus! {

pub open spec fn step_submit_claim(
    s: RewardsState,
    campaign_id: Bytes32,
    spend_ref_hash: Bytes32,
    user: Address,
    receipt_bundle_hash: Bytes32,
    ledger_sequence: u32,
) -> Result<(RewardsState, ()), Error> {
    if receipt_bundle_hash.spec_is_zero() {
        Err(Error::InvalidEvidenceHash)
    } else if !s.accruals.contains_key(spend_ref_hash) {
        Err(Error::AccrualNotFound)
    } else if s.accruals[spend_ref_hash].campaign_id != campaign_id || s.accruals[spend_ref_hash].user
        != user {
        Err(Error::NotAuthorized)
    } else if s.accruals[spend_ref_hash].status != RewardStatus::Claimable {
        Err(Error::InvalidStatus)
    } else if ledger_sequence > s.accruals[spend_ref_hash].claim_expiry_ledger {
        Err(Error::Expired)
    } else if s.claims.contains_key(spend_ref_hash) {
        Err(Error::ClaimExists)
    } else {
        let claim = RewardClaim {
            campaign_id,
            user,
            spend_ref_hash,
            receipt_bundle_hash,
            submitted_at_ledger: ledger_sequence,
            sponsor_response_hash: Bytes32::spec_zero(),
            status: ClaimStatus::Submitted,
        };
        let accrual = RewardAccrual { status: RewardStatus::ClaimSubmitted, ..s.accruals[spend_ref_hash] };
        Ok(
            (
                RewardsState {
                    claims: s.claims.insert(spend_ref_hash, claim),
                    accruals: s.accruals.insert(spend_ref_hash, accrual),
                    ..s
                },
                (),
            ),
        )
    }
}

/// Checks shared by approving and rejecting a submitted claim.
pub open spec fn claim_decision_error(
    s: RewardsState,
    campaign_id: Bytes32,
    spend_ref_hash: Bytes32,
    sponsor: Address,
) -> Option<Error> {
    if !s.campaigns.contains_key(campaign_id) {
        Some(Error::CampaignNotFound)
    } else if s.campaigns[campaign_id].sponsor != sponsor {
        Some(Error::NotAuthorized)
    } else if !s.claims.contains_key(spend_ref_hash) {
        Some(Error::ClaimNotFound)
    } else if !s.accruals.contains_key(spend_ref_hash) {
        Some(Error::AccrualNotFound)
    } else if s.claims[spend_ref_hash].campaign_id != campaign_id || s.accruals[spend_ref_hash].campaign_id
        != campaign_id {
        Some(Error::PolicyMismatch)
    } else if s.claims[spend_ref_hash].status != ClaimStatus::Submitted || s.accruals[spend_ref_hash].status
        != RewardStatus::ClaimSubmitted {
        Some(Error::InvalidStatus)
    } else {
        None
    }
}

pub open spec fn step_sponsor_approve_claim(
    s: RewardsState,
    campaign_id: Bytes32,
    spend_ref_hash: Bytes32,
    sponsor: Address,
    sponsor_response_hash: Bytes32,
    voucher_hash: Bytes32,
    ledger_sequence: u32,
) -> Result<(RewardsState, ()), Error> {
    if sponsor_response_hash.spec_is_zero() || voucher_hash.spec_is_zero() {
        Err(Error::InvalidEvidenceHash)
    } else if claim_decision_error(s, campaign_id, spend_ref_hash, sponsor) is Some {
        Err(claim_decision_error(s, campaign_id, spend_ref_hash, sponsor).unwrap())
    } else if ledger_sequence > s.accruals[spend_ref_hash].claim_expiry_ledger {
        Err(Error::Expired)
    } else if s.vouchers.contains_key(spend_ref_hash) {
        Err(Error::VoucherExists)
    } else {
        let a = s.accruals[spend_ref_hash];
        let claim = RewardClaim {
            status: ClaimStatus::Approved,
            sponsor_response_hash,
            ..s.claims[spend_ref_hash]
        };
        let voucher = VoucherRecord {
            campaign_id,
            user: a.user,
            spend_ref_hash,
            voucher_hash,
            reward_value: a.reward_value,
            issued_at_ledger: ledger_sequence,
            expiry_ledger: a.claim_expiry_ledger,
        };
        Ok(
            (
                RewardsState {
                    claims: s.claims.insert(spend_ref_hash, claim),
                    accruals: s.accruals.insert(
                        spend_ref_hash,
                        RewardAccrual { status: RewardStatus::VoucherIssued, ..a },
                    ),
                    vouchers: s.vouchers.insert(spend_ref_hash, voucher),
                    ..s
                },
                (),
            ),
        )
    }
}

pub open spec fn step_sponsor_reject_claim(
    s: RewardsState,
    campaign_id: Bytes32,
    spend_ref_hash: Bytes32,
    sponsor: Address,
    sponsor_response_hash: Bytes32,
) -> Result<(RewardsState, ()), Error> {
    if sponsor_response_hash.spec_is_zero() {
        Err(Error::InvalidEvidenceHash)
    } else if claim_decision_error(s, campaign_id, spend_ref_hash, sponsor) is Some {
        Err(claim_decision_error(s, campaign_id, spend_ref_hash, sponsor).unwrap())
    } else {
        let c = s.campaigns[campaign_id];
        let a = s.accruals[spend_ref_hash];
        if !fits(c.cancelled_reward_value + a.reward_value) {
            Err(Error::MathOverflow)
        } else {
            let c1 = RewardCampaign {
                reserved_reward_value: released(c.reserved_reward_value, a.reward_value),
                cancelled_reward_value: (c.cancelled_reward_value + a.reward_value) as i128,
                ..c
            };
            let claim = RewardClaim {
                status: ClaimStatus::Rejected,
                sponsor_response_hash,
                ..s.claims[spend_ref_hash]
            };
            Ok(
                (
                    RewardsState {
                        claims: s.claims.insert(spend_ref_hash, claim),
                        accruals: s.accruals.insert(
                            spend_ref_hash,
                            RewardAccrual { status: RewardStatus::Rejected, ..a },
                        ),
                        campaigns: s.campaigns.insert(campaign_id, c1),
                        ..s
                    },
                    (),
                ),
            )
        }
    }
}

/// Fine gold weight (troy oz * 1e7) bought by `value` at `price_per_oz_e7`:
/// `value * 1e7 * 1e7 / price`.
pub open spec fn fine_weight(value: i128, price_per_oz_e7: i128) -> int {
    (value * 10_000_000 * 10_000_000) / (price_per_oz_e7 as int)
}

pub open spec fn step_confirm_redemption(
    s: RewardsState,
    campaign_id: Bytes32,
    spend_ref_hash: Bytes32,
    gold_partner: Address,
    order_hash: Bytes32,
    product_hash: Bytes32,
    redeemed_value: i128,
    price_per_oz_e7: i128,
    custody_receipt_hash: Bytes32,
    ledger_sequence: u32,
) -> Result<(RewardsState, ()), Error> {
    if redeemed_value <= 0 {
        Err(Error::InvalidAmount)
    } else if price_per_oz_e7 <= 0 {
        Err(Error::PriceNotPositive)
    } else if order_hash.spec_is_zero() || product_hash.spec_is_zero()
        || custody_receipt_hash.spec_is_zero() {
        Err(Error::InvalidEvidenceHash)
    } else if !s.campaigns.contains_key(campaign_id) {
        Err(Error::CampaignNotFound)
    } else if s.campaigns[campaign_id].gold_partner != gold_partner {
        Err(Error::NotAuthorized)
    } else if !s.accruals.contains_key(spend_ref_hash) {
        Err(Error::AccrualNotFound)
    } else if s.accruals[spend_ref_hash].campaign_id != campaign_id || s.accruals[spend_ref_hash].status
        != RewardStatus::VoucherIssued {
        Err(Error::InvalidStatus)
    } else if redeemed_value != s.accruals[spend_ref_hash].reward_value {
        Err(Error::AmountMismatch)
    } else if s.redemptions.contains_key(spend_ref_hash) {
        Err(Error::RedemptionExists)
    } else if !fits(redeemed_value * 10_000_000 * 10_000_000) {
        Err(Error::MathOverflow)
    } else {
        let c = s.campaigns[campaign_id];
        let a = s.accruals[spend_ref_hash];
        let fine = fine_weight(redeemed_value, price_per_oz_e7);
        let key = UsageKey { campaign_id, user: a.user };
        let u = s.usage_of(key);
        if !fits(c.redeemed_reward_value + redeemed_value) || !fits(c.redeemed_fine_weight_oz_e7 + fine)
            || !fits(u.fine_weight_oz_e7_total + fine) {
            Err(Error::MathOverflow)
        } else {
            let c1 = RewardCampaign {
                reserved_reward_value: released(c.reserved_reward_value, a.reward_value),
                redeemed_reward_value: (c.redeemed_reward_value + redeemed_value) as i128,
                redeemed_fine_weight_oz_e7: (c.redeemed_fine_weight_oz_e7 + fine) as i128,
                ..c
            };
            let u1 = UserCampaignUsage {
                fine_weight_oz_e7_total: (u.fine_weight_oz_e7_total + fine) as i128,
                ..u
            };
            let redemption = RedemptionRecord {
                campaign_id,
                user: a.user,
                spend_ref_hash,
                order_hash,
                product_hash,
                redeemed_value,
                price_per_oz_e7,
                fine_weight_oz_e7: fine as i128,
                custody_receipt_hash,
                redeemed_at_ledger: ledger_sequence,
            };
            Ok(
                (
                    RewardsState {
                        accruals: s.accruals.insert(
                            spend_ref_hash,
                            RewardAccrual { status: RewardStatus::Redeemed, ..a },
                        ),
                        campaigns: s.campaigns.insert(campaign_id, c1),
                        usage: s.usage.insert(key, u1),
                        redemptions: s.redemptions.insert(spend_ref_hash, redemption),
                        ..s
                    },
                    (),
                ),
            )
        }
    }
}

pub open spec fn step_expire_reward(
    s: RewardsState,
    campaign_id: Bytes32,
    spend_ref_hash: Bytes32,
    ledger_sequence: u32,
) -> Result<(RewardsState, ()), Error> {
    if !s.campaigns.contains_key(campaign_id) {
        Err(Error::CampaignNotFound)
    } else if !s.accruals.contains_key(spend_ref_hash) {
        Err(Error::AccrualNotFound)
    } else if s.accruals[spend_ref_hash].campaign_id != campaign_id {
        Err(Error::PolicyMismatch)
    } else if terminal(s.accruals[spend_ref_hash].status) || s.accruals[spend_ref_hash].status
        == RewardStatus::Pending {
        Err(Error::InvalidStatus)
    } else if s.accruals[spend_ref_hash].claim_expiry_ledger == 0 || ledger_sequence
        <= s.accruals[spend_ref_hash].claim_expiry_ledger {
        Err(Error::NotExpired)
    } else {
        let c = s.campaigns[campaign_id];
        let a = s.accruals[spend_ref_hash];
        if !fits(c.expired_reward_value + a.reward_value) {
            Err(Error::MathOverflow)
        } else {
            let c1 = RewardCampaign {
                reserved_reward_value: released(c.reserved_reward_value, a.reward_value),
                expired_reward_value: (c.expired_reward_value + a.reward_value) as i128,
                ..c
            };
            Ok(
                (
                    RewardsState {
                        accruals: s.accruals.insert(
                            spend_ref_hash,
                            RewardAccrual { status: RewardStatus::Expired, ..a },
                        ),
                        campaigns: s.campaigns.insert(campaign_id, c1),
                        ..s
                    },
                    (),
                ),
            )
        }
    }
}

proof fn lemma_fine_weight_nonneg(value: i128, price: i128)
    requires
        value > 0,
        price > 0,
        value * 10_000_000 * 10_000_000 <= i128::MAX,
    ensures
        0 <= fine_weight(value, price) <= i128::MAX,
{
    let p = value * 10_000_000 * 10_000_000;
    assert(p >= 0) by (nonlinear_arith)
        requires
            value > 0,
            p == value * 10_000_000 * 10_000_000,
    ;
    assert(p / (price as int) <= p) by (nonlinear_arith)
        requires
            p >= 0,
            price > 0,
    ;
    assert(p / (price as int) >= 0) by (nonlinear_arith)
        requires
            p >= 0,
            price > 0,
    ;
}

impl RewardsLedger {
    /// The accrual's own user claims a Claimable reward within its window,
    /// once, with receipt evidence.
    pub fn submit_claim(
        &mut self,
        campaign_id: Bytes32,
        spend_ref_hash: Bytes32,
        user: Address,
        receipt_bundle_hash: Bytes32,
        ledger_sequence: u32,
    ) -> (r: Result<(), Error>)
        requires
            old(self).wf(),
            old(self)@.valid(),
        ensures
            final(self).wf(),
            final(self)@.valid(),
            outcome(
                old(self)@,
                final(self)@,
                r,
                step_submit_claim(
                    old(self)@,
                    campaign_id,
                    spend_ref_hash,
                    user,
                    receipt_bundle_hash,
                    ledger_sequence,
                ),
            ),
    {
        if receipt_bundle_hash.is_zero() {
            return Err(Error::InvalidEvidenceHash);
        }
        let a = self.load_accrual(&spend_ref_hash)?;
        if a.campaign_id != campaign_id || a.user != user {
            return Err(Error::NotAuthorized);
        }
        if a.status != RewardStatus::Claimable {
            return Err(Error::InvalidStatus);
        }
        if ledger_sequence > a.claim_expiry_ledger {
            return Err(Error::Expired);
        }
        if self.claims.contains(&spend_ref_hash) {
            return Err(Error::ClaimExists);
        }
        let claim = RewardClaim {
            campaign_id,
            user,
            spend_ref_hash,
            receipt_bundle_hash,
            submitted_at_ledger: ledger_sequence,
            sponsor_response_hash: Bytes32::zero(),
            status: ClaimStatus::Submitted,
        };
        self.claims.set(spend_ref_hash, claim);
        self.accruals.set(spend_ref_hash, RewardAccrual { status: RewardStatus::ClaimSubmitted, ..a });
        proof {
            assert(self@ =~= step_submit_claim(
                old(self)@,
                campaign_id,
                spend_ref_hash,
                user,
                receipt_bundle_hash,
                ledger_sequence,
            ).unwrap().0);
        }
        Ok(())
    }

    fn check_claim_decision(&self, campaign_id: &Bytes32, spend_ref_hash: &Bytes32, sponsor: Address) -> (r:
        Result<(RewardCampaign, RewardClaim, RewardAccrual), Error>)
        requires
            self.wf(),
        ensures
            match claim_decision_error(self@, *campaign_id, *spend_ref_hash, sponsor) {
                Some(e) => r == Err::<(RewardCampaign, RewardClaim, RewardAccrual), Error>(e),
                None => r == Ok::<(RewardCampaign, RewardClaim, RewardAccrual), Error>(
                    (
                        self@.campaigns[*campaign_id],
                        self@.claims[*spend_ref_hash],
                        self@.accruals[*spend_ref_hash],
                    ),
                ),
            },
    {
        let c = self.load_campaign(campaign_id)?;
        if c.sponsor != sponsor {
            return Err(Error::NotAuthorized);
        }
        let claim = match self.claims.get(spend_ref_hash) {
            Some(v) => v,
            None => {
                return Err(Error::ClaimNotFound);
            },
        };
        let a = self.load_accrual(spend_ref_hash)?;
        if claim.campaign_id != *campaign_id || a.campaign_id != *campaign_id {
            return Err(Error::PolicyMismatch);
        }
        if claim.status != ClaimStatus::Submitted || a.status != RewardStatus::ClaimSubmitted {
            return Err(Error::InvalidStatus);
        }
        Ok((c, claim, a))
    }

    /// The sponsor approves a submitted claim within its window and issues a
    /// voucher for the reward value.
    pub fn sponsor_approve_claim(
        &mut self,
        campaign_id: Bytes32,
        spend_ref_hash: Bytes32,
        sponsor: Address,
        sponsor_response_hash: Bytes32,
        voucher_hash: Bytes32,
        ledger_sequence: u32,
    ) -> (r: Result<(), Error>)
        requires
            old(self).wf(),
            old(self)@.valid(),
        ensures
            final(self).wf(),
            final(self)@.valid(),
            outcome(
                old(self)@,
                final(self)@,
                r,
                step_sponsor_approve_claim(
                    old(self)@,
                    campaign_id,
                    spend_ref_hash,
                    sponsor,
                    sponsor_response_hash,
                    voucher_hash,
                    ledger_sequence,
                ),
            ),
    {
        if sponsor_response_hash.is_zero() || voucher_hash.is_zero() {
            return Err(Error::InvalidEvidenceHash);
        }
        let (_c, claim, a) = self.check_claim_decision(&campaign_id, &spend_ref_hash, sponsor)?;
        if ledger_sequence > a.claim_expiry_ledger {
            return Err(Error::Expired);
        }
        if self.vouchers.contains(&spend_ref_hash) {
            return Err(Error::VoucherExists);
        }
        let voucher = VoucherRecord {
            campaign_id,
            user: a.user,
            spend_ref_hash,
            voucher_hash,
            reward_value: a.reward_value,
            issued_at_ledger: ledger_sequence,
            expiry_ledger: a.claim_expiry_ledger,
        };
        self.claims.set(
            spend_ref_hash,
            RewardClaim { status: ClaimStatus::Approved, sponsor_response_hash, ..claim },
        );
        self.accruals.set(spend_ref_hash, RewardAccrual { status: RewardStatus::VoucherIssued, ..a });
        self.vouchers.set(spend_ref_hash, voucher);
        proof {
            assert(self@ =~= step_sponsor_approve_claim(
                old(self)@,
                campaign_id,
                spend_ref_hash,
                sponsor,
                sponsor_response_hash,
                voucher_hash,
                ledger_sequence,
            ).unwrap().0);
        }
        Ok(())
    }

    /// The sponsor rejects a submitted claim: the reward's value leaves the
    /// reserved bucket (floored at zero) and is counted as cancelled.
    pub fn sponsor_reject_claim(
        &mut self,
        campaign_id: Bytes32,
        spend_ref_hash: Bytes32,
        sponsor: Address,
        sponsor_response_hash: Bytes32,
    ) -> (r: Result<(), Error>)
        requires
            old(self).wf(),
            old(self)@.valid(),
        ensures
            final(self).wf(),
            final(self)@.valid(),
            outcome(
                old(self)@,
                final(self)@,
                r,
                step_sponsor_reject_claim(old(self)@, campaign_id, spend_ref_hash, sponsor, sponsor_response_hash),
            ),
    {
        if sponsor_response_hash.is_zero() {
            return Err(Error::InvalidEvidenceHash);
        }
        let (c, claim, a) = self.check_claim_decision(&campaign_id, &spend_ref_hash, sponsor)?;
        let diff = c.reserved_reward_value - a.reward_value;
        let reserved = if diff > 0 {
            diff
        } else {
            0
        };
        let cancelled = match c.cancelled_reward_value.checked_add(a.reward_value) {
            Some(v) => v,
            None => {
                return Err(Error::MathOverflow);
            },
        };
        let c1 = RewardCampaign { reserved_reward_value: reserved, cancelled_reward_value: cancelled, ..c };
        self.claims.set(
            spend_ref_hash,
            RewardClaim { status: ClaimStatus::Rejected, sponsor_response_hash, ..claim },
        );
        self.accruals.set(spend_ref_hash, RewardAccrual { status: RewardStatus::Rejected, ..a });
        self.campaigns.set(campaign_id, c1);
        proof {
            let s0 = old(self)@;
            assert(self@ =~= step_sponsor_reject_claim(
                s0,
                campaign_id,
                spend_ref_hash,
                sponsor,
                sponsor_response_hash,
            ).unwrap().0);
            assert forall|u| #[trigger] self@.usage.contains_key(u) implies self@.campaigns.contains_key(
                u.campaign_id,
            ) && self@.campaigns[u.campaign_id].user_spend_cap == s0.campaigns[u.campaign_id].user_spend_cap by {}
        }
        Ok(())
    }

    /// The campaign's gold partner confirms redemption of an issued voucher
    /// into allocated gold at `price_per_oz_e7`. The fine weight
    /// `value * 1e14 / price` is recorded and added to the campaign's and the
    /// user's gold totals; the value moves from reserved to redeemed.
    #[allow(clippy::too_many_arguments)]
    pub fn confirm_redemption(
        &mut self,
        campaign_id: Bytes32,
        spend_ref_hash: Bytes32,
        gold_partner: Address,
        order_hash: Bytes32,
        product_hash: Bytes32,
        redeemed_value: i128,
        price_per_oz_e7: i128,
        custody_receipt_hash: Bytes32,
        ledger_sequence: u32,
    ) -> (r: Result<(), Error>)
        requires
            old(self).wf(),
            old(self)@.valid(),
        ensures
            final(self).wf(),
            final(self)@.valid(),
            outcome(
                old(self)@,
                final(self)@,
                r,
                step_confirm_redemption(
                    old(self)@,
                    campaign_id,
                    spend_ref_hash,
                    gold_partner,
                    order_hash,
                    product_hash,
                    redeemed_value,
                    price_per_oz_e7,
                    custody_receipt_hash,
                    ledger_sequence,
                ),
            ),
    {
        if redeemed_value <= 0 {
            return Err(Error::InvalidAmount);
        }
        if price_per_oz_e7 <= 0 {
            return Err(Error::PriceNotPositive);
        }
        if order_hash.is_zero() || product_hash.is_zero() || custody_receipt_hash.is_zero() {
            return Err(Error::InvalidEvidenceHash);
        }
        let c = self.load_campaign(&campaign_id)?;
        if c.gold_partner != gold_partner {
            return Err(Error::NotAuthorized);
        }
        let a = self.load_accrual(&spend_ref_hash)?;
        if a.campaign_id != campaign_id || a.status != RewardStatus::VoucherIssued {
            return Err(Error::InvalidStatus);
        }
        if redeemed_value != a.reward_value {
            return Err(Error::AmountMismatch);
        }
        if self.redemptions.contains(&spend_ref_hash) {
            return Err(Error::RedemptionExists);
        }
        let scaled = match redeemed_value.checked_mul(10_000_000i128) {
            Some(v) => match v.checked_mul(10_000_000i128) {
                Some(w) => w,
                None => {
                    return Err(Error::MathOverflow);
                },
            },
            None => {
                return Err(Error::MathOverflow);
            },
        };
        proof {
            lemma_fine_weight_nonneg(redeemed_value, price_per_oz_e7);
        }
        let fine = scaled / price_per_oz_e7;
        let diff = c.reserved_reward_value - a.reward_value;
        let reserved = if diff > 0 {
            diff
        } else {
            0
        };
        let redeemed = match c.redeemed_reward_value.checked_add(redeemed_value) {
            Some(v) => v,
            None => {
                return Err(Error::MathOverflow);
            },
        };
        let campaign_fine = match c.redeemed_fine_weight_oz_e7.checked_add(fine) {
            Some(v) => v,
            None => {
                return Err(Error::MathOverflow);
            },
        };
        let key = UsageKey { campaign_id, user: a.user };
        let u = match self.usage.get(&key) {
            Some(v) => v,
            None => UserCampaignUsage {
                eligible_spend_total: 0,
                reward_value_total: 0,
                fine_weight_oz_e7_total: 0,
            },
        };
        let user_fine = match u.fine_weight_oz_e7_total.checked_add(fine) {
            Some(v) => v,
            None => {
                return Err(Error::MathOverflow);
            },
        };
        let c1 = RewardCampaign {
            reserved_reward_value: reserved,
            redeemed_reward_value: redeemed,
            redeemed_fine_weight_oz_e7: campaign_fine,
            ..c
        };
        let u1 = UserCampaignUsage { fine_weight_oz_e7_total: user_fine, ..u };
        let redemption = RedemptionRecord {
            campaign_id,
            user: a.user,
            spend_ref_hash,
            order_hash,
            product_hash,
            redeemed_value,
            price_per_oz_e7,
            fine_weight_oz_e7: fine,
            custody_receipt_hash,
            redeemed_at_ledger: ledger_sequence,
        };
        self.usage.set(key, u1);
        self.accruals.set(spend_ref_hash, RewardAccrual { status: RewardStatus::Redeemed, ..a });
        self.campaigns.set(campaign_id, c1);
        self.redemptions.set(spend_ref_hash, redemption);
        proof {
            let s0 = old(self)@;
            assert(u == s0.usage_of(key));
            assert(self@ =~= step_confirm_redemption(
                s0,
                campaign_id,
                spend_ref_hash,
                gold_partner,
                order_hash,
                product_hash,
                redeemed_value,
                price_per_oz_e7,
                custody_receipt_hash,
                ledger_sequence,
            ).unwrap().0);
            assert forall|k| #[trigger] self@.usage.contains_key(k) implies self@.campaigns.contains_key(
                k.campaign_id,
            ) && usage_valid(self@.usage[k], self@.campaigns[k.campaign_id].user_spend_cap) by {
                if k != key {
                    assert(s0.usage.contains_key(k));
                }
            }
        }
        Ok(())
    }

    /// Anyone may expire a reward past its claim window that is not final and
    /// has reached the claim clock: its value leaves the reserved bucket
    /// (floored at zero) and is counted as expired.
    pub fn expire_reward(&mut self, campaign_id: Bytes32, spend_ref_hash: Bytes32, ledger_sequence: u32) -> (r:
        Result<(), Error>)
        requires
            old(self).wf(),
            old(self)@.valid(),
        ensures
            final(self).wf(),
            final(self)@.valid(),
            outcome(
                old(self)@,
                final(self)@,
                r,
                step_expire_reward(old(self)@, campaign_id, spend_ref_hash, ledger_sequence),
            ),
    {
        let c = self.load_campaign(&campaign_id)?;
        let a = self.load_accrual(&spend_ref_hash)?;
        if a.campaign_id != campaign_id {
            return Err(Error::PolicyMismatch);
        }
        if a.status == RewardStatus::Redeemed || a.status == RewardStatus::Cancelled || a.status
            == RewardStatus::Expired || a.status == RewardStatus::Rejected || a.status
            == RewardStatus::Pending {
            return Err(Error::InvalidStatus);
        }
        if a.claim_expiry_ledger == 0 || ledger_sequence <= a.claim_expiry_ledger {
            return Err(Error::NotExpired);
        }
        let diff = c.reserved_reward_value - a.reward_value;
        let reserved = if diff > 0 {
            diff
        } else {
            0
        };
        let expired = match c.expired_reward_value.checked_add(a.reward_value) {
            Some(v) => v,
            None => {
                return Err(Error::MathOverflow);
            },
        };
        let c1 = RewardCampaign { reserved_reward_value: reserved, expired_reward_value: expired, ..c };
        self.accruals.set(spend_ref_hash, RewardAccrual { status: RewardStatus::Expired, ..a });
        self.campaigns.set(campaign_id, c1);
        proof {
            let s0 = old(self)@;
            assert(self@ =~= step_expire_reward(s0, campaign_id, spend_ref_hash, ledger_sequence).unwrap().0);
            assert forall|u| #[trigger] self@.usage.contains_key(u) implies self@.campaigns.contains_key(
                u.campaign_id,
            ) && self@.campaigns[u.campaign_id].user_spend_cap == s0.campaigns[u.campaign_id].user_spend_cap by {}
        }
        Ok(())
    }

    /// Read a claim.
    pub fn get_claim(&self, spend_ref_hash: Bytes32) -> (r: Result<RewardClaim, Error>)
        requires
            self.wf(),
        ensures
            r == (if self@.claims.contains_key(spend_ref_hash) {
                Ok::<RewardClaim, Error>(self@.claims[spend_ref_hash])
            } else {
                Err(Error::ClaimNotFound)
            }),
    {
        match self.claims.get(&spend_ref_hash) {
            Some(v) => Ok(v),
            None => Err(Error::ClaimNotFound),
        }
    }

    /// Read a voucher.
    pub fn get_voucher(&self, spend_ref_hash: Bytes32) -> (r: Result<VoucherRecord, Error>)
        requires
            self.wf(),
        ensures
            r == (if self@.vouchers.contains_key(spend_ref_hash) {
                Ok::<VoucherRecord, Error>(self@.vouchers[spend_ref_hash])
            } else {
                Err(Error::VoucherNotFound)
            }),
    {
        match self.vouchers.get(&spend_ref_hash) {
            Some(v) => Ok(v),
            None => Err(Error::VoucherNotFound),
        }
    }

    /// Read a redemption record.
    pub fn get_redemption(&self, spend_ref_hash: Bytes32) -> (r: Result<RedemptionRecord, Error>)
        requires
            self.wf(),
        ensures
            r == (if self@.redemptions.contains_key(spend_ref_hash) {
                Ok::<RedemptionRecord, Error>(self@.redemptions[spend_ref_hash])
            } else {
                Err(Error::RedemptionNotFound)
            }),
    {
        match self.redemptions.get(&spend_ref_hash) {
            Some(v) => Ok(v),
            None => Err(Error::RedemptionNotFound),
        }
    }
}

} // verus!
