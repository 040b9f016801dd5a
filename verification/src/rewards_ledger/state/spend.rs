//! Eligible spend, its finality, and cancellation of unredeemed rewards.
use vstd::prelude::*;

use crate::primitives::{Address, Bytes32};
use crate::rewards_ledger::error::Error;
use crate::rewards_ledger::types::{
    CampaignStatus, EligibleSpend, RewardAccrual, RewardCampaign, RewardStatus, Role, SpendInput,
    SpendStatus, UsageKey, UserCampaignUsage,
};
use super::{outcome, reward_spec, usage_valid, zero_usage, RewardsLedger, RewardsState};

verus! {

pub open spec fn fits(x: int) -> bool {
    i128::MIN <= x <= i128::MAX
}

pub open spec fn step_record_eligible_spend(
    s: RewardsState,
    campaign_id: Bytes32,
    user: Address,
    verifier: Address,
    input: SpendInput,
    ledger_sequence: u32,
) -> Result<(RewardsState, i128), Error> {
    if input.amount <= 0 {
        Err(Error::InvalidAmount)
    } else if input.spend_ref_hash.spec_is_zero() || input.card_line_hash.spec_is_zero()
        || input.category_policy_hash.spec_is_zero() {
        Err(Error::InvalidEvidenceHash)
    } else if !s.campaigns.contains_key(campaign_id) {
        Err(Error::CampaignNotFound)
    } else if s.campaigns[campaign_id].status != CampaignStatus::Active {
        Err(Error::CampaignNotActive)
    } else {
        let c = s.campaigns[campaign_id];
        let key = UsageKey { campaign_id, user };
        let u = s.usage_of(key);
        let remaining = c.user_spend_cap - u.eligible_spend_total;
        let eligible = if input.amount > remaining {
            remaining as i128
        } else {
            input.amount
        };
        let committed = c.reserved_reward_value + c.redeemed_reward_value;
        if c.verifier != verifier {
            Err(Error::NotAuthorized)
        } else if ledger_sequence < c.start_ledger || ledger_sequence > c.end_ledger {
            Err(Error::CampaignNotInWindow)
        } else if c.currency_code != input.currency_code {
            Err(Error::PolicyMismatch)
        } else if c.eligible_mcc_policy_hash != input.category_policy_hash {
            Err(Error::PolicyMismatch)
        } else if s.spends.contains_key(input.spend_ref_hash) {
            Err(Error::SpendExists)
        } else if remaining <= 0 {
            Err(Error::UserCapExceeded)
        } else {
            match reward_spec(eligible, c.reward_rate_bps) {
                Err(e) => Err(e),
                Ok(reward) => if reward <= 0 {
                    Err(Error::InvalidAmount)
                } else if !fits(committed) {
                    Err(Error::MathOverflow)
                } else if reward > c.total_budget - committed {
                    Err(Error::BudgetInsufficient)
                } else if !fits(c.reserved_reward_value + reward) {
                    Err(Error::MathOverflow)
                } else {
                    let c1 = RewardCampaign {
                        reserved_reward_value: (c.reserved_reward_value + reward) as i128,
                        ..c
                    };
                    let u1 = UserCampaignUsage {
                        eligible_spend_total: (u.eligible_spend_total + eligible) as i128,
                        reward_value_total: (u.reward_value_total + reward) as i128,
                        ..u
                    };
                    let spend = EligibleSpend {
                        campaign_id,
                        card_line_hash: input.card_line_hash,
                        user,
                        verifier,
                        spend_ref_hash: input.spend_ref_hash,
                        amount: input.amount,
                        eligible_amount: eligible,
                        currency_code: input.currency_code,
                        category_policy_hash: input.category_policy_hash,
                        posted_at_ledger: input.posted_at_ledger,
                        finality_hash: Bytes32::spec_zero(),
                        status: SpendStatus::Recorded,
                    };
                    let accrual = RewardAccrual {
                        campaign_id,
                        user,
                        spend_ref_hash: input.spend_ref_hash,
                        eligible_spend_amount: eligible,
                        reward_value: reward,
                        currency_code: input.currency_code,
                        accrued_at_ledger: ledger_sequence,
                        claimable_at_ledger: 0,
                        claim_expiry_ledger: 0,
                        status: RewardStatus::Pending,
                    };
                    Ok(
                        (
                            RewardsState {
                                campaigns: s.campaigns.insert(campaign_id, c1),
                                spends: s.spends.insert(input.spend_ref_hash, spend),
                                accruals: s.accruals.insert(input.spend_ref_hash, accrual),
                                usage: s.usage.insert(key, u1),
                                ..s
                            },
                            reward,
                        ),
                    )
                },
            }
        }
    }
}

pub open spec fn step_confirm_spend_final(
    s: RewardsState,
    campaign_id: Bytes32,
    spend_ref_hash: Bytes32,
    verifier: Address,
    finality_hash: Bytes32,
    ledger_sequence: u32,
) -> Result<(RewardsState, ()), Error> {
    if finality_hash.spec_is_zero() {
        Err(Error::InvalidEvidenceHash)
    } else if !s.campaigns.contains_key(campaign_id) {
        Err(Error::CampaignNotFound)
    } else if s.campaigns[campaign_id].status != CampaignStatus::Active {
        Err(Error::CampaignNotActive)
    } else if s.campaigns[campaign_id].verifier != verifier {
        Err(Error::NotAuthorized)
    } else if !s.spends.contains_key(spend_ref_hash) {
        Err(Error::SpendNotFound)
    } else if s.spends[spend_ref_hash].campaign_id != campaign_id || s.spends[spend_ref_hash].status
        != SpendStatus::Recorded {
        Err(Error::InvalidStatus)
    } else if !s.accruals.contains_key(spend_ref_hash) {
        Err(Error::AccrualNotFound)
    } else if s.accruals[spend_ref_hash].status != RewardStatus::Pending {
        Err(Error::InvalidStatus)
    } else if ledger_sequence + s.campaigns[campaign_id].claim_window_ledgers > u32::MAX {
        Err(Error::MathOverflow)
    } else {
        let spend = EligibleSpend {
            status: SpendStatus::Final,
            finality_hash,
            ..s.spends[spend_ref_hash]
        };
        let accrual = RewardAccrual {
            status: RewardStatus::Claimable,
            claimable_at_ledger: ledger_sequence,
            claim_expiry_ledger: (ledger_sequence + s.campaigns[campaign_id].claim_window_ledgers) as u32,
            ..s.accruals[spend_ref_hash]
        };
        Ok(
            (
                RewardsState {
                    spends: s.spends.insert(spend_ref_hash, spend),
                    accruals: s.accruals.insert(spend_ref_hash, accrual),
                    ..s
                },
                (),
            ),
        )
    }
}

/// Redeemed, Cancelled, Expired and Rejected rewards are final.
pub open spec fn terminal(status: RewardStatus) -> bool {
    status == RewardStatus::Redeemed || status == RewardStatus::Cancelled || status
        == RewardStatus::Expired || status == RewardStatus::Rejected
}

/// The reserved bucket after `value` leaves it, floored at zero.
pub open spec fn released(reserved: i128, value: i128) -> i128 {
    if reserved - value > 0 {
        (reserved - value) as i128
    } else {
        0
    }
}

pub open spec fn step_cancel_reward(
    s: RewardsState,
    campaign_id: Bytes32,
    spend_ref_hash: Bytes32,
    actor: Address,
    reason_hash: Bytes32,
) -> Result<(RewardsState, ()), Error> {
    if reason_hash.spec_is_zero() {
        Err(Error::InvalidEvidenceHash)
    } else if !s.campaigns.contains_key(campaign_id) {
        Err(Error::CampaignNotFound)
    } else if actor != s.campaigns[campaign_id].verifier && actor != s.campaigns[campaign_id].sponsor
        && !s.approved(actor, Role::Bank) {
        Err(Error::NotAuthorized)
    } else if !s.spends.contains_key(spend_ref_hash) {
        Err(Error::SpendNotFound)
    } else if !s.accruals.contains_key(spend_ref_hash) {
        Err(Error::AccrualNotFound)
    } else if s.spends[spend_ref_hash].campaign_id != campaign_id || s.accruals[spend_ref_hash].campaign_id
        != campaign_id {
        Err(Error::PolicyMismatch)
    } else if terminal(s.accruals[spend_ref_hash].status) {
        Err(Error::InvalidStatus)
    } else {
        let c = s.campaigns[campaign_id];
        let a = s.accruals[spend_ref_hash];
        if !fits(c.cancelled_reward_value + a.reward_value) {
            Err(Error::MathOverflow)
        } else {
            let c1 = RewardCampaign {
                reserved_reward_value: released(c.reserved_reward_value, a.reward_value),
                cancelled_reward_value: (c.cancelled_reward_value + a.reward_value) as i128,
                ..c
            };
            Ok(
                (
                    RewardsState {
                        spends: s.spends.insert(
                            spend_ref_hash,
                            EligibleSpend { status: SpendStatus::Cancelled, ..s.spends[spend_ref_hash] },
                        ),
                        accruals: s.accruals.insert(
                            spend_ref_hash,
                            RewardAccrual { status: RewardStatus::Cancelled, ..a },
                        ),
                        campaigns: s.campaigns.insert(campaign_id, c1),
                        ..s
                    },
                    (),
                ),
            )
        }
    }
}

pub(crate) proof fn lemma_reward_le_eligible(eligible: i128, rate: u32)
    requires
        eligible > 0,
        rate <= 10_000,
    ensures
        (eligible * rate) / 10_000 <= eligible,
        (eligible * rate) / 10_000 >= 0,
{
    assert((eligible * rate) / 10_000 <= eligible) by (nonlinear_arith)
        requires
            eligible > 0,
            rate <= 10_000,
    ;
    assert((eligible * rate) / 10_000 >= 0) by (nonlinear_arith)
        requires
            eligible > 0,
            rate >= 0,
    ;
}

impl RewardsLedger {
    /// The campaign's verifier records a posted, eligible spend within the
    /// campaign window and policy. The eligible amount is the spend capped at
    /// the user's remaining headroom; the reward on it is reserved from the
    /// budget. Returns the reward value.
    pub fn record_eligible_spend(
        &mut self,
        campaign_id: Bytes32,
        user: Address,
        verifier: Address,
        input: SpendInput,
        ledger_sequence: u32,
    ) -> (r: Result<i128, Error>)
        requires
            old(self).wf(),
            old(self)@.valid(),
        ensures
            final(self).wf(),
            final(self)@.valid(),
            outcome(
                old(self)@,
                final(self)@,
                r,
                step_record_eligible_spend(old(self)@, campaign_id, user, verifier, input, ledger_sequence),
            ),
    {
        if input.amount <= 0 {
            return Err(Error::InvalidAmount);
        }
        if input.spend_ref_hash.is_zero() || input.card_line_hash.is_zero()
            || input.category_policy_hash.is_zero() {
            return Err(Error::InvalidEvidenceHash);
        }
        let c = self.load_campaign(&campaign_id)?;
        if c.status != CampaignStatus::Active {
            return Err(Error::CampaignNotActive);
        }
        if c.verifier != verifier {
            return Err(Error::NotAuthorized);
        }
        if ledger_sequence < c.start_ledger || ledger_sequence > c.end_ledger {
            return Err(Error::CampaignNotInWindow);
        }
        if c.currency_code != input.currency_code {
            return Err(Error::PolicyMismatch);
        }
        if c.eligible_mcc_policy_hash != input.category_policy_hash {
            return Err(Error::PolicyMismatch);
        }
        if self.spends.contains(&input.spend_ref_hash) {
            return Err(Error::SpendExists);
        }
        let key = UsageKey { campaign_id, user };
        let u = match self.usage.get(&key) {
            Some(v) => v,
            None => UserCampaignUsage {
                eligible_spend_total: 0,
                reward_value_total: 0,
                fine_weight_oz_e7_total: 0,
            },
        };
        proof {
            assert(u == old(self)@.usage_of(key));
            assert(usage_valid(u, c.user_spend_cap));
        }
        let remaining = c.user_spend_cap - u.eligible_spend_total;
        if remaining <= 0 {
            return Err(Error::UserCapExceeded);
        }
        let eligible = if input.amount > remaining {
            remaining
        } else {
            input.amount
        };
        let reward = Self::calculate_reward(eligible, c.reward_rate_bps)?;
        if reward <= 0 {
            return Err(Error::InvalidAmount);
        }
        let committed = match c.reserved_reward_value.checked_add(c.redeemed_reward_value) {
            Some(v) => v,
            None => {
                return Err(Error::MathOverflow);
            },
        };
        let remaining_budget = c.total_budget - committed;
        if reward > remaining_budget {
            return Err(Error::BudgetInsufficient);
        }
        let reserved = match c.reserved_reward_value.checked_add(reward) {
            Some(v) => v,
            None => {
                return Err(Error::MathOverflow);
            },
        };
        proof {
            lemma_reward_le_eligible(eligible, c.reward_rate_bps);
        }
        let c1 = RewardCampaign { reserved_reward_value: reserved, ..c };
        let u1 = UserCampaignUsage {
            eligible_spend_total: u.eligible_spend_total + eligible,
            reward_value_total: u.reward_value_total + reward,
            ..u
        };
        let spend = EligibleSpend {
            campaign_id,
            card_line_hash: input.card_line_hash,
            user,
            verifier,
            spend_ref_hash: input.spend_ref_hash,
            amount: input.amount,
            eligible_amount: eligible,
            currency_code: input.currency_code,
            category_policy_hash: input.category_policy_hash,
            posted_at_ledger: input.posted_at_ledger,
            finality_hash: Bytes32::zero(),
            status: SpendStatus::Recorded,
        };
        let accrual = RewardAccrual {
            campaign_id,
            user,
            spend_ref_hash: input.spend_ref_hash,
            eligible_spend_amount: eligible,
            reward_value: reward,
            currency_code: input.currency_code,
            accrued_at_ledger: ledger_sequence,
            claimable_at_ledger: 0,
            claim_expiry_ledger: 0,
            status: RewardStatus::Pending,
        };
        self.spends.set(input.spend_ref_hash, spend);
        self.accruals.set(input.spend_ref_hash, accrual);
        self.usage.set(key, u1);
        self.campaigns.set(campaign_id, c1);
        proof {
            let s0 = old(self)@;
            assert(self@ =~= step_record_eligible_spend(
                s0,
                campaign_id,
                user,
                verifier,
                input,
                ledger_sequence,
            ).unwrap().0);
            assert forall|k| #[trigger] self@.usage.contains_key(k) implies self@.campaigns.contains_key(
                k.campaign_id,
            ) && usage_valid(self@.usage[k], self@.campaigns[k.campaign_id].user_spend_cap) by {
                if k != key {
                    assert(s0.usage.contains_key(k));
                }
            }
        }
        Ok(reward)
    }

    /// The campaign's verifier confirms a Recorded spend is final: the
    /// reward becomes Claimable and its claim window starts now.
    pub fn confirm_spend_final(
        &mut self,
        campaign_id: Bytes32,
        spend_ref_hash: Bytes32,
        verifier: Address,
        finality_hash: Bytes32,
        ledger_sequence: u32,
    ) -> (r: Result<(), Error>)
        requires
            old(self).wf(),
            old(self)@.valid(),
        ensures
            final(self).wf(),
            final(self)@.valid(),
            outcome(
                old(self)@,
                final(self)@,
                r,
                step_confirm_spend_final(
                    old(self)@,
                    campaign_id,
                    spend_ref_hash,
                    verifier,
                    finality_hash,
                    ledger_sequence,
                ),
            ),
    {
        if finality_hash.is_zero() {
            return Err(Error::InvalidEvidenceHash);
        }
        let c = self.load_campaign(&campaign_id)?;
        if c.status != CampaignStatus::Active {
            return Err(Error::CampaignNotActive);
        }
        if c.verifier != verifier {
            return Err(Error::NotAuthorized);
        }
        let sp = match self.spends.get(&spend_ref_hash) {
            Some(v) => v,
            None => {
                return Err(Error::SpendNotFound);
            },
        };
        if sp.campaign_id != campaign_id || sp.status != SpendStatus::Recorded {
            return Err(Error::InvalidStatus);
        }
        let a = self.load_accrual(&spend_ref_hash)?;
        if a.status != RewardStatus::Pending {
            return Err(Error::InvalidStatus);
        }
        let expiry = match ledger_sequence.checked_add(c.claim_window_ledgers) {
            Some(v) => v,
            None => {
                return Err(Error::MathOverflow);
            },
        };
        let spend = EligibleSpend { status: SpendStatus::Final, finality_hash, ..sp };
        let accrual = RewardAccrual {
            status: RewardStatus::Claimable,
            claimable_at_ledger: ledger_sequence,
            claim_expiry_ledger: expiry,
            ..a
        };
        self.spends.set(spend_ref_hash, spend);
        self.accruals.set(spend_ref_hash, accrual);
        proof {
            assert(self@ =~= step_confirm_spend_final(
                old(self)@,
                campaign_id,
                spend_ref_hash,
                verifier,
                finality_hash,
                ledger_sequence,
            ).unwrap().0);
        }
        Ok(())
    }

    /// The verifier, the sponsor or an approved bank cancels a reward that is
    /// not yet final: its value leaves the reserved bucket (floored at zero)
    /// and is counted as cancelled.
    pub fn cancel_reward(
        &mut self,
        campaign_id: Bytes32,
        spend_ref_hash: Bytes32,
        actor: Address,
        reason_hash: Bytes32,
    ) -> (r: Result<(), Error>)
        requires
            old(self).wf(),
            old(self)@.valid(),
        ensures
            final(self).wf(),
            final(self)@.valid(),
            outcome(
                old(self)@,
                final(self)@,
                r,
                step_cancel_reward(old(self)@, campaign_id, spend_ref_hash, actor, reason_hash),
            ),
    {
        if reason_hash.is_zero() {
            return Err(Error::InvalidEvidenceHash);
        }
        let c = self.load_campaign(&campaign_id)?;
        let is_bank = self.is_approved(actor, Role::Bank);
        if actor != c.verifier && actor != c.sponsor && !is_bank {
            return Err(Error::NotAuthorized);
        }
        let sp = match self.spends.get(&spend_ref_hash) {
            Some(v) => v,
            None => {
                return Err(Error::SpendNotFound);
            },
        };
        let a = self.load_accrual(&spend_ref_hash)?;
        if sp.campaign_id != campaign_id || a.campaign_id != campaign_id {
            return Err(Error::PolicyMismatch);
        }
        if a.status == RewardStatus::Redeemed || a.status == RewardStatus::Cancelled || a.status
            == RewardStatus::Expired || a.status == RewardStatus::Rejected {
            return Err(Error::InvalidStatus);
        }
        let diff = c.reserved_reward_value - a.reward_value;
        let reserved = if diff > 0 {
            diff
        } else {
            0
        };
        let cancelled = match c.cancelled_reward_value.checked_add(a.reward_value) {
            Some(v) => v,
            None => {
                return Err(Error::MathOverflow);
            },
        };
        let c1 = RewardCampaign { reserved_reward_value: reserved, cancelled_reward_value: cancelled, ..c };
        self.spends.set(spend_ref_hash, EligibleSpend { status: SpendStatus::Cancelled, ..sp });
        self.accruals.set(spend_ref_hash, RewardAccrual { status: RewardStatus::Cancelled, ..a });
        self.campaigns.set(campaign_id, c1);
        proof {
            let s0 = old(self)@;
            assert(self@ =~= step_cancel_reward(s0, campaign_id, spend_ref_hash, actor, reason_hash).unwrap().0);
            assert forall|u| #[trigger] self@.usage.contains_key(u) implies self@.campaigns.contains_key(
                u.campaign_id,
            ) && self@.campaigns[u.campaign_id].user_spend_cap == s0.campaigns[u.campaign_id].user_spend_cap by {}
        }
        Ok(())
    }

    /// Read an eligible spend.
    pub fn get_spend(&self, spend_ref_hash: Bytes32) -> (r: Result<EligibleSpend, Error>)
        requires
            self.wf(),
        ensures
            r == (if self@.spends.contains_key(spend_ref_hash) {
                Ok::<EligibleSpend, Error>(self@.spends[spend_ref_hash])
            } else {
                Err(Error::SpendNotFound)
            }),
    {
        match self.spends.get(&spend_ref_hash) {
            Some(v) => Ok(v),
            None => Err(Error::SpendNotFound),
        }
    }

    /// Read a reward accrual.
    pub fn get_accrual(&self, spend_ref_hash: Bytes32) -> (r: Result<RewardAccrual, Error>)
        requires
            self.wf(),
        ensures
            r == (if self@.accruals.contains_key(spend_ref_hash) {
                Ok::<RewardAccrual, Error>(self@.accruals[spend_ref_hash])
            } else {
                Err(Error::AccrualNotFound)
            }),
    {
        self.load_accrual(&spend_ref_hash)
    }

    /// A user's running totals in a campaign (all zero before any spend).
    pub fn get_user_usage(&self, campaign_id: Bytes32, user: Address) -> (r: UserCampaignUsage)
        requires
            self.wf(),
        ensures
            r == self@.usage_of(UsageKey { campaign_id, user }),
    {
        match self.usage.get(&UsageKey { campaign_id, user }) {
            Some(v) => v,
            None => UserCampaignUsage {
                eligible_spend_total: 0,
                reward_value_total: 0,
                fine_weight_oz_e7_total: 0,
            },
        }
    }
}

} // verus!
