//! The rewards ledger's state, its mathematical model and its accounting
//! invariant.
use vstd::prelude::*;

use crate::primitives::{Address, Bytes32};
use crate::table::{Table, TableKey};
use super::error::Error;
use super::types::{
    EligibleSpend, Grant, RedemptionRecord, RewardAccrual, RewardCampaign, RewardClaim, Role,
    UsageKey, UserCampaignUsage, VoucherRecord,
};

pub mod campaigns;
pub mod spend;
pub mod claims;
pub mod snapshot;

verus! {

impl TableKey for Grant {
    fn same(&self, other: &Self) -> (r: bool) {
        *self == *other
    }
}

impl TableKey for UsageKey {
    fn same(&self, other: &Self) -> (r: bool) {
        *self == *other
    }
}

/// The mathematical model of the rewards ledger.
#[verifier::ext_equal]
pub ghost struct RewardsState {
    pub admin: Option<Address>,
    pub approvals: Map<Grant, bool>,
    pub campaigns: Map<Bytes32, RewardCampaign>,
    /// spend_ref_hash -> eligible spend
    pub spends: Map<Bytes32, EligibleSpend>,
    /// spend_ref_hash -> reward accrual
    pub accruals: Map<Bytes32, RewardAccrual>,
    pub usage: Map<UsageKey, UserCampaignUsage>,
    pub claims: Map<Bytes32, RewardClaim>,
    pub vouchers: Map<Bytes32, VoucherRecord>,
    pub redemptions: Map<Bytes32, RedemptionRecord>,
}

/// A campaign's configured amounts are positive and its buckets are never
/// negative.
pub open spec fn campaign_valid(c: RewardCampaign) -> bool {
    &&& c.reward_rate_bps <= 10_000
    &&& c.user_spend_cap > 0
    &&& c.total_budget > 0
    &&& c.reserved_reward_value >= 0
    &&& c.redeemed_reward_value >= 0
    &&& c.cancelled_reward_value >= 0
    &&& c.expired_reward_value >= 0
    &&& c.redeemed_fine_weight_oz_e7 >= 0
}

/// A user's totals: rewards never exceed eligible spend, which never exceeds
/// the campaign's per-user cap; redeemed gold is never negative.
pub open spec fn usage_valid(u: UserCampaignUsage, cap: i128) -> bool {
    &&& 0 <= u.reward_value_total <= u.eligible_spend_total <= cap
    &&& u.fine_weight_oz_e7_total >= 0
}

pub open spec fn zero_usage() -> UserCampaignUsage {
    UserCampaignUsage { eligible_spend_total: 0, reward_value_total: 0, fine_weight_oz_e7_total: 0 }
}

impl RewardsState {
    pub open spec fn approved(self, party: Address, role: Role) -> bool {
        let g = Grant { party, role };
        self.approvals.contains_key(g) && self.approvals[g]
    }

    /// The accounting invariant every operation keeps.
    pub open spec fn valid(self) -> bool {
        &&& forall|c: Bytes32| #[trigger]
            self.campaigns.contains_key(c) ==> campaign_valid(self.campaigns[c])
        &&& forall|k: Bytes32| #[trigger]
            self.accruals.contains_key(k) ==> self.accruals[k].reward_value > 0
        &&& forall|u: UsageKey| #[trigger]
            self.usage.contains_key(u) ==> self.campaigns.contains_key(u.campaign_id) && usage_valid(
                self.usage[u],
                self.campaigns[u.campaign_id].user_spend_cap,
            )
    }

    /// A user's totals in a campaign (all zero before the first spend).
    pub open spec fn usage_of(self, k: UsageKey) -> UserCampaignUsage {
        if self.usage.contains_key(k) {
            self.usage[k]
        } else {
            zero_usage()
        }
    }
}

/// The outcome of an operation: on success the state and the returned value
/// are those of `step`; on refusal the error is that of `step` and the state
/// is unchanged.
pub open spec fn outcome<T>(
    pre: RewardsState,
    post: RewardsState,
    r: Result<T, Error>,
    step: Result<(RewardsState, T), Error>,
) -> bool {
    match step {
        Ok(p) => r == Ok::<T, Error>(p.1) && post == p.0,
        Err(e) => r == Err::<T, Error>(e) && post == pre,
    }
}

/// `eligible * rate / 10000`, refused when either input is not positive or
/// the product leaves the i128 range.
pub open spec fn reward_spec(eligible_amount: i128, reward_rate_bps: u32) -> Result<i128, Error> {
    if eligible_amount <= 0 || reward_rate_bps == 0 {
        Err(Error::InvalidAmount)
    } else if eligible_amount * reward_rate_bps > i128::MAX {
        Err(Error::MathOverflow)
    } else {
        Ok(((eligible_amount * reward_rate_bps) / 10_000) as i128)
    }
}

/// The rewards ledger contract state.
pub struct RewardsLedger {
    pub(crate) admin: Option<Address>,
    pub(crate) approvals: Table<Grant, bool>,
    pub(crate) campaigns: Table<Bytes32, RewardCampaign>,
    pub(crate) spends: Table<Bytes32, EligibleSpend>,
    pub(crate) accruals: Table<Bytes32, RewardAccrual>,
    pub(crate) usage: Table<UsageKey, UserCampaignUsage>,
    pub(crate) claims: Table<Bytes32, RewardClaim>,
    pub(crate) vouchers: Table<Bytes32, VoucherRecord>,
    pub(crate) redemptions: Table<Bytes32, RedemptionRecord>,
}

impl View for RewardsLedger {
    type V = RewardsState;

    closed spec fn view(&self) -> RewardsState {
        RewardsState {
            admin: self.admin,
            approvals: self.approvals@,
            campaigns: self.campaigns@,
            spends: self.spends@,
            accruals: self.accruals@,
            usage: self.usage@,
            claims: self.claims@,
            vouchers: self.vouchers@,
            redemptions: self.redemptions@,
        }
    }
}

impl RewardsLedger {
    /// The internal invariant of the ledger's tables.
    pub closed spec fn wf(&self) -> bool {
        &&& self.approvals.wf()
        &&& self.campaigns.wf()
        &&& self.spends.wf()
        &&& self.accruals.wf()
        &&& self.usage.wf()
        &&& self.claims.wf()
        &&& self.vouchers.wf()
        &&& self.redemptions.wf()
    }

    /// A ledger before initialization, with no records.
    pub fn new() -> (r: RewardsLedger)
        ensures
            r.wf(),
            r@.valid(),
            r@.admin is None,
            r@.approvals == Map::<Grant, bool>::empty(),
            r@.campaigns == Map::<Bytes32, RewardCampaign>::empty(),
            r@.spends == Map::<Bytes32, EligibleSpend>::empty(),
            r@.accruals == Map::<Bytes32, RewardAccrual>::empty(),
            r@.usage == Map::<UsageKey, UserCampaignUsage>::empty(),
            r@.claims == Map::<Bytes32, RewardClaim>::empty(),
            r@.vouchers == Map::<Bytes32, VoucherRecord>::empty(),
            r@.redemptions == Map::<Bytes32, RedemptionRecord>::empty(),
            crate::rewards_ledger::laws::budget_kept(r@),
    {
        RewardsLedger {
            admin: None,
            approvals: Table::new(),
            campaigns: Table::new(),
            spends: Table::new(),
            accruals: Table::new(),
            usage: Table::new(),
            claims: Table::new(),
            vouchers: Table::new(),
            redemptions: Table::new(),
        }
    }

    /// Whether `party` currently holds `role`.
    pub fn is_approved(&self, party: Address, role: Role) -> (r: bool)
        requires
            self.wf(),
        ensures
            r == self@.approved(party, role),
    {
        match self.approvals.get(&Grant { party, role }) {
            Some(b) => b,
            None => false,
        }
    }

    /// The reward earned on `eligible_amount` at `reward_rate_bps`.
    pub fn calculate_reward(eligible_amount: i128, reward_rate_bps: u32) -> (r: Result<i128, Error>)
        ensures
            r == reward_spec(eligible_amount, reward_rate_bps),
    {
        if eligible_amount <= 0 || reward_rate_bps == 0 {
            return Err(Error::InvalidAmount);
        }
        match eligible_amount.checked_mul(reward_rate_bps as i128) {
            Some(v) => Ok(v / 10_000i128),
            None => Err(Error::MathOverflow),
        }
    }

    pub(crate) fn load_campaign(&self, id: &Bytes32) -> (r: Result<RewardCampaign, Error>)
        requires
            self.wf(),
        ensures
            r == (if self@.campaigns.contains_key(*id) {
                Ok::<RewardCampaign, Error>(self@.campaigns[*id])
            } else {
                Err(Error::CampaignNotFound)
            }),
    {
        match self.campaigns.get(id) {
            Some(c) => Ok(c),
            None => Err(Error::CampaignNotFound),
        }
    }

    pub(crate) fn load_accrual(&self, id: &Bytes32) -> (r: Result<RewardAccrual, Error>)
        requires
            self.wf(),
        ensures
            r == (if self@.accruals.contains_key(*id) {
                Ok::<RewardAccrual, Error>(self@.accruals[*id])
            } else {
                Err(Error::AccrualNotFound)
            }),
    {
        match self.accruals.get(id) {
            Some(a) => Ok(a),
            None => Err(Error::AccrualNotFound),
        }
    }
}

} // verus!
