//! The rewards ledger's whole state as plain entry lists, so that it can be
//! stored between calls and restored exactly.
use vstd::prelude::*;

use crate::primitives::{Address, Bytes32};
use crate::table::{distinct_keys, entries_map, key_at, lemma_entries_map_of_distinct, lemma_value_at, seq_map, Table};
use crate::rewards_ledger::types::{
    EligibleSpend, Grant, RedemptionRecord, RewardAccrual, RewardCampaign, RewardClaim, UsageKey,
    UserCampaignUsage, VoucherRecord,
};
use super::{campaign_valid, usage_valid, RewardsLedger, RewardsState};

verus! {

/// Every record of the ledger, one list of (key, record) pairs per kind.
#[derive(Clone)]
pub struct RewardsLedgerSnapshot {
    pub admin: Option<Address>,
    pub approvals: Vec<(Grant, bool)>,
    pub campaigns: Vec<(Bytes32, RewardCampaign)>,
    pub spends: Vec<(Bytes32, EligibleSpend)>,
    pub accruals: Vec<(Bytes32, RewardAccrual)>,
    pub usage: Vec<(UsageKey, UserCampaignUsage)>,
    pub claims: Vec<(Bytes32, RewardClaim)>,
    pub vouchers: Vec<(Bytes32, VoucherRecord)>,
    pub redemptions: Vec<(Bytes32, RedemptionRecord)>,
}

/// The state a snapshot describes: each list read as a map, a later entry
/// winning over an earlier one with the same key.
pub open spec fn snapshot_state(s: RewardsLedgerSnapshot) -> RewardsState {
    RewardsState {
        admin: s.admin,
        approvals: entries_map(s.approvals@),
        campaigns: entries_map(s.campaigns@),
        spends: entries_map(s.spends@),
        accruals: entries_map(s.accruals@),
        usage: entries_map(s.usage@),
        claims: entries_map(s.claims@),
        vouchers: entries_map(s.vouchers@),
        redemptions: entries_map(s.redemptions@),
    }
}

impl RewardsLedger {
    /// The whole state as entry lists; restoring it gives this ledger back.
    pub fn snapshot(&self) -> (r: RewardsLedgerSnapshot)
        requires
            self.wf(),
        ensures
            snapshot_state(r) == self@,
    {
        let r = RewardsLedgerSnapshot {
            admin: self.admin,
            approvals: self.approvals.entries(),
            campaigns: self.campaigns.entries(),
            spends: self.spends.entries(),
            accruals: self.accruals.entries(),
            usage: self.usage.entries(),
            claims: self.claims.entries(),
            vouchers: self.vouchers.entries(),
            redemptions: self.redemptions.entries(),
        };
        proof {
            lemma_entries_map_of_distinct(r.approvals@);
            lemma_entries_map_of_distinct(r.campaigns@);
            lemma_entries_map_of_distinct(r.spends@);
            lemma_entries_map_of_distinct(r.accruals@);
            lemma_entries_map_of_distinct(r.usage@);
            lemma_entries_map_of_distinct(r.claims@);
            lemma_entries_map_of_distinct(r.vouchers@);
            lemma_entries_map_of_distinct(r.redemptions@);
            assert(snapshot_state(r) =~= self@);
        }
        r
    }

    /// The ledger a snapshot describes.
    pub fn restore(s: &RewardsLedgerSnapshot) -> (r: RewardsLedger)
        ensures
            r.wf(),
            r@ == snapshot_state(*s),
    {
        let r = RewardsLedger {
            admin: s.admin,
            approvals: Table::from_entries(&s.approvals),
            campaigns: Table::from_entries(&s.campaigns),
            spends: Table::from_entries(&s.spends),
            accruals: Table::from_entries(&s.accruals),
            usage: Table::from_entries(&s.usage),
            claims: Table::from_entries(&s.claims),
            vouchers: Table::from_entries(&s.vouchers),
            redemptions: Table::from_entries(&s.redemptions),
        };
        proof {
            assert(r@ =~= snapshot_state(*s));
        }
        r
    }

    /// Whether the state keeps the ledger's accounting invariant: the bound
    /// every operation requires of the state it starts from.
    pub fn check_valid(&self) -> (r: bool)
        requires
            self.wf(),
        ensures
            r == self@.valid(),
    {
        let cs = self.campaigns.entries();
        let n = cs.len();
        let mut i: usize = 0;
        while i < n
            invariant
                n == cs@.len(),
                i <= n,
                distinct_keys(cs@),
                seq_map(cs@) == self@.campaigns,
                forall|j: int| 0 <= j < i ==> campaign_valid(#[trigger] cs@[j].1),
            decreases n - i,
        {
            let c = cs[i].1;
            if !(c.reward_rate_bps <= 10_000 && c.user_spend_cap > 0 && c.total_budget > 0
                && c.reserved_reward_value >= 0 && c.redeemed_reward_value >= 0
                && c.cancelled_reward_value >= 0 && c.expired_reward_value >= 0
                && c.redeemed_fine_weight_oz_e7 >= 0) {
                proof {
                    lemma_value_at(cs@, i as int, cs@[i as int].0);
                    assert(self@.campaigns.contains_key(cs@[i as int].0));
                }
                return false;
            }
            i = i + 1;
        }
        let acs = self.accruals.entries();
        let n = acs.len();
        let mut i: usize = 0;
        while i < n
            invariant
                n == acs@.len(),
                i <= n,
                distinct_keys(acs@),
                seq_map(acs@) == self@.accruals,
                forall|j: int| 0 <= j < i ==> #[trigger] acs@[j].1.reward_value > 0,
            decreases n - i,
        {
            if acs[i].1.reward_value <= 0 {
                proof {
                    lemma_value_at(acs@, i as int, acs@[i as int].0);
                    assert(self@.accruals.contains_key(acs@[i as int].0));
                }
                return false;
            }
            i = i + 1;
        }
        let us = self.usage.entries();
        let n = us.len();
        let mut i: usize = 0;
        while i < n
            invariant
                n == us@.len(),
                i <= n,
                self.wf(),
                distinct_keys(us@),
                seq_map(us@) == self@.usage,
                forall|j: int|
                    0 <= j < i ==> self@.campaigns.contains_key(#[trigger] us@[j].0.campaign_id) && usage_valid(
                        us@[j].1,
                        self@.campaigns[us@[j].0.campaign_id].user_spend_cap,
                    ),
            decreases n - i,
        {
            let (k, u) = us[i];
            let ok = match self.campaigns.get(&k.campaign_id) {
                Some(c) => 0 <= u.reward_value_total && u.reward_value_total <= u.eligible_spend_total
                    && u.eligible_spend_total <= c.user_spend_cap && u.fine_weight_oz_e7_total >= 0,
                None => false,
            };
            if !ok {
                proof {
                    lemma_value_at(us@, i as int, k);
                    assert(self@.usage.contains_key(k));
                }
                return false;
            }
            i = i + 1;
        }
        proof {
            assert forall|c: Bytes32| #[trigger] self@.campaigns.contains_key(c) implies campaign_valid(
                self@.campaigns[c],
            ) by {
                let j = choose|j: int| #[trigger] key_at(cs@, j, c);
                lemma_value_at(cs@, j, c);
            }
            assert forall|k: Bytes32| #[trigger] self@.accruals.contains_key(k) implies self@.accruals[k].reward_value
                > 0 by {
                let j = choose|j: int| #[trigger] key_at(acs@, j, k);
                lemma_value_at(acs@, j, k);
            }
            assert forall|k| #[trigger] self@.usage.contains_key(k) implies self@.campaigns.contains_key(
                k.campaign_id,
            ) && usage_valid(self@.usage[k], self@.campaigns[k.campaign_id].user_spend_cap) by {
                let j = choose|j: int| #[trigger] key_at(us@, j, k);
                lemma_value_at(us@, j, k);
            }
        }
        true
    }
}

} // verus!
