//! Initialization, the role registry and the campaign lifecycle.
use vstd::prelude::*;

use crate::primitives::{Address, Bytes32};
use crate::rewards_ledger::error::Error;
use crate::rewards_ledger::types::{CampaignConfig, CampaignStatus, Grant, RewardCampaign, Role};
use super::{campaign_valid, outcome, RewardsLedger, RewardsState};

verus! {

/// The highest reward rate a campaign may set: 1000 bps = 10%.
pub const MAX_RATE_BPS: u32 = 1_000;

pub open spec fn step_initialize(s: RewardsState, admin: Address) -> Result<(RewardsState, ()), Error> {
    if s.admin is Some {
        Err(Error::AlreadyInitialized)
    } else {
        Ok((RewardsState { admin: Some(admin), ..s }, ()))
    }
}

pub open spec fn step_approve_party(s: RewardsState, party: Address, role: Role) -> Result<
    (RewardsState, ()),
    Error,
> {
    if s.admin is None {
        Err(Error::NotInitialized)
    } else {
        Ok((RewardsState { approvals: s.approvals.insert(Grant { party, role }, true), ..s }, ()))
    }
}

pub open spec fn step_revoke_party(s: RewardsState, party: Address, role: Role) -> Result<
    (RewardsState, ()),
    Error,
> {
    if s.admin is None {
        Err(Error::NotInitialized)
    } else {
        Ok((RewardsState { approvals: s.approvals.remove(Grant { party, role }), ..s }, ()))
    }
}

pub open spec fn new_campaign(
    sponsor: Address,
    verifier: Address,
    gold_partner: Address,
    cfg: CampaignConfig,
) -> RewardCampaign {
    RewardCampaign {
        sponsor,
        verifier,
        gold_partner,
        reward_rate_bps: cfg.reward_rate_bps,
        user_spend_cap: cfg.user_spend_cap,
        total_budget: cfg.total_budget,
        reserved_reward_value: 0,
        redeemed_reward_value: 0,
        cancelled_reward_value: 0,
        expired_reward_value: 0,
        redeemed_fine_weight_oz_e7: 0,
        currency_code: cfg.currency_code,
        start_ledger: cfg.start_ledger,
        end_ledger: cfg.end_ledger,
        claim_window_ledgers: cfg.claim_window_ledgers,
        eligible_mcc_policy_hash: cfg.eligible_mcc_policy_hash,
        redemption_terms_hash: cfg.redemption_terms_hash,
        sponsor_product_scope_hash: cfg.sponsor_product_scope_hash,
        funding_commitment_hash: cfg.funding_commitment_hash,
        status: CampaignStatus::Active,
    }
}

pub open spec fn step_create_campaign(
    s: RewardsState,
    campaign_id: Bytes32,
    sponsor: Address,
    verifier: Address,
    gold_partner: Address,
    cfg: CampaignConfig,
) -> Result<(RewardsState, ()), Error> {
    if !s.approved(sponsor, Role::Sponsor) {
        Err(Error::PartyNotApproved)
    } else if !s.approved(verifier, Role::Verifier) {
        Err(Error::PartyNotApproved)
    } else if !s.approved(gold_partner, Role::GoldPartner) {
        Err(Error::PartyNotApproved)
    } else if cfg.reward_rate_bps == 0 || cfg.reward_rate_bps > MAX_RATE_BPS {
        Err(Error::InvalidRate)
    } else if cfg.user_spend_cap <= 0 || cfg.total_budget <= 0 {
        Err(Error::InvalidAmount)
    } else if cfg.start_ledger >= cfg.end_ledger || cfg.claim_window_ledgers == 0 {
        Err(Error::InvalidWindow)
    } else if cfg.eligible_mcc_policy_hash.spec_is_zero() || cfg.redemption_terms_hash.spec_is_zero()
        || cfg.sponsor_product_scope_hash.spec_is_zero() || cfg.funding_commitment_hash.spec_is_zero() {
        Err(Error::InvalidEvidenceHash)
    } else if s.campaigns.contains_key(campaign_id) {
        Err(Error::CampaignExists)
    } else {
        Ok(
            (
                RewardsState {
                    campaigns: s.campaigns.insert(
                        campaign_id,
                        new_campaign(sponsor, verifier, gold_partner, cfg),
                    ),
                    ..s
                },
                (),
            ),
        )
    }
}

pub open spec fn step_add_campaign_budget(
    s: RewardsState,
    campaign_id: Bytes32,
    sponsor: Address,
    amount: i128,
    funding_hash: Bytes32,
) -> Result<(RewardsState, ()), Error> {
    if amount <= 0 {
        Err(Error::InvalidAmount)
    } else if funding_hash.spec_is_zero() {
        Err(Error::InvalidEvidenceHash)
    } else if !s.campaigns.contains_key(campaign_id) {
        Err(Error::CampaignNotFound)
    } else if s.campaigns[campaign_id].sponsor != sponsor {
        Err(Error::NotAuthorized)
    } else if s.campaigns[campaign_id].status == CampaignStatus::Closed {
        Err(Error::CampaignNotActive)
    } else if s.campaigns[campaign_id].total_budget + amount > i128::MAX {
        Err(Error::MathOverflow)
    } else {
        let c = s.campaigns[campaign_id];
        let c1 = RewardCampaign { total_budget: (c.total_budget + amount) as i128, ..c };
        Ok((RewardsState { campaigns: s.campaigns.insert(campaign_id, c1), ..s }, ()))
    }
}

/// Pause, resume or close: the sponsor moves the campaign to `status`
/// (a Closed campaign cannot be resumed).
pub open spec fn step_set_status(
    s: RewardsState,
    campaign_id: Bytes32,
    sponsor: Address,
    status: CampaignStatus,
) -> Result<(RewardsState, ()), Error> {
    if !s.campaigns.contains_key(campaign_id) {
        Err(Error::CampaignNotFound)
    } else if s.campaigns[campaign_id].sponsor != sponsor {
        Err(Error::NotAuthorized)
    } else if status == CampaignStatus::Active && s.campaigns[campaign_id].status
        == CampaignStatus::Closed {
        Err(Error::CampaignNotActive)
    } else {
        let c1 = RewardCampaign { status, ..s.campaigns[campaign_id] };
        Ok((RewardsState { campaigns: s.campaigns.insert(campaign_id, c1), ..s }, ()))
    }
}

impl RewardsLedger {
    /// One-time initialization: sets the admin, who must authorize.
    pub fn initialize(&mut self, admin: Address) -> (r: Result<(), Error>)
        requires
            old(self).wf(),
            old(self)@.valid(),
        ensures
            final(self).wf(),
            final(self)@.valid(),
            outcome(old(self)@, final(self)@, r, step_initialize(old(self)@, admin)),
    {
        if self.admin.is_some() {
            return Err(Error::AlreadyInitialized);
        }
        self.admin = Some(admin);
        proof {
            assert(self@ =~= step_initialize(old(self)@, admin).unwrap().0);
        }
        Ok(())
    }

    /// The admin, who must authorize every registry change.
    pub fn admin(&self) -> (r: Result<Address, Error>)
        ensures
            r == (match self@.admin {
                Some(a) => Ok::<Address, Error>(a),
                None => Err(Error::NotInitialized),
            }),
    {
        match self.admin {
            Some(a) => Ok(a),
            None => Err(Error::NotInitialized),
        }
    }

    /// Grant `role` to `party`. Admin only.
    pub fn approve_party(&mut self, party: Address, role: Role) -> (r: Result<(), Error>)
        requires
            old(self).wf(),
            old(self)@.valid(),
        ensures
            final(self).wf(),
            final(self)@.valid(),
            outcome(old(self)@, final(self)@, r, step_approve_party(old(self)@, party, role)),
    {
        self.admin()?;
        self.approvals.set(Grant { party, role }, true);
        proof {
            assert(self@ =~= step_approve_party(old(self)@, party, role).unwrap().0);
        }
        Ok(())
    }

    /// Withdraw `role` from `party`. Admin only.
    pub fn revoke_party(&mut self, party: Address, role: Role) -> (r: Result<(), Error>)
        requires
            old(self).wf(),
            old(self)@.valid(),
        ensures
            final(self).wf(),
            final(self)@.valid(),
            outcome(old(self)@, final(self)@, r, step_revoke_party(old(self)@, party, role)),
    {
        self.admin()?;
        self.approvals.remove(&Grant { party, role });
        proof {
            assert(self@ =~= step_revoke_party(old(self)@, party, role).unwrap().0);
        }
        Ok(())
    }

    /// An approved sponsor creates an Active campaign naming an approved
    /// verifier and gold partner. The rate is in (0, 1000] bps, the cap and
    /// budget are positive, the window is non-empty and no policy hash is zero.
    pub fn create_campaign(
        &mut self,
        campaign_id: Bytes32,
        sponsor: Address,
        verifier: Address,
        gold_partner: Address,
        cfg: CampaignConfig,
    ) -> (r: Result<(), Error>)
        requires
            old(self).wf(),
            old(self)@.valid(),
        ensures
            final(self).wf(),
            final(self)@.valid(),
            outcome(
                old(self)@,
                final(self)@,
                r,
                step_create_campaign(old(self)@, campaign_id, sponsor, verifier, gold_partner, cfg),
            ),
    {
        if !self.is_approved(sponsor, Role::Sponsor) {
            return Err(Error::PartyNotApproved);
        }
        if !self.is_approved(verifier, Role::Verifier) {
            return Err(Error::PartyNotApproved);
        }
        if !self.is_approved(gold_partner, Role::GoldPartner) {
            return Err(Error::PartyNotApproved);
        }
        if cfg.reward_rate_bps == 0 || cfg.reward_rate_bps > MAX_RATE_BPS {
            return Err(Error::InvalidRate);
        }
        if cfg.user_spend_cap <= 0 || cfg.total_budget <= 0 {
            return Err(Error::InvalidAmount);
        }
        if cfg.start_ledger >= cfg.end_ledger || cfg.claim_window_ledgers == 0 {
            return Err(Error::InvalidWindow);
        }
        if cfg.eligible_mcc_policy_hash.is_zero() || cfg.redemption_terms_hash.is_zero()
            || cfg.sponsor_product_scope_hash.is_zero() || cfg.funding_commitment_hash.is_zero() {
            return Err(Error::InvalidEvidenceHash);
        }
        if self.campaigns.contains(&campaign_id) {
            return Err(Error::CampaignExists);
        }
        let campaign = RewardCampaign {
            sponsor,
            verifier,
            gold_partner,
            reward_rate_bps: cfg.reward_rate_bps,
            user_spend_cap: cfg.user_spend_cap,
            total_budget: cfg.total_budget,
            reserved_reward_value: 0,
            redeemed_reward_value: 0,
            cancelled_reward_value: 0,
            expired_reward_value: 0,
            redeemed_fine_weight_oz_e7: 0,
            currency_code: cfg.currency_code,
            start_ledger: cfg.start_ledger,
            end_ledger: cfg.end_ledger,
            claim_window_ledgers: cfg.claim_window_ledgers,
            eligible_mcc_policy_hash: cfg.eligible_mcc_policy_hash,
            redemption_terms_hash: cfg.redemption_terms_hash,
            sponsor_product_scope_hash: cfg.sponsor_product_scope_hash,
            funding_commitment_hash: cfg.funding_commitment_hash,
            status: CampaignStatus::Active,
        };
        self.campaigns.set(campaign_id, campaign);
        proof {
            let s0 = old(self)@;
            assert(self@ =~= step_create_campaign(s0, campaign_id, sponsor, verifier, gold_partner, cfg).unwrap().0);
            assert forall|u| #[trigger] self@.usage.contains_key(u) implies self@.campaigns.contains_key(
                u.campaign_id,
            ) && self@.campaigns[u.campaign_id] == s0.campaigns[u.campaign_id] by {}
        }
        Ok(())
    }

    /// The campaign's sponsor adds `amount` to the budget of a campaign that
    /// is not Closed.
    pub fn add_campaign_budget(
        &mut self,
        campaign_id: Bytes32,
        sponsor: Address,
        amount: i128,
        funding_hash: Bytes32,
    ) -> (r: Result<(), Error>)
        requires
            old(self).wf(),
            old(self)@.valid(),
        ensures
            final(self).wf(),
            final(self)@.valid(),
            outcome(
                old(self)@,
                final(self)@,
                r,
                step_add_campaign_budget(old(self)@, campaign_id, sponsor, amount, funding_hash),
            ),
    {
        if amount <= 0 {
            return Err(Error::InvalidAmount);
        }
        if funding_hash.is_zero() {
            return Err(Error::InvalidEvidenceHash);
        }
        let c = self.load_campaign(&campaign_id)?;
        if c.sponsor != sponsor {
            return Err(Error::NotAuthorized);
        }
        if c.status == CampaignStatus::Closed {
            return Err(Error::CampaignNotActive);
        }
        let total = match c.total_budget.checked_add(amount) {
            Some(t) => t,
            None => {
                return Err(Error::MathOverflow);
            },
        };
        let c1 = RewardCampaign { total_budget: total, ..c };
        self.campaigns.set(campaign_id, c1);
        proof {
            let s0 = old(self)@;
            assert(self@ =~= step_add_campaign_budget(s0, campaign_id, sponsor, amount, funding_hash).unwrap().0);
            assert forall|u| #[trigger] self@.usage.contains_key(u) implies self@.campaigns.contains_key(
                u.campaign_id,
            ) && self@.campaigns[u.campaign_id].user_spend_cap == s0.campaigns[u.campaign_id].user_spend_cap by {}
        }
        Ok(())
    }

    fn set_status(&mut self, campaign_id: Bytes32, sponsor: Address, status: CampaignStatus) -> (r: Result<
        (),
        Error,
    >)
        requires
            old(self).wf(),
            old(self)@.valid(),
        ensures
            final(self).wf(),
            final(self)@.valid(),
            outcome(old(self)@, final(self)@, r, step_set_status(old(self)@, campaign_id, sponsor, status)),
    {
        let c = self.load_campaign(&campaign_id)?;
        if c.sponsor != sponsor {
            return Err(Error::NotAuthorized);
        }
        if status == CampaignStatus::Active && c.status == CampaignStatus::Closed {
            return Err(Error::CampaignNotActive);
        }
        let c1 = RewardCampaign { status, ..c };
        self.campaigns.set(campaign_id, c1);
        proof {
            let s0 = old(self)@;
            assert(self@ =~= step_set_status(s0, campaign_id, sponsor, status).unwrap().0);
            assert forall|u| #[trigger] self@.usage.contains_key(u) implies self@.campaigns.contains_key(
                u.campaign_id,
            ) && self@.campaigns[u.campaign_id].user_spend_cap == s0.campaigns[u.campaign_id].user_spend_cap by {}
        }
        Ok(())
    }

    /// The sponsor pauses the campaign; a paused campaign records no spend.
    pub fn pause_campaign(&mut self, campaign_id: Bytes32, sponsor: Address) -> (r: Result<(), Error>)
        requires
            old(self).wf(),
            old(self)@.valid(),
        ensures
            final(self).wf(),
            final(self)@.valid(),
            outcome(
                old(self)@,
                final(self)@,
                r,
                step_set_status(old(self)@, campaign_id, sponsor, CampaignStatus::Paused),
            ),
    {
        self.set_status(campaign_id, sponsor, CampaignStatus::Paused)
    }

    /// The sponsor returns a campaign that is not Closed to Active.
    pub fn resume_campaign(&mut self, campaign_id: Bytes32, sponsor: Address) -> (r: Result<(), Error>)
        requires
            old(self).wf(),
            old(self)@.valid(),
        ensures
            final(self).wf(),
            final(self)@.valid(),
            outcome(
                old(self)@,
                final(self)@,
                r,
                step_set_status(old(self)@, campaign_id, sponsor, CampaignStatus::Active),
            ),
    {
        self.set_status(campaign_id, sponsor, CampaignStatus::Active)
    }

    /// The sponsor closes the campaign.
    pub fn close_campaign(&mut self, campaign_id: Bytes32, sponsor: Address) -> (r: Result<(), Error>)
        requires
            old(self).wf(),
            old(self)@.valid(),
        ensures
            final(self).wf(),
            final(self)@.valid(),
            outcome(
                old(self)@,
                final(self)@,
                r,
                step_set_status(old(self)@, campaign_id, sponsor, CampaignStatus::Closed),
            ),
    {
        self.set_status(campaign_id, sponsor, CampaignStatus::Closed)
    }

    /// Read a campaign.
    pub fn get_campaign(&self, campaign_id: Bytes32) -> (r: Result<RewardCampaign, Error>)
        requires
            self.wf(),
        ensures
            r == (if self@.campaigns.contains_key(campaign_id) {
                Ok::<RewardCampaign, Error>(self@.campaigns[campaign_id])
            } else {
                Err(Error::CampaignNotFound)
            }),
    {
        self.load_campaign(&campaign_id)
    }
}

} // verus!
