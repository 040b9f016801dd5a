//! Initialization and the role registry.
use vstd::prelude::*;

use crate::primitives::{Address, Bytes32};
use crate::credit_ledger::error::Error;
use crate::credit_ledger::types::{Grant, Role};
use super::{outcome, CreditLedger, LedgerState};

verus! {

/// Only counterparty roles can be granted; Admin and Owner never can.
pub open spec fn approvable_role(role: Role) -> bool {
    match role {
        Role::Bank | Role::Custodian | Role::Processor | Role::Valuation | Role::Vault => true,
        Role::Admin | Role::Owner => false,
    }
}

pub open spec fn step_initialize(s: LedgerState, admin: Address, settlement_vault: Address) -> Result<
    (LedgerState, ()),
    Error,
> {
    if s.admin is Some {
        Err(Error::AlreadyInitialized)
    } else {
        Ok((LedgerState { admin: Some(admin), settlement_vault: Some(settlement_vault), ..s }, ()))
    }
}

pub open spec fn step_approve_party(s: LedgerState, party: Address, role: Role) -> Result<
    (LedgerState, ()),
    Error,
> {
    if s.admin is None {
        Err(Error::NotInitialized)
    } else if !approvable_role(role) {
        Err(Error::NotAuthorized)
    } else {
        Ok(
            (
                LedgerState { approvals: s.approvals.insert(Grant { party, role }, true), ..s },
                (),
            ),
        )
    }
}

pub open spec fn step_revoke_party(s: LedgerState, party: Address, role: Role) -> Result<
    (LedgerState, ()),
    Error,
> {
    if s.admin is None {
        Err(Error::NotInitialized)
    } else {
        Ok((LedgerState { approvals: s.approvals.remove(Grant { party, role }), ..s }, ()))
    }
}

impl CreditLedger {
    /// One-time initialization: sets the admin and binds the single settlement
    /// vault allowed to apply repayments. The admin must authorize the call.
    pub fn initialize(&mut self, admin: Address, settlement_vault: Address) -> (r: Result<(), Error>)
        requires
            old(self).wf(),
        ensures
            final(self).wf(),
            outcome(old(self)@, final(self)@, r, step_initialize(old(self)@, admin, settlement_vault)),
    {
        if self.admin.is_some() {
            return Err(Error::AlreadyInitialized);
        }
        self.admin = Some(admin);
        self.settlement_vault = Some(settlement_vault);
        proof {
            assert(self@ =~= step_initialize(old(self)@, admin, settlement_vault).unwrap().0);
        }
        Ok(())
    }

    /// The admin, who must authorize every registry change.
    pub fn admin(&self) -> (r: Result<Address, Error>)
        ensures
            r == (match self@.admin {
                Some(a) => Ok::<Address, Error>(a),
                None => Err(Error::NotInitialized),
            }),
    {
        match self.admin {
            Some(a) => Ok(a),
            None => Err(Error::NotInitialized),
        }
    }

    /// Refuses the roles that no registry act may grant (Admin, Owner).
    pub fn assert_approvable_role(role: Role) -> (r: Result<(), Error>)
        ensures
            r == (if approvable_role(role) {
                Ok::<(), Error>(())
            } else {
                Err(Error::NotAuthorized)
            }),
    {
        match role {
            Role::Bank | Role::Custodian | Role::Processor | Role::Valuation | Role::Vault => Ok(()),
            Role::Admin | Role::Owner => Err(Error::NotAuthorized),
        }
    }

    /// Grant `role` to `party`. Admin only.
    pub fn approve_party(&mut self, party: Address, role: Role) -> (r: Result<(), Error>)
        requires
            old(self).wf(),
        ensures
            final(self).wf(),
            outcome(old(self)@, final(self)@, r, step_approve_party(old(self)@, party, role)),
    {
        self.admin()?;
        Self::assert_approvable_role(role)?;
        self.approvals.set(Grant { party, role }, true);
        proof {
            assert(self@ =~= step_approve_party(old(self)@, party, role).unwrap().0);
        }
        Ok(())
    }

    /// Withdraw `role` from `party`. Admin only.
    pub fn revoke_party(&mut self, party: Address, role: Role) -> (r: Result<(), Error>)
        requires
            old(self).wf(),
        ensures
            final(self).wf(),
            outcome(old(self)@, final(self)@, r, step_revoke_party(old(self)@, party, role)),
    {
        self.admin()?;
        self.approvals.remove(&Grant { party, role });
        proof {
            assert(self@ =~= step_revoke_party(old(self)@, party, role).unwrap().0);
        }
        Ok(())
    }

    /// Check that a party's approval may have its storage lifetime extended:
    /// the ledger is initialized and the approval exists. Admin only.
    pub fn bump_approval_ttl(&self, party: Address, role: Role) -> (r: Result<(), Error>)
        requires
            self.wf(),
        ensures
            r == (if self@.admin is None {
                Err(Error::NotInitialized)
            } else if !self@.approvals.contains_key(Grant { party, role }) {
                Err(Error::PartyNotApproved)
            } else {
                Ok(())
            }),
    {
        self.admin()?;
        if !self.approvals.contains(&Grant { party, role }) {
            return Err(Error::PartyNotApproved);
        }
        Ok(())
    }

    /// The settlement vault bound at initialization.
    pub fn get_settlement_vault(&self) -> (r: Result<Address, Error>)
        ensures
            r == (match self@.settlement_vault {
                Some(a) => Ok::<Address, Error>(a),
                None => Err(Error::NotInitialized),
            }),
    {
        match self.settlement_vault {
            Some(a) => Ok(a),
            None => Err(Error::NotInitialized),
        }
    }

    /// The last event sequence emitted under a framework (0 if none).
    pub fn framework_sequence(&self, framework_id: Bytes32) -> (r: u64)
        requires
            self.wf(),
        ensures
            r == self@.seq_of(framework_id),
    {
        match self.framework_seq.get(&framework_id) {
            Some(v) => v,
            None => 0,
        }
    }
}

} // verus!
