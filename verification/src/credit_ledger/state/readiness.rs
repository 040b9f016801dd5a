//! Enforcement readiness: whether a facility's realization path has been
//! agreed with real parties. It is Ready only when the agent, route and
//! settlement asset are genuinely set.
use vstd::prelude::*;

use crate::primitives::{Address, Bytes32};
use crate::credit_ledger::error::Error;
use crate::credit_ledger::event::{
    readiness_label, CollateralAction, CollateralEventV1, CollateralPayloadV1, EntityKind, HashData,
    ReadinessPopulatedData, StateLabel,
};
use crate::credit_ledger::types::{EnforcementReadiness, LedgerEnv, ReadinessStatus, Role};
use super::lines::emit_for_line;
use super::{outcome, CreditLedger, LedgerState};

verus! {

pub open spec fn step_open_readiness(
    s: LedgerState,
    credit_line_id: Bytes32,
    bank: Address,
    readiness_evidence_hash: Bytes32,
    env: LedgerEnv,
) -> Result<(LedgerState, CollateralEventV1), Error> {
    if !s.lines.contains_key(credit_line_id) {
        Err(Error::LineNotFound)
    } else if s.lines[credit_line_id].bank != bank {
        Err(Error::NotAuthorized)
    } else if !s.approved(bank, Role::Bank) {
        Err(Error::PartyNotApproved)
    } else if readiness_evidence_hash.spec_is_zero() {
        Err(Error::InvalidDocumentHash)
    } else if s.readiness.contains_key(credit_line_id) {
        Err(Error::ReadinessWrongStatus)
    } else {
        let zero = Bytes32::spec_zero();
        let record = EnforcementReadiness {
            credit_line_id,
            status: ReadinessStatus::Incomplete,
            liquidation_agent: bank,
            realization_route_hash: zero,
            settlement_asset: bank,
            valuation_source_hash: zero,
            waterfall_hash: zero,
            valid_until_ledger: 0,
            version: 0,
        };
        let s1 = LedgerState { readiness: s.readiness.insert(credit_line_id, record), ..s };
        emit_for_line(
            s,
            s1,
            credit_line_id,
            EntityKind::Readiness,
            CollateralAction::ReadinessOpened,
            bank,
            Role::Bank,
            zero,
            StateLabel::Null,
            StateLabel::ReadinessIncomplete,
            readiness_evidence_hash,
            zero,
            CollateralPayloadV1::Hash(HashData { hash: readiness_evidence_hash }),
            env,
        )
    }
}

/// The partner-dependent fields a Ready record needs: a liquidation agent
/// and settlement asset other than the bank itself, and a realization route.
pub open spec fn ready_fields_present(
    bank: Address,
    liquidation_agent: Address,
    realization_route_hash: Bytes32,
    settlement_asset: Address,
) -> bool {
    liquidation_agent != bank && !realization_route_hash.spec_is_zero() && settlement_asset != bank
}

pub open spec fn step_populate_readiness(
    s: LedgerState,
    credit_line_id: Bytes32,
    bank: Address,
    liquidation_agent: Address,
    realization_route_hash: Bytes32,
    settlement_asset: Address,
    valuation_source_hash: Bytes32,
    waterfall_hash: Bytes32,
    valid_until_ledger: u32,
    env: LedgerEnv,
) -> Result<(LedgerState, CollateralEventV1), Error> {
    let ready = ready_fields_present(bank, liquidation_agent, realization_route_hash, settlement_asset);
    if !s.lines.contains_key(credit_line_id) {
        Err(Error::LineNotFound)
    } else if s.lines[credit_line_id].bank != bank {
        Err(Error::NotAuthorized)
    } else if !s.approved(bank, Role::Bank) {
        Err(Error::PartyNotApproved)
    } else if !s.readiness.contains_key(credit_line_id) {
        Err(Error::ReadinessNotFound)
    } else if ready && (valuation_source_hash.spec_is_zero() || waterfall_hash.spec_is_zero()) {
        Err(Error::InvalidDocumentHash)
    } else if ready && valid_until_ledger <= env.sequence {
        Err(Error::ReadinessExpired)
    } else {
        let old_record = s.readiness[credit_line_id];
        let record = EnforcementReadiness {
            liquidation_agent,
            realization_route_hash,
            settlement_asset,
            valuation_source_hash,
            waterfall_hash,
            valid_until_ledger,
            version: (old_record.version + 1) as u32,
            status: if ready {
                ReadinessStatus::Ready
            } else {
                ReadinessStatus::Incomplete
            },
            ..old_record
        };
        let s1 = LedgerState { readiness: s.readiness.insert(credit_line_id, record), ..s };
        emit_for_line(
            s,
            s1,
            credit_line_id,
            EntityKind::Readiness,
            CollateralAction::ReadinessPopulated,
            bank,
            Role::Bank,
            Bytes32::spec_zero(),
            readiness_label(old_record.status),
            readiness_label(record.status),
            realization_route_hash,
            Bytes32::spec_zero(),
            CollateralPayloadV1::ReadinessPopulated(
                ReadinessPopulatedData {
                    liquidation_agent,
                    realization_route_hash,
                    settlement_asset,
                    valuation_source_hash,
                    waterfall_hash,
                    valid_until_ledger,
                    version: record.version,
                    status: record.status,
                },
            ),
            env,
        )
    }
}

/// The record's version can still be incremented.
pub open spec fn version_fits(s: LedgerState, credit_line_id: Bytes32) -> bool {
    s.readiness.contains_key(credit_line_id) ==> s.readiness[credit_line_id].version < u32::MAX
}

/// A populate call that gets past every check bumps a version that can still
/// be incremented; a call refused earlier is bound by nothing.
pub open spec fn populate_fits(
    s: LedgerState,
    credit_line_id: Bytes32,
    bank: Address,
    liquidation_agent: Address,
    realization_route_hash: Bytes32,
    settlement_asset: Address,
    valuation_source_hash: Bytes32,
    waterfall_hash: Bytes32,
    valid_until_ledger: u32,
    env: LedgerEnv,
) -> bool {
    step_populate_readiness(
        s,
        credit_line_id,
        bank,
        liquidation_agent,
        realization_route_hash,
        settlement_asset,
        valuation_source_hash,
        waterfall_hash,
        valid_until_ledger,
        env,
    ) is Ok ==> version_fits(s, credit_line_id)
}

pub open spec fn step_expire_readiness(
    s: LedgerState,
    credit_line_id: Bytes32,
    bank: Address,
    expiry_evidence_hash: Bytes32,
    env: LedgerEnv,
) -> Result<(LedgerState, CollateralEventV1), Error> {
    if !s.lines.contains_key(credit_line_id) {
        Err(Error::LineNotFound)
    } else if s.lines[credit_line_id].bank != bank {
        Err(Error::NotAuthorized)
    } else if !s.approved(bank, Role::Bank) {
        Err(Error::PartyNotApproved)
    } else if expiry_evidence_hash.spec_is_zero() {
        Err(Error::InvalidDocumentHash)
    } else if !s.readiness.contains_key(credit_line_id) {
        Err(Error::ReadinessNotFound)
    } else {
        let old_record = s.readiness[credit_line_id];
        let record = EnforcementReadiness { status: ReadinessStatus::Expired, ..old_record };
        let s1 = LedgerState { readiness: s.readiness.insert(credit_line_id, record), ..s };
        emit_for_line(
            s,
            s1,
            credit_line_id,
            EntityKind::Readiness,
            CollateralAction::ReadinessExpired,
            bank,
            Role::Bank,
            Bytes32::spec_zero(),
            readiness_label(old_record.status),
            StateLabel::ReadinessExpired,
            expiry_evidence_hash,
            Bytes32::spec_zero(),
            CollateralPayloadV1::Hash(HashData { hash: expiry_evidence_hash }),
            env,
        )
    }
}

impl CreditLedger {
    /// The line's approved bank opens an Incomplete readiness record: no
    /// agent (the bank stands as placeholder), no route, no settlement asset.
    pub fn open_enforcement_readiness(
        &mut self,
        credit_line_id: Bytes32,
        bank: Address,
        readiness_evidence_hash: Bytes32,
        env: LedgerEnv,
    ) -> (r: Result<CollateralEventV1, Error>)
        requires
            old(self).wf(),
            old(self)@.seq_room_for(
                step_open_readiness(
                    old(self)@,
                    credit_line_id,
                    bank,
                    readiness_evidence_hash,
                    env,
                ),
            ),
        ensures
            final(self).wf(),
            outcome(
                old(self)@,
                final(self)@,
                r,
                step_open_readiness(old(self)@, credit_line_id, bank, readiness_evidence_hash, env),
            ),
    {
        let l = self.load_line(&credit_line_id)?;
        if l.bank != bank {
            return Err(Error::NotAuthorized);
        }
        if !self.is_approved(bank, Role::Bank) {
            return Err(Error::PartyNotApproved);
        }
        if readiness_evidence_hash.is_zero() {
            return Err(Error::InvalidDocumentHash);
        }
        if self.readiness.contains(&credit_line_id) {
            return Err(Error::ReadinessWrongStatus);
        }
        let ctx = self.line_context(&credit_line_id)?;
        let zero = Bytes32::zero();
        let record = EnforcementReadiness {
            credit_line_id,
            status: ReadinessStatus::Incomplete,
            liquidation_agent: bank,
            realization_route_hash: zero,
            settlement_asset: bank,
            valuation_source_hash: zero,
            waterfall_hash: zero,
            valid_until_ledger: 0,
            version: 0,
        };
        self.readiness.set(credit_line_id, record);
        let ev = Self::template(
            ctx.framework_id,
            EntityKind::Readiness,
            CollateralAction::ReadinessOpened,
            bank,
            Role::Bank,
            ctx.position_id,
            ctx.pledge_id,
            credit_line_id,
            zero,
            StateLabel::Null,
            StateLabel::ReadinessIncomplete,
            readiness_evidence_hash,
            zero,
            CollateralPayloadV1::Hash(HashData { hash: readiness_evidence_hash }),
        );
        proof {
            assert(self@ =~= LedgerState {
                readiness: old(self)@.readiness.insert(credit_line_id, record),
                ..old(self)@
            });
        }
        Ok(self.emit(ev, env))
    }

    /// The line's approved bank sets the realization fields and bumps the
    /// version. The record becomes Ready exactly when a real agent, route and
    /// settlement asset are set, which then also needs non-zero valuation and
    /// waterfall hashes and a validity window ending after the current ledger.
    #[allow(clippy::too_many_arguments)]
    pub fn populate_enforcement_readiness(
        &mut self,
        credit_line_id: Bytes32,
        bank: Address,
        liquidation_agent: Address,
        realization_route_hash: Bytes32,
        settlement_asset: Address,
        valuation_source_hash: Bytes32,
        waterfall_hash: Bytes32,
        valid_until_ledger: u32,
        env: LedgerEnv,
    ) -> (r: Result<CollateralEventV1, Error>)
        requires
            old(self).wf(),
            old(self)@.seq_room_for(
                step_populate_readiness(
                    old(self)@,
                    credit_line_id,
                    bank,
                    liquidation_agent,
                    realization_route_hash,
                    settlement_asset,
                    valuation_source_hash,
                    waterfall_hash,
                    valid_until_ledger,
                    env,
                ),
            ),
            populate_fits(
                old(self)@,
                credit_line_id,
                bank,
                liquidation_agent,
                realization_route_hash,
                settlement_asset,
                valuation_source_hash,
                waterfall_hash,
                valid_until_ledger,
                env,
            ),
        ensures
            final(self).wf(),
            outcome(
                old(self)@,
                final(self)@,
                r,
                step_populate_readiness(
                    old(self)@,
                    credit_line_id,
                    bank,
                    liquidation_agent,
                    realization_route_hash,
                    settlement_asset,
                    valuation_source_hash,
                    waterfall_hash,
                    valid_until_ledger,
                    env,
                ),
            ),
    {
        let l = self.load_line(&credit_line_id)?;
        if l.bank != bank {
            return Err(Error::NotAuthorized);
        }
        if !self.is_approved(bank, Role::Bank) {
            return Err(Error::PartyNotApproved);
        }
        let old_record = match self.readiness.get(&credit_line_id) {
            Some(r) => r,
            None => {
                return Err(Error::ReadinessNotFound);
            },
        };
        let ready = liquidation_agent != bank && !realization_route_hash.is_zero()
            && settlement_asset != bank;
        let valuation_real = !valuation_source_hash.is_zero();
        let waterfall_real = !waterfall_hash.is_zero();
        if ready && (!valuation_real || !waterfall_real) {
            return Err(Error::InvalidDocumentHash);
        }
        if ready && valid_until_ledger <= env.sequence {
            return Err(Error::ReadinessExpired);
        }
        let ctx = self.line_context(&credit_line_id)?;
        let status = if ready && valuation_real && waterfall_real {
            ReadinessStatus::Ready
        } else {
            ReadinessStatus::Incomplete
        };
        let record = EnforcementReadiness {
            liquidation_agent,
            realization_route_hash,
            settlement_asset,
            valuation_source_hash,
            waterfall_hash,
            valid_until_ledger,
            version: old_record.version + 1,
            status,
            ..old_record
        };
        self.readiness.set(credit_line_id, record);
        let ev = Self::template(
            ctx.framework_id,
            EntityKind::Readiness,
            CollateralAction::ReadinessPopulated,
            bank,
            Role::Bank,
            ctx.position_id,
            ctx.pledge_id,
            credit_line_id,
            Bytes32::zero(),
            StateLabel::from_readiness(old_record.status),
            StateLabel::from_readiness(status),
            realization_route_hash,
            Bytes32::zero(),
            CollateralPayloadV1::ReadinessPopulated(
                ReadinessPopulatedData {
                    liquidation_agent,
                    realization_route_hash,
                    settlement_asset,
                    valuation_source_hash,
                    waterfall_hash,
                    valid_until_ledger,
                    version: record.version,
                    status,
                },
            ),
        );
        proof {
            assert(self@ =~= LedgerState {
                readiness: old(self)@.readiness.insert(credit_line_id, record),
                ..old(self)@
            });
        }
        Ok(self.emit(ev, env))
    }

    /// The line's approved bank marks a readiness record Expired.
    pub fn expire_enforcement_readiness(
        &mut self,
        credit_line_id: Bytes32,
        bank: Address,
        expiry_evidence_hash: Bytes32,
        env: LedgerEnv,
    ) -> (r: Result<CollateralEventV1, Error>)
        requires
            old(self).wf(),
            old(self)@.seq_room_for(
                step_expire_readiness(
                    old(self)@,
                    credit_line_id,
                    bank,
                    expiry_evidence_hash,
                    env,
                ),
            ),
        ensures
            final(self).wf(),
            outcome(
                old(self)@,
                final(self)@,
                r,
                step_expire_readiness(old(self)@, credit_line_id, bank, expiry_evidence_hash, env),
            ),
    {
        let l = self.load_line(&credit_line_id)?;
        if l.bank != bank {
            return Err(Error::NotAuthorized);
        }
        if !self.is_approved(bank, Role::Bank) {
            return Err(Error::PartyNotApproved);
        }
        if expiry_evidence_hash.is_zero() {
            return Err(Error::InvalidDocumentHash);
        }
        let old_record = match self.readiness.get(&credit_line_id) {
            Some(r) => r,
            None => {
                return Err(Error::ReadinessNotFound);
            },
        };
        let ctx = self.line_context(&credit_line_id)?;
        let record = EnforcementReadiness { status: ReadinessStatus::Expired, ..old_record };
        self.readiness.set(credit_line_id, record);
        let ev = Self::template(
            ctx.framework_id,
            EntityKind::Readiness,
            CollateralAction::ReadinessExpired,
            bank,
            Role::Bank,
            ctx.position_id,
            ctx.pledge_id,
            credit_line_id,
            Bytes32::zero(),
            StateLabel::from_readiness(old_record.status),
            StateLabel::ReadinessExpired,
            expiry_evidence_hash,
            Bytes32::zero(),
            CollateralPayloadV1::Hash(HashData { hash: expiry_evidence_hash }),
        );
        proof {
            assert(self@ =~= LedgerState {
                readiness: old(self)@.readiness.insert(credit_line_id, record),
                ..old(self)@
            });
        }
        Ok(self.emit(ev, env))
    }

    /// Read the enforcement-readiness record of a line.
    pub fn get_enforcement_readiness(&self, credit_line_id: Bytes32) -> (r: Result<
        EnforcementReadiness,
        Error,
    >)
        requires
            self.wf(),
        ensures
            r == (if self@.readiness.contains_key(credit_line_id) {
                Ok::<EnforcementReadiness, Error>(self@.readiness[credit_line_id])
            } else {
                Err(Error::ReadinessNotFound)
            }),
    {
        match self.readiness.get(&credit_line_id) {
            Some(v) => Ok(v),
            None => Err(Error::ReadinessNotFound),
        }
    }
}

impl CreditLedger {
    /// Whether `populate_enforcement_readiness` with these arguments stays in
    /// range: it is refused before the version is bumped, or the version can
    /// still be incremented. Exactly the condition the operation requires.
    #[allow(clippy::too_many_arguments)]
    pub fn populate_enforcement_readiness_in_range(
        &self,
        credit_line_id: Bytes32,
        bank: Address,
        liquidation_agent: Address,
        realization_route_hash: Bytes32,
        settlement_asset: Address,
        valuation_source_hash: Bytes32,
        waterfall_hash: Bytes32,
        valid_until_ledger: u32,
        env: LedgerEnv,
    ) -> (r: bool)
        requires
            self.wf(),
        ensures
            r == populate_fits(
                self@,
                credit_line_id,
                bank,
                liquidation_agent,
                realization_route_hash,
                settlement_asset,
                valuation_source_hash,
                waterfall_hash,
                valid_until_ledger,
                env,
            ),
    {
        let l = match self.load_line(&credit_line_id) {
            Ok(l) => l,
            Err(_) => {
                return true;
            },
        };
        if l.bank != bank || !self.is_approved(bank, Role::Bank) {
            return true;
        }
        let old_record = match self.readiness.get(&credit_line_id) {
            Some(r) => r,
            None => {
                return true;
            },
        };
        let ready = liquidation_agent != bank && !realization_route_hash.is_zero()
            && settlement_asset != bank;
        if ready && (valuation_source_hash.is_zero() || waterfall_hash.is_zero()) {
            return true;
        }
        if ready && valid_until_ledger <= env.sequence {
            return true;
        }
        if self.line_context(&credit_line_id).is_err() {
            return true;
        }
        old_record.version < u32::MAX
    }
}

} // verus!
