//! Two-stage release, default notices and cures, and recorded enforcement.
use vstd::prelude::*;

use crate::primitives::{Address, Bytes32};
use crate::credit_ledger::error::Error;
use crate::credit_ledger::event::{
    line_label, CollateralAction, CollateralEventV1, CollateralPayloadV1, DefaultNoticeData,
    EnforcementData, EntityKind, HashData, StateLabel,
};
use crate::credit_ledger::types::{
    CreditLine, EnforcementOutcome, LedgerEnv, LineStatus, Pledge, PledgeStatus, PositionStatus,
    Role, VaultPosition,
};
use super::lines::emit_for_line;
use super::{event_template, outcome, CreditLedger, LedgerState};

verus! {

pub open spec fn step_bank_authorize_release(
    s: LedgerState,
    credit_line_id: Bytes32,
    bank: Address,
    payoff_letter_hash: Bytes32,
    env: LedgerEnv,
) -> Result<(LedgerState, CollateralEventV1), Error> {
    if !s.approved(bank, Role::Bank) {
        Err(Error::PartyNotApproved)
    } else if payoff_letter_hash.spec_is_zero() {
        Err(Error::InvalidDocumentHash)
    } else if !s.lines.contains_key(credit_line_id) {
        Err(Error::LineNotFound)
    } else if s.lines[credit_line_id].bank != bank {
        Err(Error::NotAuthorized)
    } else if s.lines[credit_line_id].drawn_balance != 0 {
        Err(Error::OutstandingBalance)
    } else if !s.pledges.contains_key(s.lines[credit_line_id].pledge_id) {
        Err(Error::PledgeNotFound)
    } else if s.pledges[s.lines[credit_line_id].pledge_id].status != PledgeStatus::Active {
        Err(Error::PledgeNotActive)
    } else if !s.positions.contains_key(s.pledges[s.lines[credit_line_id].pledge_id].position_id) {
        Err(Error::PositionNotFound)
    } else {
        let l = s.lines[credit_line_id];
        let pl = s.pledges[l.pledge_id];
        let pos = VaultPosition { status: PositionStatus::ReleasePending, ..s.positions[pl.position_id] };
        let s1 = LedgerState {
            positions: s.positions.insert(pl.position_id, pos),
            pledges: s.pledges.insert(l.pledge_id, Pledge { status: PledgeStatus::ReleaseAuthorized, ..pl }),
            lines: s.lines.insert(credit_line_id, CreditLine { status: LineStatus::Closed, ..l }),
            ..s
        };
        emit_for_line(
            s,
            s1,
            credit_line_id,
            EntityKind::Release,
            CollateralAction::ReleaseAuthorized,
            bank,
            Role::Bank,
            Bytes32::spec_zero(),
            StateLabel::PledgeActive,
            StateLabel::PledgeReleaseAuthorized,
            payoff_letter_hash,
            Bytes32::spec_zero(),
            CollateralPayloadV1::Hash(HashData { hash: payoff_letter_hash }),
            env,
        )
    }
}

pub open spec fn step_custodian_confirm_release(
    s: LedgerState,
    pledge_id: Bytes32,
    custodian: Address,
    release_notice_hash: Bytes32,
    env: LedgerEnv,
) -> Result<(LedgerState, CollateralEventV1), Error> {
    if !s.approved(custodian, Role::Custodian) {
        Err(Error::PartyNotApproved)
    } else if !s.pledges.contains_key(pledge_id) {
        Err(Error::PledgeNotFound)
    } else if s.pledges[pledge_id].status != PledgeStatus::ReleaseAuthorized {
        Err(Error::PledgeNotActive)
    } else if !s.positions.contains_key(s.pledges[pledge_id].position_id) {
        Err(Error::PositionNotFound)
    } else if s.positions[s.pledges[pledge_id].position_id].custodian != custodian {
        Err(Error::NotAuthorized)
    } else if s.positions[s.pledges[pledge_id].position_id].status != PositionStatus::ReleasePending {
        Err(Error::PositionNotReleasePending)
    } else if release_notice_hash.spec_is_zero() {
        Err(Error::InvalidDocumentHash)
    } else {
        let pl = s.pledges[pledge_id];
        let p = s.positions[pl.position_id];
        let framework_id = if s.ctx_pledge.contains_key(pledge_id) {
            s.ctx_pledge[pledge_id].framework_id
        } else {
            p.framework_id
        };
        let s1 = LedgerState {
            positions: s.positions.insert(pl.position_id, VaultPosition { status: PositionStatus::Released, ..p }),
            pledges: s.pledges.insert(pledge_id, Pledge { status: PledgeStatus::Released, ..pl }),
            bar_sets: s.bar_sets.remove(p.serials_hash),
            ..s
        };
        Ok(
            s1.emit(
                event_template(
                    framework_id,
                    EntityKind::Release,
                    CollateralAction::ReleaseConfirmed,
                    custodian,
                    Role::Custodian,
                    pl.position_id,
                    pledge_id,
                    Bytes32::spec_zero(),
                    Bytes32::spec_zero(),
                    StateLabel::PledgeReleaseAuthorized,
                    StateLabel::PledgeReleased,
                    release_notice_hash,
                    Bytes32::spec_zero(),
                    CollateralPayloadV1::Hash(HashData { hash: release_notice_hash }),
                ),
                env,
            ),
        )
    }
}

pub open spec fn step_issue_default_notice(
    s: LedgerState,
    credit_line_id: Bytes32,
    bank: Address,
    cure_deadline_ledger: u32,
    notice_hash: Bytes32,
    env: LedgerEnv,
) -> Result<(LedgerState, CollateralEventV1), Error> {
    if !s.approved(bank, Role::Bank) {
        Err(Error::PartyNotApproved)
    } else if notice_hash.spec_is_zero() {
        Err(Error::InvalidDocumentHash)
    } else if cure_deadline_ledger <= env.sequence {
        Err(Error::CureDeadlineNotFuture)
    } else if !s.lines.contains_key(credit_line_id) {
        Err(Error::LineNotFound)
    } else if s.lines[credit_line_id].bank != bank {
        Err(Error::NotAuthorized)
    } else if s.lines[credit_line_id].status != LineStatus::Active && s.lines[credit_line_id].status
        != LineStatus::Suspended {
        Err(Error::LineNotActive)
    } else if !s.pledges.contains_key(s.lines[credit_line_id].pledge_id) {
        Err(Error::PledgeNotFound)
    } else if s.pledges[s.lines[credit_line_id].pledge_id].status != PledgeStatus::Active {
        Err(Error::PledgeNotActive)
    } else {
        let l = s.lines[credit_line_id];
        let pl = s.pledges[l.pledge_id];
        let s1 = LedgerState {
            lines: s.lines.insert(
                credit_line_id,
                CreditLine { status: LineStatus::Defaulted, cure_expiry_ledger: cure_deadline_ledger, ..l },
            ),
            pledges: s.pledges.insert(l.pledge_id, Pledge { status: PledgeStatus::Defaulted, ..pl }),
            ..s
        };
        emit_for_line(
            s,
            s1,
            credit_line_id,
            EntityKind::Default,
            CollateralAction::DefaultNoticeIssued,
            bank,
            Role::Bank,
            Bytes32::spec_zero(),
            line_label(l.status),
            StateLabel::LineDefaulted,
            notice_hash,
            Bytes32::spec_zero(),
            CollateralPayloadV1::DefaultNotice(DefaultNoticeData { cure_deadline_ledger, notice_hash }),
            env,
        )
    }
}

pub open spec fn step_cure_default(
    s: LedgerState,
    credit_line_id: Bytes32,
    cardholder: Address,
    cure_evidence_hash: Bytes32,
    env: LedgerEnv,
) -> Result<(LedgerState, CollateralEventV1), Error> {
    if cure_evidence_hash.spec_is_zero() {
        Err(Error::InvalidDocumentHash)
    } else if !s.lines.contains_key(credit_line_id) {
        Err(Error::LineNotFound)
    } else if s.lines[credit_line_id].cardholder != cardholder {
        Err(Error::NotAuthorized)
    } else if s.lines[credit_line_id].status != LineStatus::Defaulted {
        Err(Error::NotDefaulted)
    } else if !s.pledges.contains_key(s.lines[credit_line_id].pledge_id) {
        Err(Error::PledgeNotFound)
    } else {
        let l = s.lines[credit_line_id];
        let pl = s.pledges[l.pledge_id];
        let s1 = LedgerState {
            lines: s.lines.insert(
                credit_line_id,
                CreditLine { status: LineStatus::Active, cure_expiry_ledger: 0, ..l },
            ),
            pledges: s.pledges.insert(l.pledge_id, Pledge { status: PledgeStatus::Active, ..pl }),
            ..s
        };
        emit_for_line(
            s,
            s1,
            credit_line_id,
            EntityKind::Default,
            CollateralAction::DefaultCured,
            cardholder,
            Role::Owner,
            Bytes32::spec_zero(),
            StateLabel::LineDefaulted,
            StateLabel::LineActive,
            cure_evidence_hash,
            Bytes32::spec_zero(),
            CollateralPayloadV1::Hash(HashData { hash: cure_evidence_hash }),
            env,
        )
    }
}

pub open spec fn step_record_enforcement(
    s: LedgerState,
    credit_line_id: Bytes32,
    bank: Address,
    enforcement_outcome: EnforcementOutcome,
    legal_instrument_hash: Bytes32,
    env: LedgerEnv,
) -> Result<(LedgerState, CollateralEventV1), Error> {
    if !s.approved(bank, Role::Bank) {
        Err(Error::PartyNotApproved)
    } else if !s.lines.contains_key(credit_line_id) {
        Err(Error::LineNotFound)
    } else if s.lines[credit_line_id].bank != bank {
        Err(Error::NotAuthorized)
    } else if s.lines[credit_line_id].status != LineStatus::Defaulted {
        Err(Error::NotDefaulted)
    } else if env.sequence <= s.lines[credit_line_id].cure_expiry_ledger {
        Err(Error::CurePeriodNotExpired)
    } else if legal_instrument_hash.spec_is_zero() {
        Err(Error::InvalidDocumentHash)
    } else if !s.pledges.contains_key(s.lines[credit_line_id].pledge_id) {
        Err(Error::PledgeNotFound)
    } else if s.pledges[s.lines[credit_line_id].pledge_id].status == PledgeStatus::Enforced {
        Err(Error::AlreadyEnforced)
    } else if !s.positions.contains_key(s.pledges[s.lines[credit_line_id].pledge_id].position_id) {
        Err(Error::PositionNotFound)
    } else {
        let l = s.lines[credit_line_id];
        let pl = s.pledges[l.pledge_id];
        let p = s.positions[pl.position_id];
        let s1 = LedgerState {
            pledges: s.pledges.insert(l.pledge_id, Pledge { status: PledgeStatus::Enforced, ..pl }),
            positions: s.positions.insert(pl.position_id, VaultPosition { status: PositionStatus::Enforced, ..p }),
            lines: s.lines.insert(credit_line_id, CreditLine { status: LineStatus::Closed, ..l }),
            bar_sets: s.bar_sets.remove(p.serials_hash),
            ..s
        };
        emit_for_line(
            s,
            s1,
            credit_line_id,
            EntityKind::Enforcement,
            CollateralAction::EnforcementRecorded,
            bank,
            Role::Bank,
            Bytes32::spec_zero(),
            StateLabel::PledgeDefaulted,
            StateLabel::PledgeEnforced,
            legal_instrument_hash,
            Bytes32::spec_zero(),
            CollateralPayloadV1::Enforcement(
                EnforcementData { outcome: enforcement_outcome, legal_instrument_hash },
            ),
            env,
        )
    }
}

impl CreditLedger {
    /// Stage one of release: the line's approved bank releases its security
    /// interest on a fully repaid line with an Active pledge. The line closes,
    /// the pledge becomes ReleaseAuthorized, the position ReleasePending.
    pub fn bank_authorize_release(
        &mut self,
        credit_line_id: Bytes32,
        bank: Address,
        payoff_letter_hash: Bytes32,
        env: LedgerEnv,
    ) -> (r: Result<CollateralEventV1, Error>)
        requires
            old(self).wf(),
            old(self)@.seq_room_for(
                step_bank_authorize_release(
                    old(self)@,
                    credit_line_id,
                    bank,
                    payoff_letter_hash,
                    env,
                ),
            ),
        ensures
            final(self).wf(),
            outcome(
                old(self)@,
                final(self)@,
                r,
                step_bank_authorize_release(old(self)@, credit_line_id, bank, payoff_letter_hash, env),
            ),
    {
        if !self.is_approved(bank, Role::Bank) {
            return Err(Error::PartyNotApproved);
        }
        if payoff_letter_hash.is_zero() {
            return Err(Error::InvalidDocumentHash);
        }
        let l = self.load_line(&credit_line_id)?;
        if l.bank != bank {
            return Err(Error::NotAuthorized);
        }
        if l.drawn_balance != 0 {
            return Err(Error::OutstandingBalance);
        }
        let pl = self.load_pledge(&l.pledge_id)?;
        if pl.status != PledgeStatus::Active {
            return Err(Error::PledgeNotActive);
        }
        let p = self.load_position(&pl.position_id)?;
        let ctx = self.line_context(&credit_line_id)?;
        let pos = VaultPosition { status: PositionStatus::ReleasePending, ..p };
        let pledge = Pledge { status: PledgeStatus::ReleaseAuthorized, ..pl };
        let line = CreditLine { status: LineStatus::Closed, ..l };
        self.positions.set(pl.position_id, pos);
        self.pledges.set(l.pledge_id, pledge);
        self.lines.set(credit_line_id, line);
        let ev = Self::template(
            ctx.framework_id,
            EntityKind::Release,
            CollateralAction::ReleaseAuthorized,
            bank,
            Role::Bank,
            ctx.position_id,
            ctx.pledge_id,
            credit_line_id,
            Bytes32::zero(),
            StateLabel::PledgeActive,
            StateLabel::PledgeReleaseAuthorized,
            payoff_letter_hash,
            Bytes32::zero(),
            CollateralPayloadV1::Hash(HashData { hash: payoff_letter_hash }),
        );
        proof {
            assert(self@ =~= LedgerState {
                positions: old(self)@.positions.insert(pl.position_id, pos),
                pledges: old(self)@.pledges.insert(l.pledge_id, pledge),
                lines: old(self)@.lines.insert(credit_line_id, line),
                ..old(self)@
            });
        }
        Ok(self.emit(ev, env))
    }

    /// Stage two of release: the position's approved custodian confirms it
    /// returned possession. Position and pledge become Released and the bar
    /// set is unlocked for future registration.
    pub fn custodian_confirm_release(
        &mut self,
        pledge_id: Bytes32,
        custodian: Address,
        release_notice_hash: Bytes32,
        env: LedgerEnv,
    ) -> (r: Result<CollateralEventV1, Error>)
        requires
            old(self).wf(),
            old(self)@.seq_room_for(
                step_custodian_confirm_release(
                    old(self)@,
                    pledge_id,
                    custodian,
                    release_notice_hash,
                    env,
                ),
            ),
        ensures
            final(self).wf(),
            outcome(
                old(self)@,
                final(self)@,
                r,
                step_custodian_confirm_release(old(self)@, pledge_id, custodian, release_notice_hash, env),
            ),
    {
        if !self.is_approved(custodian, Role::Custodian) {
            return Err(Error::PartyNotApproved);
        }
        let pl = self.load_pledge(&pledge_id)?;
        if pl.status != PledgeStatus::ReleaseAuthorized {
            return Err(Error::PledgeNotActive);
        }
        let p = self.load_position(&pl.position_id)?;
        if p.custodian != custodian {
            return Err(Error::NotAuthorized);
        }
        if p.status != PositionStatus::ReleasePending {
            return Err(Error::PositionNotReleasePending);
        }
        if release_notice_hash.is_zero() {
            return Err(Error::InvalidDocumentHash);
        }
        let framework_id = match self.ctx_pledge.get(&pledge_id) {
            Some(c) => c.framework_id,
            None => p.framework_id,
        };
        let pos = VaultPosition { status: PositionStatus::Released, ..p };
        let pledge = Pledge { status: PledgeStatus::Released, ..pl };
        self.bar_sets.remove(&p.serials_hash);
        self.positions.set(pl.position_id, pos);
        self.pledges.set(pledge_id, pledge);
        let ev = Self::template(
            framework_id,
            EntityKind::Release,
            CollateralAction::ReleaseConfirmed,
            custodian,
            Role::Custodian,
            pl.position_id,
            pledge_id,
            Bytes32::zero(),
            Bytes32::zero(),
            StateLabel::PledgeReleaseAuthorized,
            StateLabel::PledgeReleased,
            release_notice_hash,
            Bytes32::zero(),
            CollateralPayloadV1::Hash(HashData { hash: release_notice_hash }),
        );
        proof {
            assert(self@ =~= LedgerState {
                positions: old(self)@.positions.insert(pl.position_id, pos),
                pledges: old(self)@.pledges.insert(pledge_id, pledge),
                bar_sets: old(self)@.bar_sets.remove(p.serials_hash),
                ..old(self)@
            });
        }
        Ok(self.emit(ev, env))
    }

    /// The line's approved bank defaults an Active or Suspended line whose
    /// pledge is Active, setting a cure deadline after the current ledger.
    pub fn issue_default_notice(
        &mut self,
        credit_line_id: Bytes32,
        bank: Address,
        cure_deadline_ledger: u32,
        notice_hash: Bytes32,
        env: LedgerEnv,
    ) -> (r: Result<CollateralEventV1, Error>)
        requires
            old(self).wf(),
            old(self)@.seq_room_for(
                step_issue_default_notice(
                    old(self)@,
                    credit_line_id,
                    bank,
                    cure_deadline_ledger,
                    notice_hash,
                    env,
                ),
            ),
        ensures
            final(self).wf(),
            outcome(
                old(self)@,
                final(self)@,
                r,
                step_issue_default_notice(
                    old(self)@,
                    credit_line_id,
                    bank,
                    cure_deadline_ledger,
                    notice_hash,
                    env,
                ),
            ),
    {
        if !self.is_approved(bank, Role::Bank) {
            return Err(Error::PartyNotApproved);
        }
        if notice_hash.is_zero() {
            return Err(Error::InvalidDocumentHash);
        }
        if cure_deadline_ledger <= env.sequence {
            return Err(Error::CureDeadlineNotFuture);
        }
        let l = self.load_line(&credit_line_id)?;
        if l.bank != bank {
            return Err(Error::NotAuthorized);
        }
        if l.status != LineStatus::Active && l.status != LineStatus::Suspended {
            return Err(Error::LineNotActive);
        }
        let pl = self.load_pledge(&l.pledge_id)?;
        if pl.status != PledgeStatus::Active {
            return Err(Error::PledgeNotActive);
        }
        let ctx = self.line_context(&credit_line_id)?;
        let line = CreditLine { status: LineStatus::Defaulted, cure_expiry_ledger: cure_deadline_ledger, ..l };
        let pledge = Pledge { status: PledgeStatus::Defaulted, ..pl };
        self.lines.set(credit_line_id, line);
        self.pledges.set(l.pledge_id, pledge);
        let ev = Self::template(
            ctx.framework_id,
            EntityKind::Default,
            CollateralAction::DefaultNoticeIssued,
            bank,
            Role::Bank,
            ctx.position_id,
            ctx.pledge_id,
            credit_line_id,
            Bytes32::zero(),
            StateLabel::from_line(l.status),
            StateLabel::LineDefaulted,
            notice_hash,
            Bytes32::zero(),
            CollateralPayloadV1::DefaultNotice(DefaultNoticeData { cure_deadline_ledger, notice_hash }),
        );
        proof {
            assert(self@ =~= LedgerState {
                lines: old(self)@.lines.insert(credit_line_id, line),
                pledges: old(self)@.pledges.insert(l.pledge_id, pledge),
                ..old(self)@
            });
        }
        Ok(self.emit(ev, env))
    }

    /// The cardholder cures a Defaulted line, at any time until enforcement
    /// is recorded: the line and pledge return to Active.
    pub fn cure_default(
        &mut self,
        credit_line_id: Bytes32,
        cardholder: Address,
        cure_evidence_hash: Bytes32,
        env: LedgerEnv,
    ) -> (r: Result<CollateralEventV1, Error>)
        requires
            old(self).wf(),
            old(self)@.seq_room_for(
                step_cure_default(
                    old(self)@,
                    credit_line_id,
                    cardholder,
                    cure_evidence_hash,
                    env,
                ),
            ),
        ensures
            final(self).wf(),
            outcome(
                old(self)@,
                final(self)@,
                r,
                step_cure_default(old(self)@, credit_line_id, cardholder, cure_evidence_hash, env),
            ),
    {
        if cure_evidence_hash.is_zero() {
            return Err(Error::InvalidDocumentHash);
        }
        let l = self.load_line(&credit_line_id)?;
        if l.cardholder != cardholder {
            return Err(Error::NotAuthorized);
        }
        if l.status != LineStatus::Defaulted {
            return Err(Error::NotDefaulted);
        }
        let pl = self.load_pledge(&l.pledge_id)?;
        let ctx = self.line_context(&credit_line_id)?;
        let line = CreditLine { status: LineStatus::Active, cure_expiry_ledger: 0, ..l };
        let pledge = Pledge { status: PledgeStatus::Active, ..pl };
        self.lines.set(credit_line_id, line);
        self.pledges.set(l.pledge_id, pledge);
        let ev = Self::template(
            ctx.framework_id,
            EntityKind::Default,
            CollateralAction::DefaultCured,
            cardholder,
            Role::Owner,
            ctx.position_id,
            ctx.pledge_id,
            credit_line_id,
            Bytes32::zero(),
            StateLabel::LineDefaulted,
            StateLabel::LineActive,
            cure_evidence_hash,
            Bytes32::zero(),
            CollateralPayloadV1::Hash(HashData { hash: cure_evidence_hash }),
        );
        proof {
            assert(self@ =~= LedgerState {
                lines: old(self)@.lines.insert(credit_line_id, line),
                pledges: old(self)@.pledges.insert(l.pledge_id, pledge),
                ..old(self)@
            });
        }
        Ok(self.emit(ev, env))
    }

    /// The line's approved bank records the enforcement outcome of an uncured
    /// default once the cure period has expired. Pledge and position become
    /// Enforced, the line closes, and the bar set is unlocked.
    pub fn record_enforcement(
        &mut self,
        credit_line_id: Bytes32,
        bank: Address,
        enforcement_outcome: EnforcementOutcome,
        legal_instrument_hash: Bytes32,
        env: LedgerEnv,
    ) -> (r: Result<CollateralEventV1, Error>)
        requires
            old(self).wf(),
            old(self)@.seq_room_for(
                step_record_enforcement(
                    old(self)@,
                    credit_line_id,
                    bank,
                    enforcement_outcome,
                    legal_instrument_hash,
                    env,
                ),
            ),
        ensures
            final(self).wf(),
            outcome(
                old(self)@,
                final(self)@,
                r,
                step_record_enforcement(
                    old(self)@,
                    credit_line_id,
                    bank,
                    enforcement_outcome,
                    legal_instrument_hash,
                    env,
                ),
            ),
    {
        if !self.is_approved(bank, Role::Bank) {
            return Err(Error::PartyNotApproved);
        }
        let l = self.load_line(&credit_line_id)?;
        if l.bank != bank {
            return Err(Error::NotAuthorized);
        }
        if l.status != LineStatus::Defaulted {
            return Err(Error::NotDefaulted);
        }
        if env.sequence <= l.cure_expiry_ledger {
            return Err(Error::CurePeriodNotExpired);
        }
        if legal_instrument_hash.is_zero() {
            return Err(Error::InvalidDocumentHash);
        }
        let pl = self.load_pledge(&l.pledge_id)?;
        if pl.status == PledgeStatus::Enforced {
            return Err(Error::AlreadyEnforced);
        }
        let p = self.load_position(&pl.position_id)?;
        let ctx = self.line_context(&credit_line_id)?;
        let pledge = Pledge { status: PledgeStatus::Enforced, ..pl };
        let pos = VaultPosition { status: PositionStatus::Enforced, ..p };
        let line = CreditLine { status: LineStatus::Closed, ..l };
        self.bar_sets.remove(&p.serials_hash);
        self.pledges.set(l.pledge_id, pledge);
        self.positions.set(pl.position_id, pos);
        self.lines.set(credit_line_id, line);
        let ev = Self::template(
            ctx.framework_id,
            EntityKind::Enforcement,
            CollateralAction::EnforcementRecorded,
            bank,
            Role::Bank,
            ctx.position_id,
            ctx.pledge_id,
            credit_line_id,
            Bytes32::zero(),
            StateLabel::PledgeDefaulted,
            StateLabel::PledgeEnforced,
            legal_instrument_hash,
            Bytes32::zero(),
            CollateralPayloadV1::Enforcement(
                EnforcementData { outcome: enforcement_outcome, legal_instrument_hash },
            ),
        );
        proof {
            assert(self@ =~= LedgerState {
                pledges: old(self)@.pledges.insert(l.pledge_id, pledge),
                positions: old(self)@.positions.insert(pl.position_id, pos),
                lines: old(self)@.lines.insert(credit_line_id, line),
                bar_sets: old(self)@.bar_sets.remove(p.serials_hash),
                ..old(self)@
            });
        }
        Ok(self.emit(ev, env))
    }
}

} // verus!
