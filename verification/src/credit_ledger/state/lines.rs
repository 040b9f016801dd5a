//! Credit lines: opening, card drawdowns and their reversal, repayments, and
//! the bank's deliberate stop and resume.
use vstd::prelude::*;

use crate::primitives::{Address, Bytes32};
use crate::credit_ledger::error::Error;
use crate::credit_ledger::event::{
    line_label, BalanceMoveData, CollateralAction, CollateralEventV1, CollateralPayloadV1,
    EntityKind, FacilityContext, LineOpenedData, StateLabel,
};
use crate::credit_ledger::types::{
    CreditLine, DrawdownRecord, LedgerEnv, LineStatus, PledgeStatus, RepaymentRecord, Role,
};
use super::{borrowing_base_spec, event_template, fits_i128, min_i128, outcome, CreditLedger, LedgerState};

verus! {

/// The facility context a new line inherits from its pledge.
pub open spec fn pledge_context(s: LedgerState, pledge_id: Bytes32) -> FacilityContext {
    if s.ctx_pledge.contains_key(pledge_id) {
        s.ctx_pledge[pledge_id]
    } else {
        FacilityContext {
            framework_id: s.positions[s.pledges[pledge_id].position_id].framework_id,
            position_id: s.pledges[pledge_id].position_id,
            pledge_id,
        }
    }
}

pub open spec fn step_open_credit_line(
    s: LedgerState,
    credit_line_id: Bytes32,
    pledge_id: Bytes32,
    bank: Address,
    cardholder: Address,
    approved_limit: i128,
    ltv_bps: u32,
    maintenance_bps: u32,
    price_per_oz_e7: i128,
    env: LedgerEnv,
) -> Result<(LedgerState, CollateralEventV1), Error> {
    if !s.approved(bank, Role::Bank) {
        Err(Error::PartyNotApproved)
    } else if s.lines.contains_key(credit_line_id) {
        Err(Error::LineExists)
    } else if s.line_for_pledge.contains_key(pledge_id) {
        Err(Error::PledgeAlreadyHasLine)
    } else if !s.pledges.contains_key(pledge_id) {
        Err(Error::PledgeNotFound)
    } else if s.pledges[pledge_id].status != PledgeStatus::Active {
        Err(Error::PledgeNotActive)
    } else if s.pledges[pledge_id].bank != bank {
        Err(Error::NotAuthorized)
    } else if cardholder != s.pledges[pledge_id].pledgor {
        Err(Error::NotAuthorized)
    } else if approved_limit <= 0 || price_per_oz_e7 <= 0 {
        Err(Error::AmountNotPositive)
    } else if ltv_bps == 0 || ltv_bps >= maintenance_bps || maintenance_bps > 10_000 {
        Err(Error::InvalidRiskParams)
    } else if !s.positions.contains_key(s.pledges[pledge_id].position_id) {
        Err(Error::PositionNotFound)
    } else {
        let pos = s.positions[s.pledges[pledge_id].position_id];
        match borrowing_base_spec(pos.fine_weight_oz_e7, price_per_oz_e7, ltv_bps) {
            Err(e) => Err(e),
            Ok(base) => if approved_limit > base {
                Err(Error::LimitExceedsBorrowingBase)
            } else {
                let line = CreditLine {
                    pledge_id,
                    bank,
                    cardholder,
                    approved_limit,
                    drawn_balance: 0,
                    available_limit: approved_limit,
                    ltv_bps,
                    maintenance_bps,
                    cure_expiry_ledger: 0,
                    manual_bank_suspension: false,
                    status: LineStatus::Active,
                };
                let ctx = pledge_context(s, pledge_id);
                let zero = Bytes32::spec_zero();
                let s1 = LedgerState {
                    lines: s.lines.insert(credit_line_id, line),
                    line_for_pledge: s.line_for_pledge.insert(pledge_id, credit_line_id),
                    ctx_line: s.ctx_line.insert(credit_line_id, ctx),
                    ..s
                };
                Ok(
                    s1.emit(
                        event_template(
                            ctx.framework_id,
                            EntityKind::Line,
                            CollateralAction::LineOpened,
                            bank,
                            Role::Bank,
                            ctx.position_id,
                            pledge_id,
                            credit_line_id,
                            zero,
                            StateLabel::Null,
                            StateLabel::LineActive,
                            zero,
                            zero,
                            CollateralPayloadV1::LineOpened(
                                LineOpenedData { approved_limit, ltv_bps, maintenance_bps, price_per_oz_e7 },
                            ),
                        ),
                        env,
                    ),
                )
            },
        }
    }
}

/// Emit a line-scoped event from `s1`, resolving the line's context in `s`.
pub open spec fn emit_for_line(
    s: LedgerState,
    s1: LedgerState,
    credit_line_id: Bytes32,
    entity: EntityKind,
    action: CollateralAction,
    actor: Address,
    role: Role,
    adjustment_id: Bytes32,
    previous_state: StateLabel,
    new_state: StateLabel,
    evidence_hash: Bytes32,
    valuation_ref: Bytes32,
    payload: CollateralPayloadV1,
    env: LedgerEnv,
) -> Result<(LedgerState, CollateralEventV1), Error> {
    match s.line_ctx(credit_line_id) {
        Err(e) => Err(e),
        Ok(ctx) => Ok(
            s1.emit(
                event_template(
                    ctx.framework_id,
                    entity,
                    action,
                    actor,
                    role,
                    ctx.position_id,
                    ctx.pledge_id,
                    credit_line_id,
                    adjustment_id,
                    previous_state,
                    new_state,
                    evidence_hash,
                    valuation_ref,
                    payload,
                ),
                env,
            ),
        ),
    }
}

pub open spec fn step_record_drawdown(
    s: LedgerState,
    credit_line_id: Bytes32,
    processor: Address,
    auth_ref: Bytes32,
    amount: i128,
    env: LedgerEnv,
) -> Result<(LedgerState, CollateralEventV1), Error> {
    if !s.approved(processor, Role::Processor) {
        Err(Error::PartyNotApproved)
    } else if amount <= 0 {
        Err(Error::AmountNotPositive)
    } else if s.draws.contains_key(auth_ref) {
        Err(Error::DuplicateAuthRef)
    } else if !s.lines.contains_key(credit_line_id) {
        Err(Error::LineNotFound)
    } else if s.lines[credit_line_id].status != LineStatus::Active {
        Err(Error::LineNotActive)
    } else if !s.pledges.contains_key(s.lines[credit_line_id].pledge_id) {
        Err(Error::PledgeNotFound)
    } else if s.pledges[s.lines[credit_line_id].pledge_id].status != PledgeStatus::Active {
        Err(Error::PledgeNotActive)
    } else if s.lines[credit_line_id].available_limit < amount {
        Err(Error::InsufficientCapacity)
    } else {
        let l = s.lines[credit_line_id];
        let line = CreditLine {
            drawn_balance: (l.drawn_balance + amount) as i128,
            available_limit: (l.available_limit - amount) as i128,
            ..l
        };
        let record = DrawdownRecord {
            credit_line_id,
            amount,
            drawn_at_ledger: env.sequence,
            reversed: false,
        };
        let s1 = LedgerState {
            lines: s.lines.insert(credit_line_id, line),
            draws: s.draws.insert(auth_ref, record),
            ..s
        };
        emit_for_line(
            s,
            s1,
            credit_line_id,
            EntityKind::Drawdown,
            CollateralAction::DrawdownRecorded,
            processor,
            Role::Processor,
            Bytes32::spec_zero(),
            StateLabel::LineActive,
            StateLabel::LineActive,
            auth_ref,
            Bytes32::spec_zero(),
            CollateralPayloadV1::BalanceMove(
                BalanceMoveData {
                    amount,
                    drawn_after: line.drawn_balance,
                    available_after: line.available_limit,
                },
            ),
            env,
        )
    }
}

/// The drawn balance can absorb `amount` without leaving the i128 range.
pub open spec fn draw_fits(s: LedgerState, credit_line_id: Bytes32, amount: i128) -> bool {
    amount > 0 && s.lines.contains_key(credit_line_id) ==> fits_i128(
        s.lines[credit_line_id].drawn_balance + amount,
    )
}

pub open spec fn step_reverse_drawdown(
    s: LedgerState,
    credit_line_id: Bytes32,
    processor: Address,
    auth_ref: Bytes32,
    amount: i128,
    env: LedgerEnv,
) -> Result<(LedgerState, CollateralEventV1), Error> {
    if !s.approved(processor, Role::Processor) {
        Err(Error::PartyNotApproved)
    } else if amount <= 0 {
        Err(Error::AmountNotPositive)
    } else if !s.draws.contains_key(auth_ref) || s.draws[auth_ref].reversed {
        Err(Error::NothingToReverse)
    } else if s.draws[auth_ref].credit_line_id != credit_line_id {
        Err(Error::LineNotFound)
    } else if amount != s.draws[auth_ref].amount {
        Err(Error::ReversalAmountMismatch)
    } else if !s.lines.contains_key(credit_line_id) {
        Err(Error::LineNotFound)
    } else if s.lines[credit_line_id].status == LineStatus::Closed {
        Err(Error::LineNotActive)
    } else {
        let l = s.lines[credit_line_id];
        let line = CreditLine {
            drawn_balance: (l.drawn_balance - amount) as i128,
            available_limit: (l.available_limit + amount) as i128,
            ..l
        };
        let record = DrawdownRecord { reversed: true, ..s.draws[auth_ref] };
        let s1 = LedgerState {
            lines: s.lines.insert(credit_line_id, line),
            draws: s.draws.insert(auth_ref, record),
            ..s
        };
        emit_for_line(
            s,
            s1,
            credit_line_id,
            EntityKind::Drawdown,
            CollateralAction::DrawdownReversed,
            processor,
            Role::Processor,
            Bytes32::spec_zero(),
            line_label(l.status),
            line_label(l.status),
            auth_ref,
            Bytes32::spec_zero(),
            CollateralPayloadV1::BalanceMove(
                BalanceMoveData {
                    amount,
                    drawn_after: line.drawn_balance,
                    available_after: line.available_limit,
                },
            ),
            env,
        )
    }
}

/// Unwinding `amount` keeps both balances in the i128 range.
pub open spec fn unwind_fits(s: LedgerState, credit_line_id: Bytes32, amount: i128) -> bool {
    amount > 0 && s.lines.contains_key(credit_line_id) ==> fits_i128(
        s.lines[credit_line_id].drawn_balance - amount,
    ) && fits_i128(s.lines[credit_line_id].available_limit + amount)
}

pub open spec fn step_apply_repayment(
    s: LedgerState,
    credit_line_id: Bytes32,
    vault: Address,
    payment_ref: Bytes32,
    amount: i128,
    env: LedgerEnv,
) -> Result<(LedgerState, CollateralEventV1), Error> {
    if s.settlement_vault is None {
        Err(Error::NotInitialized)
    } else if vault != s.settlement_vault.unwrap() {
        Err(Error::PartyNotApproved)
    } else if !s.approved(vault, Role::Vault) {
        Err(Error::PartyNotApproved)
    } else if amount <= 0 {
        Err(Error::AmountNotPositive)
    } else if s.repayments.contains_key(payment_ref) {
        Err(Error::DuplicatePaymentRef)
    } else if !s.lines.contains_key(credit_line_id) {
        Err(Error::LineNotFound)
    } else if s.lines[credit_line_id].status == LineStatus::Closed {
        Err(Error::LineNotActive)
    } else if amount > s.lines[credit_line_id].drawn_balance {
        Err(Error::RepaymentExceedsOutstandingBalance)
    } else {
        let l = s.lines[credit_line_id];
        let line = CreditLine {
            drawn_balance: (l.drawn_balance - amount) as i128,
            available_limit: (l.available_limit + amount) as i128,
            ..l
        };
        let record = RepaymentRecord {
            credit_line_id,
            amount_applied: amount,
            applied_at_ledger: env.sequence,
        };
        let s1 = LedgerState {
            lines: s.lines.insert(credit_line_id, line),
            repayments: s.repayments.insert(payment_ref, record),
            ..s
        };
        emit_for_line(
            s,
            s1,
            credit_line_id,
            EntityKind::Repayment,
            CollateralAction::RepaymentApplied,
            vault,
            Role::Vault,
            Bytes32::spec_zero(),
            line_label(l.status),
            line_label(l.status),
            payment_ref,
            Bytes32::spec_zero(),
            CollateralPayloadV1::BalanceMove(
                BalanceMoveData {
                    amount,
                    drawn_after: line.drawn_balance,
                    available_after: line.available_limit,
                },
            ),
            env,
        )
    }
}

/// Restoring `amount` of capacity keeps it in the i128 range.
pub open spec fn repay_fits(s: LedgerState, credit_line_id: Bytes32, amount: i128) -> bool {
    amount > 0 && s.lines.contains_key(credit_line_id) ==> fits_i128(
        s.lines[credit_line_id].available_limit + amount,
    )
}

pub open spec fn step_bank_suspend_line(
    s: LedgerState,
    credit_line_id: Bytes32,
    bank: Address,
    reason_hash: Bytes32,
    env: LedgerEnv,
) -> Result<(LedgerState, CollateralEventV1), Error> {
    if !s.approved(bank, Role::Bank) {
        Err(Error::PartyNotApproved)
    } else if reason_hash.spec_is_zero() {
        Err(Error::InvalidDocumentHash)
    } else if !s.lines.contains_key(credit_line_id) {
        Err(Error::LineNotFound)
    } else if s.lines[credit_line_id].bank != bank {
        Err(Error::NotAuthorized)
    } else if s.lines[credit_line_id].status == LineStatus::Closed
        || s.lines[credit_line_id].status == LineStatus::Defaulted {
        Err(Error::LineNotActive)
    } else {
        let l = s.lines[credit_line_id];
        let line = CreditLine {
            manual_bank_suspension: true,
            status: LineStatus::Suspended,
            available_limit: 0,
            ..l
        };
        let s1 = LedgerState { lines: s.lines.insert(credit_line_id, line), ..s };
        emit_for_line(
            s,
            s1,
            credit_line_id,
            EntityKind::Line,
            CollateralAction::LineSuspendedByBank,
            bank,
            Role::Bank,
            Bytes32::spec_zero(),
            line_label(l.status),
            StateLabel::LineSuspended,
            reason_hash,
            Bytes32::spec_zero(),
            CollateralPayloadV1::BalanceMove(
                BalanceMoveData { amount: 0, drawn_after: l.drawn_balance, available_after: 0 },
            ),
            env,
        )
    }
}

/// The cover a resumed line is restored to: the latest advance base capped
/// at the approved limit, or the approved limit before any revaluation.
pub open spec fn resume_cover(s: LedgerState, credit_line_id: Bytes32) -> i128 {
    if s.valuations.contains_key(credit_line_id) {
        min_i128(
            s.valuations[credit_line_id].borrowing_base,
            s.lines[credit_line_id].approved_limit,
        )
    } else {
        s.lines[credit_line_id].approved_limit
    }
}

/// Capacity left under `cover` once the drawn balance is taken out, never negative.
pub open spec fn headroom(cover: i128, drawn: i128) -> i128 {
    if cover - drawn > 0 {
        (cover - drawn) as i128
    } else {
        0
    }
}

pub open spec fn step_bank_resume_line(
    s: LedgerState,
    credit_line_id: Bytes32,
    bank: Address,
    resume_evidence_hash: Bytes32,
    env: LedgerEnv,
) -> Result<(LedgerState, CollateralEventV1), Error> {
    if !s.approved(bank, Role::Bank) {
        Err(Error::PartyNotApproved)
    } else if resume_evidence_hash.spec_is_zero() {
        Err(Error::InvalidDocumentHash)
    } else if !s.lines.contains_key(credit_line_id) {
        Err(Error::LineNotFound)
    } else if s.lines[credit_line_id].bank != bank {
        Err(Error::NotAuthorized)
    } else if !s.lines[credit_line_id].manual_bank_suspension {
        Err(Error::LineNotSuspended)
    } else {
        let l = s.lines[credit_line_id];
        let available = headroom(resume_cover(s, credit_line_id), l.drawn_balance);
        let line = CreditLine {
            manual_bank_suspension: false,
            available_limit: available,
            status: LineStatus::Active,
            ..l
        };
        let s1 = LedgerState { lines: s.lines.insert(credit_line_id, line), ..s };
        emit_for_line(
            s,
            s1,
            credit_line_id,
            EntityKind::Line,
            CollateralAction::LineResumedByBank,
            bank,
            Role::Bank,
            Bytes32::spec_zero(),
            line_label(l.status),
            StateLabel::LineActive,
            resume_evidence_hash,
            Bytes32::spec_zero(),
            CollateralPayloadV1::BalanceMove(
                BalanceMoveData { amount: 0, drawn_after: l.drawn_balance, available_after: available },
            ),
            env,
        )
    }
}

/// The restored capacity can be computed in the i128 range.
pub open spec fn resume_fits(s: LedgerState, credit_line_id: Bytes32) -> bool {
    s.lines.contains_key(credit_line_id) ==> fits_i128(
        resume_cover(s, credit_line_id) - s.lines[credit_line_id].drawn_balance,
    )
}

impl CreditLedger {
    /// Open a credit line against an Active pledge. The bank signs and must be
    /// the pledge's approved bank; the cardholder must be the pledgor and also
    /// signs. The limit may not exceed the borrowing base at `price_per_oz_e7`
    /// and the risk parameters must satisfy 0 < ltv < maintenance <= 10000.
    #[allow(clippy::too_many_arguments)]
    pub fn open_credit_line(
        &mut self,
        credit_line_id: Bytes32,
        pledge_id: Bytes32,
        bank: Address,
        cardholder: Address,
        approved_limit: i128,
        ltv_bps: u32,
        maintenance_bps: u32,
        price_per_oz_e7: i128,
        env: LedgerEnv,
    ) -> (r: Result<CollateralEventV1, Error>)
        requires
            old(self).wf(),
            old(self)@.seq_room_for(
                step_open_credit_line(
                    old(self)@,
                    credit_line_id,
                    pledge_id,
                    bank,
                    cardholder,
                    approved_limit,
                    ltv_bps,
                    maintenance_bps,
                    price_per_oz_e7,
                    env,
                ),
            ),
        ensures
            final(self).wf(),
            outcome(
                old(self)@,
                final(self)@,
                r,
                step_open_credit_line(
                    old(self)@,
                    credit_line_id,
                    pledge_id,
                    bank,
                    cardholder,
                    approved_limit,
                    ltv_bps,
                    maintenance_bps,
                    price_per_oz_e7,
                    env,
                ),
            ),
    {
        if !self.is_approved(bank, Role::Bank) {
            return Err(Error::PartyNotApproved);
        }
        if self.lines.contains(&credit_line_id) {
            return Err(Error::LineExists);
        }
        if self.line_for_pledge.contains(&pledge_id) {
            return Err(Error::PledgeAlreadyHasLine);
        }
        let pledge = self.load_pledge(&pledge_id)?;
        if pledge.status != PledgeStatus::Active {
            return Err(Error::PledgeNotActive);
        }
        if pledge.bank != bank {
            return Err(Error::NotAuthorized);
        }
        if cardholder != pledge.pledgor {
            return Err(Error::NotAuthorized);
        }
        if approved_limit <= 0 || price_per_oz_e7 <= 0 {
            return Err(Error::AmountNotPositive);
        }
        if ltv_bps == 0 || ltv_bps >= maintenance_bps || maintenance_bps > 10_000 {
            return Err(Error::InvalidRiskParams);
        }
        let pos = self.load_position(&pledge.position_id)?;
        let base = Self::borrowing_base(pos.fine_weight_oz_e7, price_per_oz_e7, ltv_bps)?;
        if approved_limit > base {
            return Err(Error::LimitExceedsBorrowingBase);
        }
        let ctx = match self.ctx_pledge.get(&pledge_id) {
            Some(c) => c,
            None => FacilityContext {
                framework_id: pos.framework_id,
                position_id: pledge.position_id,
                pledge_id,
            },
        };
        let line = CreditLine {
            pledge_id,
            bank,
            cardholder,
            approved_limit,
            drawn_balance: 0,
            available_limit: approved_limit,
            ltv_bps,
            maintenance_bps,
            cure_expiry_ledger: 0,
            manual_bank_suspension: false,
            status: LineStatus::Active,
        };
        self.lines.set(credit_line_id, line);
        self.line_for_pledge.set(pledge_id, credit_line_id);
        self.ctx_line.set(credit_line_id, ctx);
        let zero = Bytes32::zero();
        let ev = Self::template(
            ctx.framework_id,
            EntityKind::Line,
            CollateralAction::LineOpened,
            bank,
            Role::Bank,
            ctx.position_id,
            pledge_id,
            credit_line_id,
            zero,
            StateLabel::Null,
            StateLabel::LineActive,
            zero,
            zero,
            CollateralPayloadV1::LineOpened(
                LineOpenedData { approved_limit, ltv_bps, maintenance_bps, price_per_oz_e7 },
            ),
        );
        proof {
            assert(self@ =~= LedgerState {
                lines: old(self)@.lines.insert(credit_line_id, line),
                line_for_pledge: old(self)@.line_for_pledge.insert(pledge_id, credit_line_id),
                ctx_line: old(self)@.ctx_line.insert(credit_line_id, ctx),
                ..old(self)@
            });
        }
        Ok(self.emit(ev, env))
    }

    /// Record a card drawdown by an approved processor, once per `auth_ref`,
    /// on an Active line whose pledge is Active, within available capacity.
    pub fn record_drawdown(
        &mut self,
        credit_line_id: Bytes32,
        processor: Address,
        auth_ref: Bytes32,
        amount: i128,
        env: LedgerEnv,
    ) -> (r: Result<CollateralEventV1, Error>)
        requires
            old(self).wf(),
            old(self)@.seq_room_for(
                step_record_drawdown(
                    old(self)@,
                    credit_line_id,
                    processor,
                    auth_ref,
                    amount,
                    env,
                ),
            ),
            step_record_drawdown(old(self)@, credit_line_id, processor, auth_ref, amount, env) is Ok
                ==> draw_fits(old(self)@, credit_line_id, amount),
        ensures
            final(self).wf(),
            outcome(
                old(self)@,
                final(self)@,
                r,
                step_record_drawdown(old(self)@, credit_line_id, processor, auth_ref, amount, env),
            ),
    {
        if !self.is_approved(processor, Role::Processor) {
            return Err(Error::PartyNotApproved);
        }
        if amount <= 0 {
            return Err(Error::AmountNotPositive);
        }
        if self.draws.contains(&auth_ref) {
            return Err(Error::DuplicateAuthRef);
        }
        let l = self.load_line(&credit_line_id)?;
        if l.status != LineStatus::Active {
            return Err(Error::LineNotActive);
        }
        let pledge = self.load_pledge(&l.pledge_id)?;
        if pledge.status != PledgeStatus::Active {
            return Err(Error::PledgeNotActive);
        }
        if l.available_limit < amount {
            return Err(Error::InsufficientCapacity);
        }
        let ctx = self.line_context(&credit_line_id)?;
        let line = CreditLine {
            drawn_balance: l.drawn_balance + amount,
            available_limit: l.available_limit - amount,
            ..l
        };
        self.lines.set(credit_line_id, line);
        let record = DrawdownRecord {
            credit_line_id,
            amount,
            drawn_at_ledger: env.sequence,
            reversed: false,
        };
        self.draws.set(auth_ref, record);
        let zero = Bytes32::zero();
        let ev = Self::template(
            ctx.framework_id,
            EntityKind::Drawdown,
            CollateralAction::DrawdownRecorded,
            processor,
            Role::Processor,
            ctx.position_id,
            ctx.pledge_id,
            credit_line_id,
            zero,
            StateLabel::LineActive,
            StateLabel::LineActive,
            auth_ref,
            zero,
            CollateralPayloadV1::BalanceMove(
                BalanceMoveData {
                    amount,
                    drawn_after: line.drawn_balance,
                    available_after: line.available_limit,
                },
            ),
        );
        proof {
            assert(self@ =~= LedgerState {
                lines: old(self)@.lines.insert(credit_line_id, line),
                draws: old(self)@.draws.insert(auth_ref, record),
                ..old(self)@
            });
        }
        Ok(self.emit(ev, env))
    }

    /// Reverse a recorded, unreversed drawdown on the same line for exactly
    /// the amount drawn. The record is kept, marked reversed.
    pub fn reverse_drawdown(
        &mut self,
        credit_line_id: Bytes32,
        processor: Address,
        auth_ref: Bytes32,
        amount: i128,
        env: LedgerEnv,
    ) -> (r: Result<CollateralEventV1, Error>)
        requires
            old(self).wf(),
            old(self)@.seq_room_for(
                step_reverse_drawdown(
                    old(self)@,
                    credit_line_id,
                    processor,
                    auth_ref,
                    amount,
                    env,
                ),
            ),
            step_reverse_drawdown(old(self)@, credit_line_id, processor, auth_ref, amount, env) is Ok
                ==> unwind_fits(old(self)@, credit_line_id, amount),
        ensures
            final(self).wf(),
            outcome(
                old(self)@,
                final(self)@,
                r,
                step_reverse_drawdown(old(self)@, credit_line_id, processor, auth_ref, amount, env),
            ),
    {
        if !self.is_approved(processor, Role::Processor) {
            return Err(Error::PartyNotApproved);
        }
        if amount <= 0 {
            return Err(Error::AmountNotPositive);
        }
        let rec = match self.draws.get(&auth_ref) {
            Some(r) => r,
            None => {
                return Err(Error::NothingToReverse);
            },
        };
        if rec.reversed {
            return Err(Error::NothingToReverse);
        }
        if rec.credit_line_id != credit_line_id {
            return Err(Error::LineNotFound);
        }
        if amount != rec.amount {
            return Err(Error::ReversalAmountMismatch);
        }
        let l = self.load_line(&credit_line_id)?;
        if l.status == LineStatus::Closed {
            return Err(Error::LineNotActive);
        }
        let ctx = self.line_context(&credit_line_id)?;
        let line = CreditLine {
            drawn_balance: l.drawn_balance - amount,
            available_limit: l.available_limit + amount,
            ..l
        };
        self.lines.set(credit_line_id, line);
        let record = DrawdownRecord { reversed: true, ..rec };
        self.draws.set(auth_ref, record);
        let zero = Bytes32::zero();
        let label = StateLabel::from_line(l.status);
        let ev = Self::template(
            ctx.framework_id,
            EntityKind::Drawdown,
            CollateralAction::DrawdownReversed,
            processor,
            Role::Processor,
            ctx.position_id,
            ctx.pledge_id,
            credit_line_id,
            zero,
            label,
            label,
            auth_ref,
            zero,
            CollateralPayloadV1::BalanceMove(
                BalanceMoveData {
                    amount,
                    drawn_after: line.drawn_balance,
                    available_after: line.available_limit,
                },
            ),
        );
        proof {
            assert(self@ =~= LedgerState {
                lines: old(self)@.lines.insert(credit_line_id, line),
                draws: old(self)@.draws.insert(auth_ref, record),
                ..old(self)@
            });
        }
        Ok(self.emit(ev, env))
    }

    /// Read a drawdown record by its authorization reference.
    pub fn get_drawdown(&self, auth_ref: Bytes32) -> (r: Result<DrawdownRecord, Error>)
        requires
            self.wf(),
        ensures
            r == (if self@.draws.contains_key(auth_ref) {
                Ok::<DrawdownRecord, Error>(self@.draws[auth_ref])
            } else {
                Err(Error::NothingToReverse)
            }),
    {
        match self.draws.get(&auth_ref) {
            Some(v) => Ok(v),
            None => Err(Error::NothingToReverse),
        }
    }

    /// Apply a repayment, once per `payment_ref`, from the settlement vault
    /// bound at initialization (which must also hold the Vault role). It
    /// reduces the drawn balance only; it never releases collateral.
    pub fn apply_repayment(
        &mut self,
        credit_line_id: Bytes32,
        vault: Address,
        payment_ref: Bytes32,
        amount: i128,
        env: LedgerEnv,
    ) -> (r: Result<CollateralEventV1, Error>)
        requires
            old(self).wf(),
            old(self)@.seq_room_for(
                step_apply_repayment(
                    old(self)@,
                    credit_line_id,
                    vault,
                    payment_ref,
                    amount,
                    env,
                ),
            ),
            step_apply_repayment(old(self)@, credit_line_id, vault, payment_ref, amount, env) is Ok
                ==> repay_fits(old(self)@, credit_line_id, amount),
        ensures
            final(self).wf(),
            outcome(
                old(self)@,
                final(self)@,
                r,
                step_apply_repayment(old(self)@, credit_line_id, vault, payment_ref, amount, env),
            ),
    {
        let bound = self.get_settlement_vault()?;
        if vault != bound {
            return Err(Error::PartyNotApproved);
        }
        if !self.is_approved(vault, Role::Vault) {
            return Err(Error::PartyNotApproved);
        }
        if amount <= 0 {
            return Err(Error::AmountNotPositive);
        }
        if self.repayments.contains(&payment_ref) {
            return Err(Error::DuplicatePaymentRef);
        }
        let l = self.load_line(&credit_line_id)?;
        if l.status == LineStatus::Closed {
            return Err(Error::LineNotActive);
        }
        if amount > l.drawn_balance {
            return Err(Error::RepaymentExceedsOutstandingBalance);
        }
        let ctx = self.line_context(&credit_line_id)?;
        let line = CreditLine {
            drawn_balance: l.drawn_balance - amount,
            available_limit: l.available_limit + amount,
            ..l
        };
        self.lines.set(credit_line_id, line);
        let record = RepaymentRecord {
            credit_line_id,
            amount_applied: amount,
            applied_at_ledger: env.sequence,
        };
        self.repayments.set(payment_ref, record);
        let zero = Bytes32::zero();
        let label = StateLabel::from_line(l.status);
        let ev = Self::template(
            ctx.framework_id,
            EntityKind::Repayment,
            CollateralAction::RepaymentApplied,
            vault,
            Role::Vault,
            ctx.position_id,
            ctx.pledge_id,
            credit_line_id,
            zero,
            label,
            label,
            payment_ref,
            zero,
            CollateralPayloadV1::BalanceMove(
                BalanceMoveData {
                    amount,
                    drawn_after: line.drawn_balance,
                    available_after: line.available_limit,
                },
            ),
        );
        proof {
            assert(self@ =~= LedgerState {
                lines: old(self)@.lines.insert(credit_line_id, line),
                repayments: old(self)@.repayments.insert(payment_ref, record),
                ..old(self)@
            });
        }
        Ok(self.emit(ev, env))
    }

    /// Read a repayment record by its payment reference.
    pub fn get_repayment(&self, payment_ref: Bytes32) -> (r: Result<RepaymentRecord, Error>)
        requires
            self.wf(),
        ensures
            r == (if self@.repayments.contains_key(payment_ref) {
                Ok::<RepaymentRecord, Error>(self@.repayments[payment_ref])
            } else {
                Err(Error::LineNotFound)
            }),
    {
        match self.repayments.get(&payment_ref) {
            Some(v) => Ok(v),
            None => Err(Error::LineNotFound),
        }
    }

    /// The line's bank deliberately stops an Active or Suspended line for a
    /// non-margin reason: sets the bank-stop flag, suspends, zeroes capacity.
    pub fn bank_suspend_line(
        &mut self,
        credit_line_id: Bytes32,
        bank: Address,
        reason_hash: Bytes32,
        env: LedgerEnv,
    ) -> (r: Result<CollateralEventV1, Error>)
        requires
            old(self).wf(),
            old(self)@.seq_room_for(
                step_bank_suspend_line(
                    old(self)@,
                    credit_line_id,
                    bank,
                    reason_hash,
                    env,
                ),
            ),
        ensures
            final(self).wf(),
            outcome(
                old(self)@,
                final(self)@,
                r,
                step_bank_suspend_line(old(self)@, credit_line_id, bank, reason_hash, env),
            ),
    {
        if !self.is_approved(bank, Role::Bank) {
            return Err(Error::PartyNotApproved);
        }
        if reason_hash.is_zero() {
            return Err(Error::InvalidDocumentHash);
        }
        let l = self.load_line(&credit_line_id)?;
        if l.bank != bank {
            return Err(Error::NotAuthorized);
        }
        if l.status == LineStatus::Closed || l.status == LineStatus::Defaulted {
            return Err(Error::LineNotActive);
        }
        let ctx = self.line_context(&credit_line_id)?;
        let line = CreditLine {
            manual_bank_suspension: true,
            status: LineStatus::Suspended,
            available_limit: 0,
            ..l
        };
        self.lines.set(credit_line_id, line);
        let zero = Bytes32::zero();
        let ev = Self::template(
            ctx.framework_id,
            EntityKind::Line,
            CollateralAction::LineSuspendedByBank,
            bank,
            Role::Bank,
            ctx.position_id,
            ctx.pledge_id,
            credit_line_id,
            zero,
            StateLabel::from_line(l.status),
            StateLabel::LineSuspended,
            reason_hash,
            zero,
            CollateralPayloadV1::BalanceMove(
                BalanceMoveData { amount: 0, drawn_after: l.drawn_balance, available_after: 0 },
            ),
        );
        proof {
            assert(self@ =~= LedgerState {
                lines: old(self)@.lines.insert(credit_line_id, line),
                ..old(self)@
            });
        }
        Ok(self.emit(ev, env))
    }

    /// The line's bank lifts its own stop: clears the flag, restores Active
    /// and restores capacity up to the latest advance base (capped at the
    /// approved limit), less the drawn balance.
    pub fn bank_resume_line(
        &mut self,
        credit_line_id: Bytes32,
        bank: Address,
        resume_evidence_hash: Bytes32,
        env: LedgerEnv,
    ) -> (r: Result<CollateralEventV1, Error>)
        requires
            old(self).wf(),
            old(self)@.seq_room_for(
                step_bank_resume_line(
                    old(self)@,
                    credit_line_id,
                    bank,
                    resume_evidence_hash,
                    env,
                ),
            ),
            step_bank_resume_line(old(self)@, credit_line_id, bank, resume_evidence_hash, env) is Ok
                ==> resume_fits(old(self)@, credit_line_id),
        ensures
            final(self).wf(),
            outcome(
                old(self)@,
                final(self)@,
                r,
                step_bank_resume_line(old(self)@, credit_line_id, bank, resume_evidence_hash, env),
            ),
    {
        if !self.is_approved(bank, Role::Bank) {
            return Err(Error::PartyNotApproved);
        }
        if resume_evidence_hash.is_zero() {
            return Err(Error::InvalidDocumentHash);
        }
        let l = self.load_line(&credit_line_id)?;
        if l.bank != bank {
            return Err(Error::NotAuthorized);
        }
        if !l.manual_bank_suspension {
            return Err(Error::LineNotSuspended);
        }
        let ctx = self.line_context(&credit_line_id)?;
        let cover = match self.valuations.get(&credit_line_id) {
            Some(v) => {
                if v.borrowing_base < l.approved_limit {
                    v.borrowing_base
                } else {
                    l.approved_limit
                }
            },
            None => l.approved_limit,
        };
        let diff = cover - l.drawn_balance;
        let available = if diff > 0 {
            diff
        } else {
            0
        };
        let line = CreditLine {
            manual_bank_suspension: false,
            available_limit: available,
            status: LineStatus::Active,
            ..l
        };
        self.lines.set(credit_line_id, line);
        let zero = Bytes32::zero();
        let ev = Self::template(
            ctx.framework_id,
            EntityKind::Line,
            CollateralAction::LineResumedByBank,
            bank,
            Role::Bank,
            ctx.position_id,
            ctx.pledge_id,
            credit_line_id,
            zero,
            StateLabel::from_line(l.status),
            StateLabel::LineActive,
            resume_evidence_hash,
            zero,
            CollateralPayloadV1::BalanceMove(
                BalanceMoveData { amount: 0, drawn_after: l.drawn_balance, available_after: available },
            ),
        );
        proof {
            assert(self@ =~= LedgerState {
                lines: old(self)@.lines.insert(credit_line_id, line),
                ..old(self)@
            });
        }
        Ok(self.emit(ev, env))
    }

    /// The line's available capacity.
    pub fn available_capacity(&self, credit_line_id: Bytes32) -> (r: Result<i128, Error>)
        requires
            self.wf(),
        ensures
            r == (if self@.lines.contains_key(credit_line_id) {
                Ok::<i128, Error>(self@.lines[credit_line_id].available_limit)
            } else {
                Err(Error::LineNotFound)
            }),
    {
        Ok(self.load_line(&credit_line_id)?.available_limit)
    }

    /// Read a credit line.
    pub fn get_line(&self, credit_line_id: Bytes32) -> (r: Result<CreditLine, Error>)
        requires
            self.wf(),
        ensures
            r == (if self@.lines.contains_key(credit_line_id) {
                Ok::<CreditLine, Error>(self@.lines[credit_line_id])
            } else {
                Err(Error::LineNotFound)
            }),
    {
        self.load_line(&credit_line_id)
    }
}

impl CreditLedger {
    /// Whether `record_drawdown` with these arguments stays in the i128
    /// range: it is refused before any arithmetic, or the drawn balance can
    /// absorb the amount. Exactly the condition `record_drawdown` requires.
    pub fn record_drawdown_in_range(
        &self,
        credit_line_id: Bytes32,
        processor: Address,
        auth_ref: Bytes32,
        amount: i128,
        env: LedgerEnv,
    ) -> (r: bool)
        requires
            self.wf(),
        ensures
            r == (step_record_drawdown(self@, credit_line_id, processor, auth_ref, amount, env) is Ok
                ==> draw_fits(self@, credit_line_id, amount)),
    {
        if !self.is_approved(processor, Role::Processor) || amount <= 0 || self.draws.contains(&auth_ref) {
            return true;
        }
        let l = match self.load_line(&credit_line_id) {
            Ok(l) => l,
            Err(_) => {
                return true;
            },
        };
        if l.status != LineStatus::Active {
            return true;
        }
        let pledge = match self.load_pledge(&l.pledge_id) {
            Ok(p) => p,
            Err(_) => {
                return true;
            },
        };
        if pledge.status != PledgeStatus::Active || l.available_limit < amount {
            return true;
        }
        if self.line_context(&credit_line_id).is_err() {
            return true;
        }
        l.drawn_balance.checked_add(amount).is_some()
    }

    /// Whether `reverse_drawdown` with these arguments stays in the i128
    /// range: it is refused before any arithmetic, or both balances can take
    /// the unwound amount. Exactly the condition `reverse_drawdown` requires.
    pub fn reverse_drawdown_in_range(
        &self,
        credit_line_id: Bytes32,
        processor: Address,
        auth_ref: Bytes32,
        amount: i128,
        env: LedgerEnv,
    ) -> (r: bool)
        requires
            self.wf(),
        ensures
            r == (step_reverse_drawdown(self@, credit_line_id, processor, auth_ref, amount, env) is Ok
                ==> unwind_fits(self@, credit_line_id, amount)),
    {
        if !self.is_approved(processor, Role::Processor) || amount <= 0 {
            return true;
        }
        let rec = match self.draws.get(&auth_ref) {
            Some(r) => r,
            None => {
                return true;
            },
        };
        if rec.reversed || rec.credit_line_id != credit_line_id || amount != rec.amount {
            return true;
        }
        let l = match self.load_line(&credit_line_id) {
            Ok(l) => l,
            Err(_) => {
                return true;
            },
        };
        if l.status == LineStatus::Closed || self.line_context(&credit_line_id).is_err() {
            return true;
        }
        l.drawn_balance.checked_sub(amount).is_some() && l.available_limit.checked_add(amount).is_some()
    }

    /// Whether `apply_repayment` with these arguments stays in the i128
    /// range: it is refused before any arithmetic, or the capacity can take
    /// the repaid amount back. Exactly the condition `apply_repayment`
    /// requires.
    pub fn apply_repayment_in_range(
        &self,
        credit_line_id: Bytes32,
        vault: Address,
        payment_ref: Bytes32,
        amount: i128,
        env: LedgerEnv,
    ) -> (r: bool)
        requires
            self.wf(),
        ensures
            r == (step_apply_repayment(self@, credit_line_id, vault, payment_ref, amount, env) is Ok
                ==> repay_fits(self@, credit_line_id, amount)),
    {
        let bound = match self.get_settlement_vault() {
            Ok(v) => v,
            Err(_) => {
                return true;
            },
        };
        if vault != bound || !self.is_approved(vault, Role::Vault) || amount <= 0 || self.repayments.contains(
            &payment_ref,
        ) {
            return true;
        }
        let l = match self.load_line(&credit_line_id) {
            Ok(l) => l,
            Err(_) => {
                return true;
            },
        };
        if l.status == LineStatus::Closed || amount > l.drawn_balance || self.line_context(&credit_line_id).is_err() {
            return true;
        }
        l.available_limit.checked_add(amount).is_some()
    }

    /// Whether `bank_resume_line` with these arguments stays in the i128
    /// range: it is refused before any arithmetic, or the restored capacity
    /// can be computed. Exactly the condition `bank_resume_line` requires.
    pub fn bank_resume_line_in_range(
        &self,
        credit_line_id: Bytes32,
        bank: Address,
        resume_evidence_hash: Bytes32,
        env: LedgerEnv,
    ) -> (r: bool)
        requires
            self.wf(),
        ensures
            r == (step_bank_resume_line(self@, credit_line_id, bank, resume_evidence_hash, env) is Ok
                ==> resume_fits(self@, credit_line_id)),
    {
        if !self.is_approved(bank, Role::Bank) || resume_evidence_hash.is_zero() {
            return true;
        }
        let l = match self.load_line(&credit_line_id) {
            Ok(l) => l,
            Err(_) => {
                return true;
            },
        };
        if l.bank != bank || !l.manual_bank_suspension || self.line_context(&credit_line_id).is_err() {
            return true;
        }
        let cover = match self.valuations.get(&credit_line_id) {
            Some(v) => {
                if v.borrowing_base < l.approved_limit {
                    v.borrowing_base
                } else {
                    l.approved_limit
                }
            },
            None => l.approved_limit,
        };
        cover.checked_sub(l.drawn_balance).is_some()
    }
}

} // verus!
