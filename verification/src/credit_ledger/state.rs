//! The credit ledger's state, its mathematical model, and the shared steps
//! every operation is built from.
use vstd::prelude::*;

use crate::primitives::{Address, Bytes32};
use crate::table::{Table, TableKey};
use super::error::Error;
use super::event::{
    CollateralAction, CollateralEventV1, CollateralPayloadV1, EntityKind, FacilityContext, StateLabel,
};
use super::types::{
    CollateralAdjustment, CollateralSelection, ControlFramework, CreditLine, CustodyControl,
    DrawdownRecord, EnforcementReadiness, FrameworkStatus, Grant, LedgerEnv, LineValuation, Pledge,
    RepaymentRecord, Role, VaultPosition,
};

pub mod access;
pub mod collateral;
pub mod lines;
pub mod adjustments;
pub mod release;
pub mod valuation;
pub mod readiness;
pub mod snapshot;

verus! {

impl TableKey for Grant {
    fn same(&self, other: &Self) -> (r: bool) {
        *self == *other
    }
}

/// Truncating division (rounds toward zero), as integer division does.
pub open spec fn trunc_div(a: int, b: int) -> int {
    if a >= 0 {
        a / b
    } else {
        -((-a) / b)
    }
}

pub open spec fn fits_i128(x: int) -> bool {
    i128::MIN <= x <= i128::MAX
}

/// `weight * price * ltv / 1e18`: the collateral value at an advance rate,
/// refused with `InvalidRiskParams` when a product leaves the i128 range.
pub open spec fn borrowing_base_spec(fine_weight_oz_e7: i128, price_per_oz_e7: i128, ltv_bps: u32) -> Result<
    i128,
    Error,
> {
    let wp = fine_weight_oz_e7 * price_per_oz_e7;
    if !fits_i128(wp) || !fits_i128(wp * ltv_bps) {
        Err(Error::InvalidRiskParams)
    } else {
        Ok(trunc_div(wp * ltv_bps, 1_000_000_000_000_000_000) as i128)
    }
}

pub open spec fn min_i128(a: i128, b: i128) -> i128 {
    if a < b {
        a
    } else {
        b
    }
}

/// The mathematical model of the credit ledger: one map per record kind.
#[verifier::ext_equal]
pub ghost struct LedgerState {
    pub admin: Option<Address>,
    pub settlement_vault: Option<Address>,
    /// role registry: (party, role) -> granted
    pub approvals: Map<Grant, bool>,
    pub frameworks: Map<Bytes32, ControlFramework>,
    pub positions: Map<Bytes32, VaultPosition>,
    /// bar-set lock: serials_hash -> position holding it
    pub bar_sets: Map<Bytes32, Bytes32>,
    pub selections: Map<Bytes32, CollateralSelection>,
    pub controls: Map<Bytes32, CustodyControl>,
    pub pledges: Map<Bytes32, Pledge>,
    pub lines: Map<Bytes32, CreditLine>,
    /// pledge_id -> the credit line bound to it
    pub line_for_pledge: Map<Bytes32, Bytes32>,
    pub valuations: Map<Bytes32, LineValuation>,
    /// auth_ref -> drawdown record
    pub draws: Map<Bytes32, DrawdownRecord>,
    /// payment_ref -> repayment record
    pub repayments: Map<Bytes32, RepaymentRecord>,
    pub adjustments: Map<Bytes32, CollateralAdjustment>,
    pub readiness: Map<Bytes32, EnforcementReadiness>,
    /// framework_id -> last emitted event sequence
    pub framework_seq: Map<Bytes32, u64>,
    /// position_id -> framework_id
    pub ctx_position: Map<Bytes32, Bytes32>,
    pub ctx_pledge: Map<Bytes32, FacilityContext>,
    pub ctx_line: Map<Bytes32, FacilityContext>,
    pub ctx_adjustment: Map<Bytes32, FacilityContext>,
}

impl LedgerState {
    pub open spec fn approved(self, party: Address, role: Role) -> bool {
        let g = Grant { party, role };
        self.approvals.contains_key(g) && self.approvals[g]
    }

    /// The last event sequence emitted under a framework (0 before the first).
    pub open spec fn seq_of(self, framework_id: Bytes32) -> u64 {
        if self.framework_seq.contains_key(framework_id) {
            self.framework_seq[framework_id]
        } else {
            0
        }
    }

    /// An accepted step's event can still be numbered: the last sequence of
    /// the event's framework is below `u64::MAX`. A refused step is bound by
    /// nothing.
    pub open spec fn seq_room_for(self, step: Result<(LedgerState, CollateralEventV1), Error>) -> bool {
        match step {
            Ok(p) => self.seq_of(p.1.framework_id) < u64::MAX,
            Err(_) => true,
        }
    }

    /// Every framework sequence can still be incremented.
    pub open spec fn seq_headroom(self) -> bool {
        forall|f: Bytes32| #[trigger]
            self.framework_seq.contains_key(f) ==> self.framework_seq[f] < u64::MAX
    }

    pub open spec fn bumped(self, framework_id: Bytes32) -> LedgerState {
        LedgerState {
            framework_seq: self.framework_seq.insert(framework_id, (self.seq_of(framework_id) + 1) as u64),
            ..self
        }
    }

    /// The event as emitted: stamped with the next framework sequence and the
    /// current ledger.
    pub open spec fn stamped(self, ev: CollateralEventV1, env: LedgerEnv) -> CollateralEventV1 {
        CollateralEventV1 {
            sequence: (self.seq_of(ev.framework_id) + 1) as u64,
            occurred_ledger: env.sequence,
            ..ev
        }
    }

    /// Emit `ev` from state `self`: the new state and the stamped event.
    pub open spec fn emit(self, ev: CollateralEventV1, env: LedgerEnv) -> (LedgerState, CollateralEventV1) {
        (self.bumped(ev.framework_id), self.stamped(ev, env))
    }

    pub open spec fn active_framework(self, id: Bytes32) -> Result<ControlFramework, Error> {
        if !self.frameworks.contains_key(id) || self.frameworks[id].status != FrameworkStatus::Active {
            Err(Error::FrameworkNotActive)
        } else {
            Ok(self.frameworks[id])
        }
    }

    /// The framework, position and pledge a credit line belongs to.
    pub open spec fn line_ctx(self, line_id: Bytes32) -> Result<FacilityContext, Error> {
        if self.ctx_line.contains_key(line_id) {
            Ok(self.ctx_line[line_id])
        } else if !self.lines.contains_key(line_id) {
            Err(Error::LineNotFound)
        } else if !self.pledges.contains_key(self.lines[line_id].pledge_id) {
            Err(Error::PledgeNotFound)
        } else if !self.positions.contains_key(
            self.pledges[self.lines[line_id].pledge_id].position_id,
        ) {
            Err(Error::PositionNotFound)
        } else {
            let pledge_id = self.lines[line_id].pledge_id;
            let position_id = self.pledges[pledge_id].position_id;
            Ok(
                FacilityContext {
                    framework_id: self.positions[position_id].framework_id,
                    position_id,
                    pledge_id,
                },
            )
        }
    }
}

/// An event before it is stamped with its sequence and ledger.
pub open spec fn event_template(
    framework_id: Bytes32,
    entity: EntityKind,
    action: CollateralAction,
    actor: Address,
    role: Role,
    position_id: Bytes32,
    pledge_id: Bytes32,
    credit_line_id: Bytes32,
    adjustment_id: Bytes32,
    previous_state: StateLabel,
    new_state: StateLabel,
    evidence_hash: Bytes32,
    valuation_ref: Bytes32,
    payload: CollateralPayloadV1,
) -> CollateralEventV1 {
    CollateralEventV1 {
        framework_id,
        entity,
        action,
        sequence: 0,
        actor,
        role,
        position_id,
        pledge_id,
        credit_line_id,
        adjustment_id,
        previous_state,
        new_state,
        evidence_hash,
        condition_hash: Bytes32::spec_zero(),
        valuation_ref,
        occurred_ledger: 0,
        payload,
    }
}

/// The outcome of an operation: on success the state and the returned value
/// are those of `step`; on refusal the error is that of `step` and the state
/// is unchanged.
pub open spec fn outcome<T>(
    pre: LedgerState,
    post: LedgerState,
    r: Result<T, Error>,
    step: Result<(LedgerState, T), Error>,
) -> bool {
    match step {
        Ok(p) => r == Ok::<T, Error>(p.1) && post == p.0,
        Err(e) => r == Err::<T, Error>(e) && post == pre,
    }
}

/// The credit ledger contract state. It holds no money: only the control and
/// facility state of positions, pledges and credit lines.
#[derive(Clone)]
pub struct CreditLedger {
    pub(crate) admin: Option<Address>,
    pub(crate) settlement_vault: Option<Address>,
    pub(crate) approvals: Table<Grant, bool>,
    pub(crate) frameworks: Table<Bytes32, ControlFramework>,
    pub(crate) positions: Table<Bytes32, VaultPosition>,
    pub(crate) bar_sets: Table<Bytes32, Bytes32>,
    pub(crate) selections: Table<Bytes32, CollateralSelection>,
    pub(crate) controls: Table<Bytes32, CustodyControl>,
    pub(crate) pledges: Table<Bytes32, Pledge>,
    pub(crate) lines: Table<Bytes32, CreditLine>,
    pub(crate) line_for_pledge: Table<Bytes32, Bytes32>,
    pub(crate) valuations: Table<Bytes32, LineValuation>,
    pub(crate) draws: Table<Bytes32, DrawdownRecord>,
    pub(crate) repayments: Table<Bytes32, RepaymentRecord>,
    pub(crate) adjustments: Table<Bytes32, CollateralAdjustment>,
    pub(crate) readiness: Table<Bytes32, EnforcementReadiness>,
    pub(crate) framework_seq: Table<Bytes32, u64>,
    pub(crate) ctx_position: Table<Bytes32, Bytes32>,
    pub(crate) ctx_pledge: Table<Bytes32, FacilityContext>,
    pub(crate) ctx_line: Table<Bytes32, FacilityContext>,
    pub(crate) ctx_adjustment: Table<Bytes32, FacilityContext>,
}

impl View for CreditLedger {
    type V = LedgerState;

    closed spec fn view(&self) -> LedgerState {
        LedgerState {
            admin: self.admin,
            settlement_vault: self.settlement_vault,
            approvals: self.approvals@,
            frameworks: self.frameworks@,
            positions: self.positions@,
            bar_sets: self.bar_sets@,
            selections: self.selections@,
            controls: self.controls@,
            pledges: self.pledges@,
            lines: self.lines@,
            line_for_pledge: self.line_for_pledge@,
            valuations: self.valuations@,
            draws: self.draws@,
            repayments: self.repayments@,
            adjustments: self.adjustments@,
            readiness: self.readiness@,
            framework_seq: self.framework_seq@,
            ctx_position: self.ctx_position@,
            ctx_pledge: self.ctx_pledge@,
            ctx_line: self.ctx_line@,
            ctx_adjustment: self.ctx_adjustment@,
        }
    }
}

impl CreditLedger {
    /// The internal invariant of the ledger's tables.
    pub closed spec fn wf(&self) -> bool {
        &&& self.approvals.wf()
        &&& self.frameworks.wf()
        &&& self.positions.wf()
        &&& self.bar_sets.wf()
        &&& self.selections.wf()
        &&& self.controls.wf()
        &&& self.pledges.wf()
        &&& self.lines.wf()
        &&& self.line_for_pledge.wf()
        &&& self.valuations.wf()
        &&& self.draws.wf()
        &&& self.repayments.wf()
        &&& self.adjustments.wf()
        &&& self.readiness.wf()
        &&& self.framework_seq.wf()
        &&& self.ctx_position.wf()
        &&& self.ctx_pledge.wf()
        &&& self.ctx_line.wf()
        &&& self.ctx_adjustment.wf()
    }

    /// A ledger before initialization: no admin, no vault, no records.
    pub fn new() -> (r: CreditLedger)
        ensures
            r.wf(),
            r@.admin is None,
            r@.settlement_vault is None,
            r@.approvals == Map::<Grant, bool>::empty(),
            r@.frameworks == Map::<Bytes32, ControlFramework>::empty(),
            r@.positions == Map::<Bytes32, VaultPosition>::empty(),
            r@.bar_sets == Map::<Bytes32, Bytes32>::empty(),
            r@.pledges == Map::<Bytes32, Pledge>::empty(),
            r@.lines == Map::<Bytes32, CreditLine>::empty(),
            r@.draws == Map::<Bytes32, DrawdownRecord>::empty(),
            r@.repayments == Map::<Bytes32, RepaymentRecord>::empty(),
            r@.adjustments == Map::<Bytes32, CollateralAdjustment>::empty(),
            r@.readiness == Map::<Bytes32, EnforcementReadiness>::empty(),
            r@.framework_seq == Map::<Bytes32, u64>::empty(),
            r@.seq_headroom(),
            crate::credit_ledger::books::collateral_consistent(r@),
    {
        CreditLedger {
            admin: None,
            settlement_vault: None,
            approvals: Table::new(),
            frameworks: Table::new(),
            positions: Table::new(),
            bar_sets: Table::new(),
            selections: Table::new(),
            controls: Table::new(),
            pledges: Table::new(),
            lines: Table::new(),
            line_for_pledge: Table::new(),
            valuations: Table::new(),
            draws: Table::new(),
            repayments: Table::new(),
            adjustments: Table::new(),
            readiness: Table::new(),
            framework_seq: Table::new(),
            ctx_position: Table::new(),
            ctx_pledge: Table::new(),
            ctx_line: Table::new(),
            ctx_adjustment: Table::new(),
        }
    }

    /// Whether `party` currently holds `role` in the registry.
    pub fn is_approved(&self, party: Address, role: Role) -> (r: bool)
        requires
            self.wf(),
        ensures
            r == self@.approved(party, role),
    {
        match self.approvals.get(&Grant { party, role }) {
            Some(b) => b,
            None => false,
        }
    }

    /// `weight * price * ltv / 1e18`, with every product checked.
    pub fn borrowing_base(fine_weight_oz_e7: i128, price_per_oz_e7: i128, ltv_bps: u32) -> (r: Result<
        i128,
        Error,
    >)
        ensures
            r == borrowing_base_spec(fine_weight_oz_e7, price_per_oz_e7, ltv_bps),
    {
        let wp = match fine_weight_oz_e7.checked_mul(price_per_oz_e7) {
            Some(v) => v,
            None => {
                return Err(Error::InvalidRiskParams);
            },
        };
        let value = match wp.checked_mul(ltv_bps as i128) {
            Some(v) => v,
            None => {
                return Err(Error::InvalidRiskParams);
            },
        };
        Ok(value / 1_000_000_000_000_000_000i128)
    }

    /// Stamp `ev` with the next sequence of its framework and the current
    /// ledger, and record that sequence.
    pub(crate) fn emit(&mut self, ev: CollateralEventV1, env: LedgerEnv) -> (r: CollateralEventV1)
        requires
            old(self).wf(),
            old(self)@.seq_of(ev.framework_id) < u64::MAX,
        ensures
            final(self).wf(),
            (final(self)@, r) == old(self)@.emit(ev, env),
    {
        let last: u64 = match self.framework_seq.get(&ev.framework_id) {
            Some(v) => v,
            None => 0,
        };
        let next = last + 1;
        self.framework_seq.set(ev.framework_id, next);
        let r = CollateralEventV1 { sequence: next, occurred_ledger: env.sequence, ..ev };
        proof {
            assert(self@ =~= old(self)@.bumped(ev.framework_id));
        }
        r
    }

    #[allow(clippy::too_many_arguments)]
    pub(crate) fn template(
        framework_id: Bytes32,
        entity: EntityKind,
        action: CollateralAction,
        actor: Address,
        role: Role,
        position_id: Bytes32,
        pledge_id: Bytes32,
        credit_line_id: Bytes32,
        adjustment_id: Bytes32,
        previous_state: StateLabel,
        new_state: StateLabel,
        evidence_hash: Bytes32,
        valuation_ref: Bytes32,
        payload: CollateralPayloadV1,
    ) -> (r: CollateralEventV1)
        ensures
            r == event_template(
                framework_id,
                entity,
                action,
                actor,
                role,
                position_id,
                pledge_id,
                credit_line_id,
                adjustment_id,
                previous_state,
                new_state,
                evidence_hash,
                valuation_ref,
                payload,
            ),
    {
        CollateralEventV1 {
            framework_id,
            entity,
            action,
            sequence: 0,
            actor,
            role,
            position_id,
            pledge_id,
            credit_line_id,
            adjustment_id,
            previous_state,
            new_state,
            evidence_hash,
            condition_hash: Bytes32::zero(),
            valuation_ref,
            occurred_ledger: 0,
            payload,
        }
    }

    pub(crate) fn line_context(&self, line_id: &Bytes32) -> (r: Result<FacilityContext, Error>)
        requires
            self.wf(),
        ensures
            r == self@.line_ctx(*line_id),
    {
        if let Some(ctx) = self.ctx_line.get(line_id) {
            return Ok(ctx);
        }
        let line = match self.lines.get(line_id) {
            Some(l) => l,
            None => {
                return Err(Error::LineNotFound);
            },
        };
        let pledge = match self.pledges.get(&line.pledge_id) {
            Some(p) => p,
            None => {
                return Err(Error::PledgeNotFound);
            },
        };
        let pos = match self.positions.get(&pledge.position_id) {
            Some(p) => p,
            None => {
                return Err(Error::PositionNotFound);
            },
        };
        Ok(
            FacilityContext {
                framework_id: pos.framework_id,
                position_id: pledge.position_id,
                pledge_id: line.pledge_id,
            },
        )
    }

    pub(crate) fn load_position(&self, id: &Bytes32) -> (r: Result<VaultPosition, Error>)
        requires
            self.wf(),
        ensures
            r == (if self@.positions.contains_key(*id) {
                Ok::<VaultPosition, Error>(self@.positions[*id])
            } else {
                Err(Error::PositionNotFound)
            }),
    {
        match self.positions.get(id) {
            Some(v) => Ok(v),
            None => Err(Error::PositionNotFound),
        }
    }

    pub(crate) fn load_pledge(&self, id: &Bytes32) -> (r: Result<Pledge, Error>)
        requires
            self.wf(),
        ensures
            r == (if self@.pledges.contains_key(*id) {
                Ok::<Pledge, Error>(self@.pledges[*id])
            } else {
                Err(Error::PledgeNotFound)
            }),
    {
        match self.pledges.get(id) {
            Some(v) => Ok(v),
            None => Err(Error::PledgeNotFound),
        }
    }

    pub(crate) fn load_line(&self, id: &Bytes32) -> (r: Result<CreditLine, Error>)
        requires
            self.wf(),
        ensures
            r == (if self@.lines.contains_key(*id) {
                Ok::<CreditLine, Error>(self@.lines[*id])
            } else {
                Err(Error::LineNotFound)
            }),
    {
        match self.lines.get(id) {
            Some(v) => Ok(v),
            None => Err(Error::LineNotFound),
        }
    }

    pub(crate) fn active_framework(&self, id: &Bytes32) -> (r: Result<ControlFramework, Error>)
        requires
            self.wf(),
        ensures
            r == self@.active_framework(*id),
    {
        match self.frameworks.get(id) {
            Some(f) => {
                if f.status != FrameworkStatus::Active {
                    Err(Error::FrameworkNotActive)
                } else {
                    Ok(f)
                }
            },
            None => Err(Error::FrameworkNotActive),
        }
    }
}

} // verus!
