//! Collateral adjustments on a live line: the owner requests, the custodian
//! confirms, the bank approves if the new collateral still covers the debt.
use vstd::prelude::*;

use crate::primitives::{Address, Bytes32};
use crate::credit_ledger::error::Error;
use crate::credit_ledger::event::{
    AdjustmentApprovedData, CollateralAction, CollateralEventV1, CollateralPayloadV1, EntityKind,
    HashData, StateLabel,
};
use crate::credit_ledger::types::{
    AdjustmentStatus, AdjustmentType, CollateralAdjustment, LedgerEnv, LineStatus, Role,
    VaultPosition,
};
use super::lines::emit_for_line;
use super::{borrowing_base_spec, event_template, outcome, CreditLedger, LedgerState};

verus! {

pub open spec fn step_request_adjustment(
    s: LedgerState,
    adjustment_id: Bytes32,
    credit_line_id: Bytes32,
    owner: Address,
    adjustment_type: AdjustmentType,
    new_barlist_hash: Bytes32,
    new_serials_hash: Bytes32,
    new_weight_oz_e7: i128,
    request_hash: Bytes32,
    env: LedgerEnv,
) -> Result<(LedgerState, CollateralEventV1), Error> {
    if s.adjustments.contains_key(adjustment_id) {
        Err(Error::AdjustmentExists)
    } else if !s.lines.contains_key(credit_line_id) {
        Err(Error::LineNotFound)
    } else if s.lines[credit_line_id].status != LineStatus::Active {
        Err(Error::LineNotActive)
    } else if !s.pledges.contains_key(s.lines[credit_line_id].pledge_id) {
        Err(Error::PledgeNotFound)
    } else if s.pledges[s.lines[credit_line_id].pledge_id].pledgor != owner {
        Err(Error::NotAuthorized)
    } else if new_weight_oz_e7 <= 0 {
        Err(Error::AmountNotPositive)
    } else if new_barlist_hash.spec_is_zero() || new_serials_hash.spec_is_zero()
        || request_hash.spec_is_zero() {
        Err(Error::InvalidDocumentHash)
    } else {
        match s.line_ctx(credit_line_id) {
            Err(e) => Err(e),
            Ok(ctx) => {
                let adj = CollateralAdjustment {
                    credit_line_id,
                    adjustment_type,
                    new_barlist_hash,
                    new_serials_hash,
                    new_weight_oz_e7,
                    request_hash,
                    status: AdjustmentStatus::Requested,
                };
                let s1 = LedgerState {
                    adjustments: s.adjustments.insert(adjustment_id, adj),
                    ctx_adjustment: s.ctx_adjustment.insert(adjustment_id, ctx),
                    ..s
                };
                Ok(
                    s1.emit(
                        event_template(
                            ctx.framework_id,
                            EntityKind::Adjustment,
                            CollateralAction::AdjustmentRequested,
                            owner,
                            Role::Owner,
                            ctx.position_id,
                            ctx.pledge_id,
                            credit_line_id,
                            adjustment_id,
                            StateLabel::Null,
                            StateLabel::AdjustmentRequested,
                            request_hash,
                            Bytes32::spec_zero(),
                            CollateralPayloadV1::Hash(HashData { hash: request_hash }),
                        ),
                        env,
                    ),
                )
            },
        }
    }
}

pub open spec fn step_custodian_confirm_adjustment(
    s: LedgerState,
    adjustment_id: Bytes32,
    custodian: Address,
    custody_evidence_hash: Bytes32,
    env: LedgerEnv,
) -> Result<(LedgerState, CollateralEventV1), Error> {
    if custody_evidence_hash.spec_is_zero() {
        Err(Error::InvalidDocumentHash)
    } else if !s.adjustments.contains_key(adjustment_id) {
        Err(Error::LineNotFound)
    } else if s.adjustments[adjustment_id].status != AdjustmentStatus::Requested {
        Err(Error::AdjustmentWrongStatus)
    } else {
        let adj = s.adjustments[adjustment_id];
        if !s.lines.contains_key(adj.credit_line_id) {
            Err(Error::LineNotFound)
        } else if !s.pledges.contains_key(s.lines[adj.credit_line_id].pledge_id) {
            Err(Error::PledgeNotFound)
        } else if !s.positions.contains_key(
            s.pledges[s.lines[adj.credit_line_id].pledge_id].position_id,
        ) {
            Err(Error::PositionNotFound)
        } else if s.positions[s.pledges[s.lines[adj.credit_line_id].pledge_id].position_id].custodian
            != custodian {
            Err(Error::NotAuthorized)
        } else if !s.approved(custodian, Role::Custodian) {
            Err(Error::PartyNotApproved)
        } else {
            let adj1 = CollateralAdjustment { status: AdjustmentStatus::CustodianConfirmed, ..adj };
            let s1 = LedgerState { adjustments: s.adjustments.insert(adjustment_id, adj1), ..s };
            emit_for_line(
                s,
                s1,
                adj.credit_line_id,
                EntityKind::Adjustment,
                CollateralAction::AdjustmentCustodianConfirmed,
                custodian,
                Role::Custodian,
                adjustment_id,
                StateLabel::AdjustmentRequested,
                StateLabel::AdjustmentCustodianConfirmed,
                custody_evidence_hash,
                Bytes32::spec_zero(),
                CollateralPayloadV1::Hash(HashData { hash: custody_evidence_hash }),
                env,
            )
        }
    }
}

/// The bar-set locks after the position holding `old_serials` moves to
/// `new_serials`.
pub open spec fn relocked(
    bar_sets: Map<Bytes32, Bytes32>,
    old_serials: Bytes32,
    new_serials: Bytes32,
    position_id: Bytes32,
) -> Map<Bytes32, Bytes32> {
    if new_serials != old_serials {
        bar_sets.remove(old_serials).insert(new_serials, position_id)
    } else {
        bar_sets
    }
}

pub open spec fn step_bank_approve_adjustment(
    s: LedgerState,
    adjustment_id: Bytes32,
    bank: Address,
    price_per_oz_e7: i128,
    env: LedgerEnv,
) -> Result<(LedgerState, CollateralEventV1), Error> {
    if price_per_oz_e7 <= 0 {
        Err(Error::PriceNotPositive)
    } else if !s.adjustments.contains_key(adjustment_id) {
        Err(Error::LineNotFound)
    } else if s.adjustments[adjustment_id].status != AdjustmentStatus::CustodianConfirmed {
        Err(Error::AdjustmentWrongStatus)
    } else {
        let adj = s.adjustments[adjustment_id];
        if !s.lines.contains_key(adj.credit_line_id) {
            Err(Error::LineNotFound)
        } else if s.lines[adj.credit_line_id].bank != bank {
            Err(Error::NotAuthorized)
        } else if !s.approved(bank, Role::Bank) {
            Err(Error::PartyNotApproved)
        } else {
            let line = s.lines[adj.credit_line_id];
            match borrowing_base_spec(adj.new_weight_oz_e7, price_per_oz_e7, line.ltv_bps) {
                Err(e) => Err(e),
                Ok(new_base) => if new_base < line.drawn_balance {
                    Err(Error::AdjustmentUndercovered)
                } else if !s.pledges.contains_key(line.pledge_id) {
                    Err(Error::PledgeNotFound)
                } else if !s.positions.contains_key(s.pledges[line.pledge_id].position_id) {
                    Err(Error::PositionNotFound)
                } else {
                    let position_id = s.pledges[line.pledge_id].position_id;
                    let pos = s.positions[position_id];
                    if adj.new_serials_hash != pos.serials_hash && s.bar_sets.contains_key(
                        adj.new_serials_hash,
                    ) {
                        Err(Error::BarSetAlreadyActive)
                    } else {
                        let pos1 = VaultPosition {
                            barlist_hash: adj.new_barlist_hash,
                            serials_hash: adj.new_serials_hash,
                            fine_weight_oz_e7: adj.new_weight_oz_e7,
                            ..pos
                        };
                        let adj1 = CollateralAdjustment { status: AdjustmentStatus::Approved, ..adj };
                        let s1 = LedgerState {
                            positions: s.positions.insert(position_id, pos1),
                            bar_sets: relocked(
                                s.bar_sets,
                                pos.serials_hash,
                                adj.new_serials_hash,
                                position_id,
                            ),
                            adjustments: s.adjustments.insert(adjustment_id, adj1),
                            ..s
                        };
                        emit_for_line(
                            s,
                            s1,
                            adj.credit_line_id,
                            EntityKind::Adjustment,
                            CollateralAction::AdjustmentApproved,
                            bank,
                            Role::Bank,
                            adjustment_id,
                            StateLabel::AdjustmentCustodianConfirmed,
                            StateLabel::AdjustmentApproved,
                            adj.new_barlist_hash,
                            Bytes32::spec_zero(),
                            CollateralPayloadV1::AdjustmentApproved(
                                AdjustmentApprovedData {
                                    adjustment_type: adj.adjustment_type,
                                    new_barlist_hash: adj.new_barlist_hash,
                                    new_serials_hash: adj.new_serials_hash,
                                    new_weight_oz_e7: adj.new_weight_oz_e7,
                                    price_per_oz_e7,
                                },
                            ),
                            env,
                        )
                    }
                },
            }
        }
    }
}

impl CreditLedger {
    /// The pledgor of an Active line requests a TopUp, Substitution or
    /// PartialRelease, proposing the new bar list, serials and weight.
    #[allow(clippy::too_many_arguments)]
    pub fn request_collateral_adjustment(
        &mut self,
        adjustment_id: Bytes32,
        credit_line_id: Bytes32,
        owner: Address,
        adjustment_type: AdjustmentType,
        new_barlist_hash: Bytes32,
        new_serials_hash: Bytes32,
        new_weight_oz_e7: i128,
        request_hash: Bytes32,
        env: LedgerEnv,
    ) -> (r: Result<CollateralEventV1, Error>)
        requires
            old(self).wf(),
            old(self)@.seq_room_for(
                step_request_adjustment(
                    old(self)@,
                    adjustment_id,
                    credit_line_id,
                    owner,
                    adjustment_type,
                    new_barlist_hash,
                    new_serials_hash,
                    new_weight_oz_e7,
                    request_hash,
                    env,
                ),
            ),
        ensures
            final(self).wf(),
            outcome(
                old(self)@,
                final(self)@,
                r,
                step_request_adjustment(
                    old(self)@,
                    adjustment_id,
                    credit_line_id,
                    owner,
                    adjustment_type,
                    new_barlist_hash,
                    new_serials_hash,
                    new_weight_oz_e7,
                    request_hash,
                    env,
                ),
            ),
    {
        if self.adjustments.contains(&adjustment_id) {
            return Err(Error::AdjustmentExists);
        }
        let line = self.load_line(&credit_line_id)?;
        if line.status != LineStatus::Active {
            return Err(Error::LineNotActive);
        }
        let pledge = self.load_pledge(&line.pledge_id)?;
        if pledge.pledgor != owner {
            return Err(Error::NotAuthorized);
        }
        if new_weight_oz_e7 <= 0 {
            return Err(Error::AmountNotPositive);
        }
        if new_barlist_hash.is_zero() || new_serials_hash.is_zero() || request_hash.is_zero() {
            return Err(Error::InvalidDocumentHash);
        }
        let ctx = self.line_context(&credit_line_id)?;
        let adj = CollateralAdjustment {
            credit_line_id,
            adjustment_type,
            new_barlist_hash,
            new_serials_hash,
            new_weight_oz_e7,
            request_hash,
            status: AdjustmentStatus::Requested,
        };
        self.adjustments.set(adjustment_id, adj);
        self.ctx_adjustment.set(adjustment_id, ctx);
        let ev = Self::template(
            ctx.framework_id,
            EntityKind::Adjustment,
            CollateralAction::AdjustmentRequested,
            owner,
            Role::Owner,
            ctx.position_id,
            ctx.pledge_id,
            credit_line_id,
            adjustment_id,
            StateLabel::Null,
            StateLabel::AdjustmentRequested,
            request_hash,
            Bytes32::zero(),
            CollateralPayloadV1::Hash(HashData { hash: request_hash }),
        );
        proof {
            assert(self@ =~= LedgerState {
                adjustments: old(self)@.adjustments.insert(adjustment_id, adj),
                ctx_adjustment: old(self)@.ctx_adjustment.insert(adjustment_id, ctx),
                ..old(self)@
            });
        }
        Ok(self.emit(ev, env))
    }

    /// Read a collateral-adjustment request.
    pub fn get_adjustment(&self, adjustment_id: Bytes32) -> (r: Result<CollateralAdjustment, Error>)
        requires
            self.wf(),
        ensures
            r == (if self@.adjustments.contains_key(adjustment_id) {
                Ok::<CollateralAdjustment, Error>(self@.adjustments[adjustment_id])
            } else {
                Err(Error::LineNotFound)
            }),
    {
        match self.adjustments.get(&adjustment_id) {
            Some(v) => Ok(v),
            None => Err(Error::LineNotFound),
        }
    }

    /// The position's approved custodian confirms it can hold and block the
    /// proposed set: Requested -> CustodianConfirmed.
    pub fn custodian_confirm_adjustment(
        &mut self,
        adjustment_id: Bytes32,
        custodian: Address,
        custody_evidence_hash: Bytes32,
        env: LedgerEnv,
    ) -> (r: Result<CollateralEventV1, Error>)
        requires
            old(self).wf(),
            old(self)@.seq_room_for(
                step_custodian_confirm_adjustment(
                    old(self)@,
                    adjustment_id,
                    custodian,
                    custody_evidence_hash,
                    env,
                ),
            ),
        ensures
            final(self).wf(),
            outcome(
                old(self)@,
                final(self)@,
                r,
                step_custodian_confirm_adjustment(
                    old(self)@,
                    adjustment_id,
                    custodian,
                    custody_evidence_hash,
                    env,
                ),
            ),
    {
        if custody_evidence_hash.is_zero() {
            return Err(Error::InvalidDocumentHash);
        }
        let adj = match self.adjustments.get(&adjustment_id) {
            Some(a) => a,
            None => {
                return Err(Error::LineNotFound);
            },
        };
        if adj.status != AdjustmentStatus::Requested {
            return Err(Error::AdjustmentWrongStatus);
        }
        let line = self.load_line(&adj.credit_line_id)?;
        let pledge = self.load_pledge(&line.pledge_id)?;
        let pos = self.load_position(&pledge.position_id)?;
        if pos.custodian != custodian {
            return Err(Error::NotAuthorized);
        }
        if !self.is_approved(custodian, Role::Custodian) {
            return Err(Error::PartyNotApproved);
        }
        let ctx = self.line_context(&adj.credit_line_id)?;
        let adj1 = CollateralAdjustment { status: AdjustmentStatus::CustodianConfirmed, ..adj };
        self.adjustments.set(adjustment_id, adj1);
        let ev = Self::template(
            ctx.framework_id,
            EntityKind::Adjustment,
            CollateralAction::AdjustmentCustodianConfirmed,
            custodian,
            Role::Custodian,
            ctx.position_id,
            ctx.pledge_id,
            adj.credit_line_id,
            adjustment_id,
            StateLabel::AdjustmentRequested,
            StateLabel::AdjustmentCustodianConfirmed,
            custody_evidence_hash,
            Bytes32::zero(),
            CollateralPayloadV1::Hash(HashData { hash: custody_evidence_hash }),
        );
        proof {
            assert(self@ =~= LedgerState {
                adjustments: old(self)@.adjustments.insert(adjustment_id, adj1),
                ..old(self)@
            });
        }
        Ok(self.emit(ev, env))
    }

    /// The line's approved bank approves a custodian-confirmed adjustment if
    /// the proposed collateral, at `price_per_oz_e7` and the line's advance
    /// rate, still covers the drawn balance. The position takes the new bar
    /// list, serials and weight, and the bar-set lock follows the serials.
    pub fn bank_approve_adjustment(
        &mut self,
        adjustment_id: Bytes32,
        bank: Address,
        price_per_oz_e7: i128,
        env: LedgerEnv,
    ) -> (r: Result<CollateralEventV1, Error>)
        requires
            old(self).wf(),
            old(self)@.seq_room_for(
                step_bank_approve_adjustment(
                    old(self)@,
                    adjustment_id,
                    bank,
                    price_per_oz_e7,
                    env,
                ),
            ),
        ensures
            final(self).wf(),
            outcome(
                old(self)@,
                final(self)@,
                r,
                step_bank_approve_adjustment(old(self)@, adjustment_id, bank, price_per_oz_e7, env),
            ),
    {
        if price_per_oz_e7 <= 0 {
            return Err(Error::PriceNotPositive);
        }
        let adj = match self.adjustments.get(&adjustment_id) {
            Some(a) => a,
            None => {
                return Err(Error::LineNotFound);
            },
        };
        if adj.status != AdjustmentStatus::CustodianConfirmed {
            return Err(Error::AdjustmentWrongStatus);
        }
        let line = self.load_line(&adj.credit_line_id)?;
        if line.bank != bank {
            return Err(Error::NotAuthorized);
        }
        if !self.is_approved(bank, Role::Bank) {
            return Err(Error::PartyNotApproved);
        }
        let new_base = Self::borrowing_base(adj.new_weight_oz_e7, price_per_oz_e7, line.ltv_bps)?;
        if new_base < line.drawn_balance {
            return Err(Error::AdjustmentUndercovered);
        }
        let pledge = self.load_pledge(&line.pledge_id)?;
        let position_id = pledge.position_id;
        let pos = self.load_position(&position_id)?;
        if adj.new_serials_hash != pos.serials_hash && self.bar_sets.contains(&adj.new_serials_hash) {
            return Err(Error::BarSetAlreadyActive);
        }
        let ctx = self.line_context(&adj.credit_line_id)?;
        if adj.new_serials_hash != pos.serials_hash {
            self.bar_sets.remove(&pos.serials_hash);
            self.bar_sets.set(adj.new_serials_hash, position_id);
        }
        let pos1 = VaultPosition {
            barlist_hash: adj.new_barlist_hash,
            serials_hash: adj.new_serials_hash,
            fine_weight_oz_e7: adj.new_weight_oz_e7,
            ..pos
        };
        self.positions.set(position_id, pos1);
        let adj1 = CollateralAdjustment { status: AdjustmentStatus::Approved, ..adj };
        self.adjustments.set(adjustment_id, adj1);
        let ev = Self::template(
            ctx.framework_id,
            EntityKind::Adjustment,
            CollateralAction::AdjustmentApproved,
            bank,
            Role::Bank,
            ctx.position_id,
            ctx.pledge_id,
            adj.credit_line_id,
            adjustment_id,
            StateLabel::AdjustmentCustodianConfirmed,
            StateLabel::AdjustmentApproved,
            adj.new_barlist_hash,
            Bytes32::zero(),
            CollateralPayloadV1::AdjustmentApproved(
                AdjustmentApprovedData {
                    adjustment_type: adj.adjustment_type,
                    new_barlist_hash: adj.new_barlist_hash,
                    new_serials_hash: adj.new_serials_hash,
                    new_weight_oz_e7: adj.new_weight_oz_e7,
                    price_per_oz_e7,
                },
            ),
        );
        proof {
            assert(self@ =~= LedgerState {
                positions: old(self)@.positions.insert(position_id, pos1),
                bar_sets: relocked(old(self)@.bar_sets, pos.serials_hash, adj.new_serials_hash, position_id),
                adjustments: old(self)@.adjustments.insert(adjustment_id, adj1),
                ..old(self)@
            });
        }
        Ok(self.emit(ev, env))
    }
}

} // verus!
