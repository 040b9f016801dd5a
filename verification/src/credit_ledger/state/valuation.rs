//! Revaluation of a line against a fresh, tight price, and the margin bands.
use vstd::prelude::*;

use crate::primitives::{Address, Bytes32};
use crate::credit_ledger::error::Error;
use crate::credit_ledger::event::{
    line_label, CollateralAction, CollateralEventV1, CollateralPayloadV1, EntityKind, RevaluedData,
    StateLabel,
};
use crate::credit_ledger::types::{
    CreditLine, LedgerEnv, LineStatus, LineValuation, MarginState, Role,
};
use super::lines::{emit_for_line, headroom};
use super::{borrowing_base_spec, fits_i128, min_i128, outcome, trunc_div, CreditLedger, LedgerState};

verus! {

/// Called above the action band, Warning above the warning band, else Covered.
pub open spec fn margin_of(drawn: i128, action_band: int, warning_band: int) -> MarginState {
    if drawn > action_band {
        MarginState::Called
    } else if drawn > warning_band {
        MarginState::Warning
    } else {
        MarginState::Covered
    }
}

/// The status a revalued line takes: a bank stop holds whatever the margin;
/// otherwise a margin call suspends and anything else is Active.
pub open spec fn revalued_status(manual_bank_suspension: bool, margin: MarginState) -> LineStatus {
    if manual_bank_suspension {
        LineStatus::Suspended
    } else if margin == MarginState::Called {
        LineStatus::Suspended
    } else {
        LineStatus::Active
    }
}

pub open spec fn step_revalue_and_check(
    s: LedgerState,
    credit_line_id: Bytes32,
    valuer: Address,
    price_per_oz_e7: i128,
    confidence_e7: i128,
    priced_at: u64,
    max_age_secs: u64,
    conf_tol_bps: u32,
    warning_bps: u32,
    valuation_ref: Bytes32,
    env: LedgerEnv,
) -> Result<(LedgerState, CollateralEventV1), Error> {
    let now = env.timestamp;
    if valuation_ref.spec_is_zero() {
        Err(Error::InvalidDocumentHash)
    } else if max_age_secs == 0 || conf_tol_bps == 0 || conf_tol_bps > 10_000 || warning_bps == 0
        || warning_bps > 10_000 {
        Err(Error::InvalidRevaluationParams)
    } else if !s.lines.contains_key(credit_line_id) {
        Err(Error::LineNotFound)
    } else {
        let l = s.lines[credit_line_id];
        let is_valuer = s.approved(valuer, Role::Valuation);
        let is_line_bank = l.bank == valuer && s.approved(valuer, Role::Bank);
        if !is_valuer && !is_line_bank {
            Err(Error::NotAuthorized)
        } else if l.status == LineStatus::Closed || l.status == LineStatus::Defaulted {
            Err(Error::LineNotActive)
        } else if price_per_oz_e7 <= 0 || confidence_e7 < 0 {
            Err(Error::PriceNotPositive)
        } else if priced_at > now {
            Err(Error::PriceFromFuture)
        } else if now > priced_at && now - priced_at > max_age_secs {
            Err(Error::PriceStale)
        } else if !fits_i128(price_per_oz_e7 * conf_tol_bps) {
            Err(Error::InvalidRiskParams)
        } else if confidence_e7 > (price_per_oz_e7 * conf_tol_bps) / 10_000 {
            Err(Error::PriceConfidenceTooWide)
        } else if !s.pledges.contains_key(l.pledge_id) {
            Err(Error::PledgeNotFound)
        } else if !s.positions.contains_key(s.pledges[l.pledge_id].position_id) {
            Err(Error::PositionNotFound)
        } else {
            let weight = s.positions[s.pledges[l.pledge_id].position_id].fine_weight_oz_e7;
            match borrowing_base_spec(weight, price_per_oz_e7, 10_000) {
                Err(e) => Err(e),
                Ok(raw_value) => match borrowing_base_spec(weight, price_per_oz_e7, l.ltv_bps) {
                    Err(e) => Err(e),
                    Ok(advance_base) => if !fits_i128(raw_value * l.maintenance_bps) {
                        Err(Error::InvalidRiskParams)
                    } else {
                        let action_band = trunc_div(raw_value * l.maintenance_bps, 10_000);
                        if !fits_i128(action_band * warning_bps) {
                            Err(Error::InvalidRiskParams)
                        } else {
                            let warning_band = trunc_div(action_band * warning_bps, 10_000);
                            let margin = margin_of(l.drawn_balance, action_band, warning_band);
                            let available = headroom(
                                min_i128(advance_base, l.approved_limit),
                                l.drawn_balance,
                            );
                            let line = CreditLine {
                                available_limit: available,
                                status: revalued_status(l.manual_bank_suspension, margin),
                                ..l
                            };
                            let valuation = LineValuation {
                                price_per_oz_e7,
                                confidence_e7,
                                priced_at,
                                valued_at_ledger: env.sequence,
                                borrowing_base: advance_base,
                                margin_state: margin,
                            };
                            let role = if is_line_bank {
                                Role::Bank
                            } else {
                                Role::Valuation
                            };
                            let s1 = LedgerState {
                                lines: s.lines.insert(credit_line_id, line),
                                valuations: s.valuations.insert(credit_line_id, valuation),
                                ..s
                            };
                            emit_for_line(
                                s,
                                s1,
                                credit_line_id,
                                EntityKind::Valuation,
                                CollateralAction::LineRevalued,
                                valuer,
                                role,
                                Bytes32::spec_zero(),
                                line_label(l.status),
                                line_label(line.status),
                                valuation_ref,
                                valuation_ref,
                                CollateralPayloadV1::Revalued(
                                    RevaluedData {
                                        price_per_oz_e7,
                                        confidence_e7,
                                        margin_state: margin,
                                        drawn_balance: l.drawn_balance,
                                        advance_base,
                                        available_after: available,
                                    },
                                ),
                                env,
                            )
                        }
                    },
                },
            }
        }
    }
}

/// The post-revaluation capacity can be computed in the i128 range.
pub open spec fn revalue_fits(s: LedgerState, credit_line_id: Bytes32, price_per_oz_e7: i128) -> bool {
    s.lines.contains_key(credit_line_id) && s.pledges.contains_key(s.lines[credit_line_id].pledge_id)
        && s.positions.contains_key(s.pledges[s.lines[credit_line_id].pledge_id].position_id) ==> {
        let l = s.lines[credit_line_id];
        let weight = s.positions[s.pledges[l.pledge_id].position_id].fine_weight_oz_e7;
        match borrowing_base_spec(weight, price_per_oz_e7, l.ltv_bps) {
            Ok(advance_base) => fits_i128(min_i128(advance_base, l.approved_limit) - l.drawn_balance),
            Err(_) => true,
        }
    }
}

impl CreditLedger {
    /// Revalue a line at a fresh price submitted by an approved valuer or the
    /// line's approved bank. Refuses malformed thresholds, stale, future-dated
    /// or low-confidence prices; then records the valuation, sets the margin
    /// state against the maintenance band of raw collateral value, restores
    /// capacity to the advance base (capped at the limit) less the drawn
    /// balance, and suspends on a margin call. A bank stop is never cleared.
    #[allow(clippy::too_many_arguments)]
    pub fn revalue_and_check(
        &mut self,
        credit_line_id: Bytes32,
        valuer: Address,
        price_per_oz_e7: i128,
        confidence_e7: i128,
        priced_at: u64,
        max_age_secs: u64,
        conf_tol_bps: u32,
        warning_bps: u32,
        valuation_ref: Bytes32,
        env: LedgerEnv,
    ) -> (r: Result<CollateralEventV1, Error>)
        requires
            old(self).wf(),
            old(self)@.seq_room_for(
                step_revalue_and_check(
                    old(self)@,
                    credit_line_id,
                    valuer,
                    price_per_oz_e7,
                    confidence_e7,
                    priced_at,
                    max_age_secs,
                    conf_tol_bps,
                    warning_bps,
                    valuation_ref,
                    env,
                ),
            ),
            step_revalue_and_check(
                old(self)@,
                credit_line_id,
                valuer,
                price_per_oz_e7,
                confidence_e7,
                priced_at,
                max_age_secs,
                conf_tol_bps,
                warning_bps,
                valuation_ref,
                env,
            ) is Ok ==> revalue_fits(old(self)@, credit_line_id, price_per_oz_e7),
        ensures
            final(self).wf(),
            outcome(
                old(self)@,
                final(self)@,
                r,
                step_revalue_and_check(
                    old(self)@,
                    credit_line_id,
                    valuer,
                    price_per_oz_e7,
                    confidence_e7,
                    priced_at,
                    max_age_secs,
                    conf_tol_bps,
                    warning_bps,
                    valuation_ref,
                    env,
                ),
            ),
    {
        if valuation_ref.is_zero() {
            return Err(Error::InvalidDocumentHash);
        }
        if max_age_secs == 0 || conf_tol_bps == 0 || conf_tol_bps > 10_000 || warning_bps == 0
            || warning_bps > 10_000 {
            return Err(Error::InvalidRevaluationParams);
        }
        let is_valuer = self.is_approved(valuer, Role::Valuation);
        let l = self.load_line(&credit_line_id)?;
        let is_line_bank = l.bank == valuer && self.is_approved(valuer, Role::Bank);
        if !is_valuer && !is_line_bank {
            return Err(Error::NotAuthorized);
        }
        let role = if is_line_bank {
            Role::Bank
        } else {
            Role::Valuation
        };
        if l.status == LineStatus::Closed || l.status == LineStatus::Defaulted {
            return Err(Error::LineNotActive);
        }
        if price_per_oz_e7 <= 0 || confidence_e7 < 0 {
            return Err(Error::PriceNotPositive);
        }
        let now = env.timestamp;
        if priced_at > now {
            return Err(Error::PriceFromFuture);
        }
        if now > priced_at && now - priced_at > max_age_secs {
            return Err(Error::PriceStale);
        }
        let max_conf = match price_per_oz_e7.checked_mul(conf_tol_bps as i128) {
            Some(v) => v / 10_000i128,
            None => {
                return Err(Error::InvalidRiskParams);
            },
        };
        if confidence_e7 > max_conf {
            return Err(Error::PriceConfidenceTooWide);
        }
        let pledge = self.load_pledge(&l.pledge_id)?;
        let pos = self.load_position(&pledge.position_id)?;
        let raw_value = Self::borrowing_base(pos.fine_weight_oz_e7, price_per_oz_e7, 10_000)?;
        let advance_base = Self::borrowing_base(pos.fine_weight_oz_e7, price_per_oz_e7, l.ltv_bps)?;
        let action_band = match raw_value.checked_mul(l.maintenance_bps as i128) {
            Some(v) => v / 10_000i128,
            None => {
                return Err(Error::InvalidRiskParams);
            },
        };
        let warning_band = match action_band.checked_mul(warning_bps as i128) {
            Some(v) => v / 10_000i128,
            None => {
                return Err(Error::InvalidRiskParams);
            },
        };
        let margin = if l.drawn_balance > action_band {
            MarginState::Called
        } else if l.drawn_balance > warning_band {
            MarginState::Warning
        } else {
            MarginState::Covered
        };
        let ctx = self.line_context(&credit_line_id)?;
        let cover = if advance_base < l.approved_limit {
            advance_base
        } else {
            l.approved_limit
        };
        let diff = cover - l.drawn_balance;
        let available = if diff > 0 {
            diff
        } else {
            0
        };
        let status = if l.manual_bank_suspension {
            LineStatus::Suspended
        } else if margin == MarginState::Called {
            LineStatus::Suspended
        } else {
            LineStatus::Active
        };
        let line = CreditLine { available_limit: available, status, ..l };
        self.lines.set(credit_line_id, line);
        let valuation = LineValuation {
            price_per_oz_e7,
            confidence_e7,
            priced_at,
            valued_at_ledger: env.sequence,
            borrowing_base: advance_base,
            margin_state: margin,
        };
        self.valuations.set(credit_line_id, valuation);
        let ev = Self::template(
            ctx.framework_id,
            EntityKind::Valuation,
            CollateralAction::LineRevalued,
            valuer,
            role,
            ctx.position_id,
            ctx.pledge_id,
            credit_line_id,
            Bytes32::zero(),
            StateLabel::from_line(l.status),
            StateLabel::from_line(status),
            valuation_ref,
            valuation_ref,
            CollateralPayloadV1::Revalued(
                RevaluedData {
                    price_per_oz_e7,
                    confidence_e7,
                    margin_state: margin,
                    drawn_balance: l.drawn_balance,
                    advance_base,
                    available_after: available,
                },
            ),
        );
        proof {
            assert(self@ =~= LedgerState {
                lines: old(self)@.lines.insert(credit_line_id, line),
                valuations: old(self)@.valuations.insert(credit_line_id, valuation),
                ..old(self)@
            });
        }
        Ok(self.emit(ev, env))
    }

    /// Read the latest revaluation of a line.
    pub fn get_valuation(&self, credit_line_id: Bytes32) -> (r: Result<LineValuation, Error>)
        requires
            self.wf(),
        ensures
            r == (if self@.valuations.contains_key(credit_line_id) {
                Ok::<LineValuation, Error>(self@.valuations[credit_line_id])
            } else {
                Err(Error::LineNotFound)
            }),
    {
        match self.valuations.get(&credit_line_id) {
            Some(v) => Ok(v),
            None => Err(Error::LineNotFound),
        }
    }
}

impl CreditLedger {
    /// Whether `revalue_and_check` with these arguments stays in the i128
    /// range: it is refused before the capacity is computed, or the advance
    /// base (capped at the limit) less the drawn balance can be computed.
    /// Exactly the condition `revalue_and_check` requires.
    #[allow(clippy::too_many_arguments)]
    pub fn revalue_and_check_in_range(
        &self,
        credit_line_id: Bytes32,
        valuer: Address,
        price_per_oz_e7: i128,
        confidence_e7: i128,
        priced_at: u64,
        max_age_secs: u64,
        conf_tol_bps: u32,
        warning_bps: u32,
        valuation_ref: Bytes32,
        env: LedgerEnv,
    ) -> (r: bool)
        requires
            self.wf(),
        ensures
            r == (step_revalue_and_check(
                self@,
                credit_line_id,
                valuer,
                price_per_oz_e7,
                confidence_e7,
                priced_at,
                max_age_secs,
                conf_tol_bps,
                warning_bps,
                valuation_ref,
                env,
            ) is Ok ==> revalue_fits(self@, credit_line_id, price_per_oz_e7)),
    {
        if valuation_ref.is_zero() || max_age_secs == 0 || conf_tol_bps == 0 || conf_tol_bps > 10_000
            || warning_bps == 0 || warning_bps > 10_000 {
            return true;
        }
        let is_valuer = self.is_approved(valuer, Role::Valuation);
        let l = match self.load_line(&credit_line_id) {
            Ok(l) => l,
            Err(_) => {
                return true;
            },
        };
        let is_line_bank = l.bank == valuer && self.is_approved(valuer, Role::Bank);
        if !is_valuer && !is_line_bank {
            return true;
        }
        if l.status == LineStatus::Closed || l.status == LineStatus::Defaulted || price_per_oz_e7 <= 0
            || confidence_e7 < 0 {
            return true;
        }
        let now = env.timestamp;
        if priced_at > now || (now > priced_at && now - priced_at > max_age_secs) {
            return true;
        }
        let max_conf = match price_per_oz_e7.checked_mul(conf_tol_bps as i128) {
            Some(v) => v / 10_000i128,
            None => {
                return true;
            },
        };
        if confidence_e7 > max_conf {
            return true;
        }
        let pledge = match self.load_pledge(&l.pledge_id) {
            Ok(p) => p,
            Err(_) => {
                return true;
            },
        };
        let pos = match self.load_position(&pledge.position_id) {
            Ok(p) => p,
            Err(_) => {
                return true;
            },
        };
        let raw_value = match Self::borrowing_base(pos.fine_weight_oz_e7, price_per_oz_e7, 10_000) {
            Ok(v) => v,
            Err(_) => {
                return true;
            },
        };
        let advance_base = match Self::borrowing_base(pos.fine_weight_oz_e7, price_per_oz_e7, l.ltv_bps) {
            Ok(v) => v,
            Err(_) => {
                return true;
            },
        };
        let action_band = match raw_value.checked_mul(l.maintenance_bps as i128) {
            Some(v) => v / 10_000i128,
            None => {
                return true;
            },
        };
        if action_band.checked_mul(warning_bps as i128).is_none() {
            return true;
        }
        if self.line_context(&credit_line_id).is_err() {
            return true;
        }
        let cover = if advance_base < l.approved_limit {
            advance_base
        } else {
            l.approved_limit
        };
        cover.checked_sub(l.drawn_balance).is_some()
    }
}

} // verus!
