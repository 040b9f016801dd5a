//! What each credit-ledger operation guarantees when it is accepted, stated
//! directly over its inputs and the records before and after: the price
//! policy of a revaluation, the advance-rate coverage of a line and of an
//! adjustment, and the capacity a resumed line gets back.
use vstd::prelude::*;

use crate::primitives::{Address, Bytes32};
use super::event::{line_label, CollateralPayloadV1};
use super::state::adjustments::{
    step_bank_approve_adjustment, step_custodian_confirm_adjustment, step_request_adjustment,
};
use super::state::collateral::{
    step_activate_pledge, step_confirm_and_immobilize, step_register_framework, step_register_position,
    step_select_bars,
};
use super::state::lines::{
    draw_fits, repay_fits, resume_fits, step_apply_repayment, step_bank_resume_line, step_bank_suspend_line,
    step_open_credit_line, step_record_drawdown, step_reverse_drawdown, unwind_fits,
};
use super::state::readiness::{step_expire_readiness, step_open_readiness, step_populate_readiness};
use super::state::release::{
    step_bank_authorize_release, step_cure_default, step_custodian_confirm_release,
    step_issue_default_notice, step_record_enforcement,
};
use super::state::valuation::{revalue_fits, step_revalue_and_check};
use super::error::Error;
use super::state::{trunc_div, LedgerState};
use super::types::{
    AdjustmentStatus, AdjustmentType, EnforcementOutcome, FrameworkStatus, LedgerEnv, LineStatus,
    MarginState, PledgeStatus, PositionStatus, ReadinessStatus, Role,
};

verus! {

/// One unit of `weight * price * rate`: troy ounces and prices are scaled by
/// 1e7 and rates are in basis points, so the value is the product over 1e18.
pub open spec fn value_scale() -> int {
    1_000_000_000_000_000_000
}

/// An accepted revaluation used a price the policy allows: a non-zero
/// reference, sane thresholds, a positive price no newer than now and no
/// older than `max_age_secs`, and a confidence no wider than `conf_tol_bps`
/// basis points of the price; it came from the valuer or the line's bank,
/// on a line that was neither Closed nor Defaulted; and it records that
/// price with the current ledger.
pub proof fn law_revaluation_respects_price_policy(
    s: LedgerState,
    credit_line_id: Bytes32,
    valuer: Address,
    price_per_oz_e7: i128,
    confidence_e7: i128,
    priced_at: u64,
    max_age_secs: u64,
    conf_tol_bps: u32,
    warning_bps: u32,
    valuation_ref: Bytes32,
    env: LedgerEnv,
)
    requires
        step_revalue_and_check(
            s,
            credit_line_id,
            valuer,
            price_per_oz_e7,
            confidence_e7,
            priced_at,
            max_age_secs,
            conf_tol_bps,
            warning_bps,
            valuation_ref,
            env,
        ) is Ok,
    ensures
        ({
            let post = step_revalue_and_check(
                s,
                credit_line_id,
                valuer,
                price_per_oz_e7,
                confidence_e7,
                priced_at,
                max_age_secs,
                conf_tol_bps,
                warning_bps,
                valuation_ref,
                env,
            )->Ok_0.0;
            let l = s.lines[credit_line_id];
            let v = post.valuations[credit_line_id];
            &&& !valuation_ref.spec_is_zero()
            &&& 0 < max_age_secs
            &&& 0 < conf_tol_bps <= 10_000
            &&& 0 < warning_bps <= 10_000
            &&& 0 < price_per_oz_e7
            &&& 0 <= confidence_e7
            &&& confidence_e7 * 10_000 <= price_per_oz_e7 * conf_tol_bps
            &&& priced_at <= env.timestamp
            &&& env.timestamp - priced_at <= max_age_secs
            &&& (s.approved(valuer, Role::Valuation) || (l.bank == valuer && s.approved(valuer, Role::Bank)))
            &&& l.status != LineStatus::Closed && l.status != LineStatus::Defaulted
            &&& v.price_per_oz_e7 == price_per_oz_e7
            &&& v.confidence_e7 == confidence_e7
            &&& v.priced_at == priced_at
            &&& v.valued_at_ledger == env.sequence
        }),
{
}

/// An accepted adjustment approval leaves the line covered at its own
/// advance rate: the new bars' value at the line's LTV is at least the drawn
/// balance. It was a positive price from the line's approved bank on a
/// custodian-confirmed adjustment, which becomes Approved, and the pledged
/// position takes the new bar list, serials and weight.
pub proof fn law_adjustment_keeps_advance_rate_cover(
    s: LedgerState,
    adjustment_id: Bytes32,
    bank: Address,
    price_per_oz_e7: i128,
    env: LedgerEnv,
)
    requires
        step_bank_approve_adjustment(s, adjustment_id, bank, price_per_oz_e7, env) is Ok,
    ensures
        ({
            let post = step_bank_approve_adjustment(s, adjustment_id, bank, price_per_oz_e7, env)->Ok_0.0;
            let adj = s.adjustments[adjustment_id];
            let l = s.lines[adj.credit_line_id];
            let position_id = s.pledges[l.pledge_id].position_id;
            let pos = post.positions[position_id];
            &&& 0 < price_per_oz_e7
            &&& adj.status == AdjustmentStatus::CustodianConfirmed
            &&& l.bank == bank && s.approved(bank, Role::Bank)
            &&& trunc_div(adj.new_weight_oz_e7 * price_per_oz_e7 * l.ltv_bps, value_scale()) >= l.drawn_balance
            &&& post.adjustments[adjustment_id].status == AdjustmentStatus::Approved
            &&& pos.fine_weight_oz_e7 == adj.new_weight_oz_e7
            &&& pos.serials_hash == adj.new_serials_hash
            &&& pos.barlist_hash == adj.new_barlist_hash
            &&& post.lines == s.lines
        }),
{
}

/// An accepted line opening stays within the borrowing base at the line's
/// own LTV: the limit is positive and at most the pledged position's value
/// at `ltv_bps`; the rates satisfy 0 < ltv < maintenance <= 10000; the bank
/// is the pledge's approved bank and the cardholder its pledgor; and the new
/// line starts Active with nothing drawn and the whole limit available.
pub proof fn law_line_opens_within_borrowing_base(
    s: LedgerState,
    credit_line_id: Bytes32,
    pledge_id: Bytes32,
    bank: Address,
    cardholder: Address,
    approved_limit: i128,
    ltv_bps: u32,
    maintenance_bps: u32,
    price_per_oz_e7: i128,
    env: LedgerEnv,
)
    requires
        step_open_credit_line(
            s,
            credit_line_id,
            pledge_id,
            bank,
            cardholder,
            approved_limit,
            ltv_bps,
            maintenance_bps,
            price_per_oz_e7,
            env,
        ) is Ok,
    ensures
        ({
            let post = step_open_credit_line(
                s,
                credit_line_id,
                pledge_id,
                bank,
                cardholder,
                approved_limit,
                ltv_bps,
                maintenance_bps,
                price_per_oz_e7,
                env,
            )->Ok_0.0;
            let pledge = s.pledges[pledge_id];
            let weight = s.positions[pledge.position_id].fine_weight_oz_e7;
            let l = post.lines[credit_line_id];
            &&& 0 < approved_limit
            &&& 0 < price_per_oz_e7
            &&& approved_limit <= trunc_div(weight * price_per_oz_e7 * ltv_bps, value_scale())
            &&& 0 < ltv_bps < maintenance_bps <= 10_000
            &&& pledge.status == PledgeStatus::Active
            &&& pledge.bank == bank && s.approved(bank, Role::Bank)
            &&& pledge.pledgor == cardholder
            &&& !s.lines.contains_key(credit_line_id)
            &&& l.pledge_id == pledge_id && l.bank == bank && l.cardholder == cardholder
            &&& l.approved_limit == approved_limit
            &&& l.drawn_balance == 0
            &&& l.available_limit == approved_limit
            &&& l.ltv_bps == ltv_bps && l.maintenance_bps == maintenance_bps
            &&& l.status == LineStatus::Active
            &&& !l.manual_bank_suspension
        }),
{
}

/// An accepted resume gives back only the capacity the collateral still
/// supports: the line becomes Active without the bank stop and with its
/// drawn balance as it was, and drawn plus available reaches exactly the
/// cover (the latest valuation's advance base capped at the limit, or the
/// limit when the line was never valued) when the drawn balance is within
/// it, with nothing available otherwise. In particular capacity never exceeds
/// the latest advance base less the drawn balance. (Under the bound the
/// operation itself requires: the cover less the drawn balance is an i128.)
pub proof fn law_resume_restores_capacity_to_latest_cover(
    s: LedgerState,
    credit_line_id: Bytes32,
    bank: Address,
    resume_evidence_hash: Bytes32,
    env: LedgerEnv,
)
    requires
        step_bank_resume_line(s, credit_line_id, bank, resume_evidence_hash, env) is Ok,
        resume_fits(s, credit_line_id),
    ensures
        ({
            let post = step_bank_resume_line(s, credit_line_id, bank, resume_evidence_hash, env)->Ok_0.0;
            let l = s.lines[credit_line_id];
            let l1 = post.lines[credit_line_id];
            let valued = s.valuations.contains_key(credit_line_id);
            let base = s.valuations[credit_line_id].borrowing_base;
            let cover = if valued && base < l.approved_limit {
                base as int
            } else {
                l.approved_limit as int
            };
            &&& l.bank == bank && s.approved(bank, Role::Bank)
            &&& l.manual_bank_suspension
            &&& l1.status == LineStatus::Active
            &&& !l1.manual_bank_suspension
            &&& l1.drawn_balance == l.drawn_balance
            &&& l1.approved_limit == l.approved_limit
            &&& (l.drawn_balance <= cover ==> l1.drawn_balance + l1.available_limit == cover)
            &&& (l.drawn_balance > cover ==> l1.available_limit == 0)
            &&& (valued && l.drawn_balance <= base ==> l1.drawn_balance + l1.available_limit <= base)
            &&& l1.drawn_balance + l1.available_limit <= l.approved_limit || l.drawn_balance > l.approved_limit
        }),
{
}

/// An accepted revaluation sets the margin state against the maintenance
/// band of the collateral's full value (Called above it, Warning above
/// `warning_bps` of it, Covered otherwise), records the advance base at the
/// line's LTV, gives the line capacity up to that base capped at the limit
/// less the drawn balance, suspends it on a margin call or under a bank stop
/// and otherwise makes it Active, and changes nothing else on the line.
pub proof fn law_revaluation_sets_margin_and_capacity(
    s: LedgerState,
    credit_line_id: Bytes32,
    valuer: Address,
    price_per_oz_e7: i128,
    confidence_e7: i128,
    priced_at: u64,
    max_age_secs: u64,
    conf_tol_bps: u32,
    warning_bps: u32,
    valuation_ref: Bytes32,
    env: LedgerEnv,
)
    requires
        step_revalue_and_check(
            s,
            credit_line_id,
            valuer,
            price_per_oz_e7,
            confidence_e7,
            priced_at,
            max_age_secs,
            conf_tol_bps,
            warning_bps,
            valuation_ref,
            env,
        ) is Ok,
        revalue_fits(s, credit_line_id, price_per_oz_e7),
    ensures
        ({
            let post = step_revalue_and_check(
                s,
                credit_line_id,
                valuer,
                price_per_oz_e7,
                confidence_e7,
                priced_at,
                max_age_secs,
                conf_tol_bps,
                warning_bps,
                valuation_ref,
                env,
            )->Ok_0.0;
            let ev = step_revalue_and_check(
                s,
                credit_line_id,
                valuer,
                price_per_oz_e7,
                confidence_e7,
                priced_at,
                max_age_secs,
                conf_tol_bps,
                warning_bps,
                valuation_ref,
                env,
            )->Ok_0.1;
            let l = s.lines[credit_line_id];
            let l1 = post.lines[credit_line_id];
            let v = post.valuations[credit_line_id];
            let weight = s.positions[s.pledges[l.pledge_id].position_id].fine_weight_oz_e7;
            let full_value = trunc_div(weight * price_per_oz_e7 * 10_000, value_scale());
            let action_band = trunc_div(full_value * l.maintenance_bps, 10_000);
            let warning_band = trunc_div(action_band * warning_bps, 10_000);
            let cover = if v.borrowing_base < l.approved_limit {
                v.borrowing_base as int
            } else {
                l.approved_limit as int
            };
            &&& v.borrowing_base == trunc_div(weight * price_per_oz_e7 * l.ltv_bps, value_scale())
            &&& (v.margin_state == MarginState::Called <==> l.drawn_balance > action_band)
            &&& (v.margin_state == MarginState::Warning <==> l.drawn_balance <= action_band
                && l.drawn_balance > warning_band)
            &&& (l.drawn_balance <= cover ==> l1.available_limit == cover - l.drawn_balance)
            &&& (l.drawn_balance > cover ==> l1.available_limit == 0)
            &&& (l1.status == LineStatus::Suspended <==> (l.manual_bank_suspension || v.margin_state
                == MarginState::Called))
            &&& (l1.status == LineStatus::Active <==> !(l.manual_bank_suspension || v.margin_state
                == MarginState::Called))
            &&& l1.manual_bank_suspension == l.manual_bank_suspension
            &&& l1.drawn_balance == l.drawn_balance
            &&& l1.approved_limit == l.approved_limit
            &&& l1.pledge_id == l.pledge_id
            &&& post.positions == s.positions
            &&& post.pledges == s.pledges
            &&& (match ev.payload {
                CollateralPayloadV1::Revalued(d) => {
                    &&& d.margin_state == v.margin_state
                    &&& d.advance_base == v.borrowing_base
                    &&& d.available_after == l1.available_limit
                    &&& d.drawn_balance == l.drawn_balance
                    &&& d.price_per_oz_e7 == price_per_oz_e7
                    &&& d.confidence_e7 == confidence_e7
                },
                _ => false,
            })
            &&& ev.new_state == line_label(l1.status)
            &&& ev.previous_state == line_label(l.status)
            &&& ev.actor == valuer
            &&& ev.role == (if l.bank == valuer && s.approved(valuer, Role::Bank) {
                Role::Bank
            } else {
                Role::Valuation
            })
        }),
{
}

/// An accepted drawdown comes from an approved processor under a fresh
/// authorization reference, for a positive amount within the available
/// capacity of an Active line whose pledge is Active; it moves exactly that
/// amount from available to drawn and records it, unreversed, at the
/// current ledger.
pub proof fn law_drawdown_moves_exactly_the_amount(
    s: LedgerState,
    credit_line_id: Bytes32,
    processor: Address,
    auth_ref: Bytes32,
    amount: i128,
    env: LedgerEnv,
)
    requires
        step_record_drawdown(s, credit_line_id, processor, auth_ref, amount, env) is Ok,
        draw_fits(s, credit_line_id, amount),
    ensures
        ({
            let post = step_record_drawdown(s, credit_line_id, processor, auth_ref, amount, env)->Ok_0.0;
            let l = s.lines[credit_line_id];
            let l1 = post.lines[credit_line_id];
            let d = post.draws[auth_ref];
            &&& s.approved(processor, Role::Processor)
            &&& !s.draws.contains_key(auth_ref)
            &&& 0 < amount <= l.available_limit
            &&& l.status == LineStatus::Active
            &&& s.pledges[l.pledge_id].status == PledgeStatus::Active
            &&& l1.drawn_balance == l.drawn_balance + amount
            &&& l1.available_limit == l.available_limit - amount
            &&& l1.approved_limit == l.approved_limit && l1.status == l.status
            &&& d.credit_line_id == credit_line_id && d.amount == amount && !d.reversed
            &&& d.drawn_at_ledger == env.sequence
        }),
{
}

/// An accepted reversal undoes one recorded, unreversed drawdown of exactly
/// its amount on its own line (not Closed): the amount moves back from drawn
/// to available and the record is kept, marked reversed.
pub proof fn law_reversal_moves_back_exactly_the_amount(
    s: LedgerState,
    credit_line_id: Bytes32,
    processor: Address,
    auth_ref: Bytes32,
    amount: i128,
    env: LedgerEnv,
)
    requires
        step_reverse_drawdown(s, credit_line_id, processor, auth_ref, amount, env) is Ok,
        unwind_fits(s, credit_line_id, amount),
    ensures
        ({
            let post = step_reverse_drawdown(s, credit_line_id, processor, auth_ref, amount, env)->Ok_0.0;
            let l = s.lines[credit_line_id];
            let l1 = post.lines[credit_line_id];
            let d = s.draws[auth_ref];
            &&& s.approved(processor, Role::Processor)
            &&& s.draws.contains_key(auth_ref) && !d.reversed
            &&& d.credit_line_id == credit_line_id && d.amount == amount && amount > 0
            &&& l.status != LineStatus::Closed
            &&& l1.drawn_balance == l.drawn_balance - amount
            &&& l1.available_limit == l.available_limit + amount
            &&& l1.status == l.status && l1.approved_limit == l.approved_limit
            &&& post.draws[auth_ref] == (super::types::DrawdownRecord { reversed: true, ..d })
        }),
{
}

/// An accepted repayment comes from the bound, approved vault under a fresh
/// payment reference, for a positive amount no more than the drawn balance
/// of a line that is not Closed; it moves exactly that amount from drawn to
/// available and records it at the current ledger.
pub proof fn law_repayment_moves_exactly_the_amount(
    s: LedgerState,
    credit_line_id: Bytes32,
    vault: Address,
    payment_ref: Bytes32,
    amount: i128,
    env: LedgerEnv,
)
    requires
        step_apply_repayment(s, credit_line_id, vault, payment_ref, amount, env) is Ok,
        repay_fits(s, credit_line_id, amount),
    ensures
        ({
            let post = step_apply_repayment(s, credit_line_id, vault, payment_ref, amount, env)->Ok_0.0;
            let l = s.lines[credit_line_id];
            let l1 = post.lines[credit_line_id];
            let r = post.repayments[payment_ref];
            &&& s.settlement_vault == Some(vault) && s.approved(vault, Role::Vault)
            &&& !s.repayments.contains_key(payment_ref)
            &&& 0 < amount <= l.drawn_balance
            &&& l.status != LineStatus::Closed
            &&& l1.drawn_balance == l.drawn_balance - amount
            &&& l1.available_limit == l.available_limit + amount
            &&& l1.status == l.status && l1.approved_limit == l.approved_limit
            &&& r.credit_line_id == credit_line_id && r.amount_applied == amount
            &&& r.applied_at_ledger == env.sequence
        }),
{
}

/// An accepted bank stop comes from the line's approved bank with a reason,
/// on a line neither Closed nor Defaulted; the line is suspended under the
/// stop flag with no capacity and its drawn balance as it was.
pub proof fn law_bank_stop_suspends_without_capacity(
    s: LedgerState,
    credit_line_id: Bytes32,
    bank: Address,
    reason_hash: Bytes32,
    env: LedgerEnv,
)
    requires
        step_bank_suspend_line(s, credit_line_id, bank, reason_hash, env) is Ok,
    ensures
        ({
            let post = step_bank_suspend_line(s, credit_line_id, bank, reason_hash, env)->Ok_0.0;
            let l = s.lines[credit_line_id];
            let l1 = post.lines[credit_line_id];
            &&& l.bank == bank && s.approved(bank, Role::Bank)
            &&& !reason_hash.spec_is_zero()
            &&& l.status != LineStatus::Closed && l.status != LineStatus::Defaulted
            &&& l1.status == LineStatus::Suspended && l1.manual_bank_suspension
            &&& l1.available_limit == 0
            &&& l1.drawn_balance == l.drawn_balance
        }),
{
}

/// An accepted default notice comes from the line's approved bank, with a
/// cure deadline after the current ledger, on an Active or Suspended line
/// whose pledge is Active; line and pledge become Defaulted and the line
/// records the deadline.
pub proof fn law_default_notice_sets_a_future_deadline(
    s: LedgerState,
    credit_line_id: Bytes32,
    bank: Address,
    cure_deadline_ledger: u32,
    notice_hash: Bytes32,
    env: LedgerEnv,
)
    requires
        step_issue_default_notice(s, credit_line_id, bank, cure_deadline_ledger, notice_hash, env) is Ok,
    ensures
        ({
            let post = step_issue_default_notice(s, credit_line_id, bank, cure_deadline_ledger, notice_hash, env)->Ok_0.0;
            let l = s.lines[credit_line_id];
            let l1 = post.lines[credit_line_id];
            &&& l.bank == bank && s.approved(bank, Role::Bank)
            &&& cure_deadline_ledger > env.sequence
            &&& (l.status == LineStatus::Active || l.status == LineStatus::Suspended)
            &&& s.pledges[l.pledge_id].status == PledgeStatus::Active
            &&& l1.status == LineStatus::Defaulted
            &&& l1.cure_expiry_ledger == cure_deadline_ledger
            &&& l1.drawn_balance == l.drawn_balance
            &&& post.pledges[l.pledge_id].status == PledgeStatus::Defaulted
        }),
{
}

/// An accepted cure comes from the line's cardholder on a Defaulted line;
/// line and pledge become Active again and the deadline is cleared.
pub proof fn law_cure_reactivates_line_and_pledge(
    s: LedgerState,
    credit_line_id: Bytes32,
    cardholder: Address,
    cure_evidence_hash: Bytes32,
    env: LedgerEnv,
)
    requires
        step_cure_default(s, credit_line_id, cardholder, cure_evidence_hash, env) is Ok,
    ensures
        ({
            let post = step_cure_default(s, credit_line_id, cardholder, cure_evidence_hash, env)->Ok_0.0;
            let l = s.lines[credit_line_id];
            let l1 = post.lines[credit_line_id];
            &&& l.cardholder == cardholder
            &&& l.status == LineStatus::Defaulted
            &&& l1.status == LineStatus::Active && l1.cure_expiry_ledger == 0
            &&& l1.drawn_balance == l.drawn_balance
            &&& post.pledges[l.pledge_id].status == PledgeStatus::Active
        }),
{
}

/// An accepted enforcement comes from the line's approved bank, with a legal
/// instrument, on a Defaulted line strictly after its cure deadline.
pub proof fn law_enforcement_only_after_the_deadline(
    s: LedgerState,
    credit_line_id: Bytes32,
    bank: Address,
    enforcement_outcome: EnforcementOutcome,
    legal_instrument_hash: Bytes32,
    env: LedgerEnv,
)
    requires
        step_record_enforcement(s, credit_line_id, bank, enforcement_outcome, legal_instrument_hash, env) is Ok,
    ensures
        ({
            let l = s.lines[credit_line_id];
            &&& l.bank == bank && s.approved(bank, Role::Bank)
            &&& l.status == LineStatus::Defaulted
            &&& env.sequence > l.cure_expiry_ledger
            &&& !legal_instrument_hash.spec_is_zero()
            &&& s.pledges[l.pledge_id].status != PledgeStatus::Enforced
        }),
{
}

/// An accepted release authorization comes from the line's approved bank
/// with a payoff letter, on a line with nothing drawn whose pledge is
/// Active: the line closes, the pledge becomes ReleaseAuthorized and the
/// position ReleasePending.
pub proof fn law_release_authorization_closes_a_paid_line(
    s: LedgerState,
    credit_line_id: Bytes32,
    bank: Address,
    payoff_letter_hash: Bytes32,
    env: LedgerEnv,
)
    requires
        step_bank_authorize_release(s, credit_line_id, bank, payoff_letter_hash, env) is Ok,
    ensures
        ({
            let post = step_bank_authorize_release(s, credit_line_id, bank, payoff_letter_hash, env)->Ok_0.0;
            let l = s.lines[credit_line_id];
            let pledge = s.pledges[l.pledge_id];
            &&& l.bank == bank && s.approved(bank, Role::Bank)
            &&& !payoff_letter_hash.spec_is_zero()
            &&& l.drawn_balance == 0
            &&& pledge.status == PledgeStatus::Active
            &&& post.lines[credit_line_id].status == LineStatus::Closed
            &&& post.pledges[l.pledge_id].status == PledgeStatus::ReleaseAuthorized
            &&& post.positions[pledge.position_id].status == PositionStatus::ReleasePending
        }),
{
}

/// An accepted release confirmation comes from the position's approved
/// custodian with a notice, on a ReleaseAuthorized pledge whose position is
/// ReleasePending: both become Released and the bar set is unlocked.
pub proof fn law_release_confirmation_frees_the_bars(
    s: LedgerState,
    pledge_id: Bytes32,
    custodian: Address,
    release_notice_hash: Bytes32,
    env: LedgerEnv,
)
    requires
        step_custodian_confirm_release(s, pledge_id, custodian, release_notice_hash, env) is Ok,
    ensures
        ({
            let post = step_custodian_confirm_release(s, pledge_id, custodian, release_notice_hash, env)->Ok_0.0;
            let pledge = s.pledges[pledge_id];
            let pos = s.positions[pledge.position_id];
            &&& pos.custodian == custodian && s.approved(custodian, Role::Custodian)
            &&& !release_notice_hash.spec_is_zero()
            &&& pledge.status == PledgeStatus::ReleaseAuthorized
            &&& pos.status == PositionStatus::ReleasePending
            &&& post.pledges[pledge_id].status == PledgeStatus::Released
            &&& post.positions[pledge.position_id].status == PositionStatus::Released
            &&& !post.bar_sets.contains_key(pos.serials_hash)
        }),
{
}

/// An accepted framework registration binds owner, approved bank and
/// approved custodian to six non-zero documents under a fresh id, Active.
pub proof fn law_framework_binds_its_documents(
    s: LedgerState,
    framework_id: Bytes32,
    owner: Address,
    bank: Address,
    custodian: Address,
    facility_agreement_hash: Bytes32,
    pledge_agreement_hash: Bytes32,
    custody_agreement_hash: Bytes32,
    eligible_schedule_hash: Bytes32,
    margin_policy_hash: Bytes32,
    enforcement_waterfall_hash: Bytes32,
    env: LedgerEnv,
)
    requires
        step_register_framework(
            s,
            framework_id,
            owner,
            bank,
            custodian,
            facility_agreement_hash,
            pledge_agreement_hash,
            custody_agreement_hash,
            eligible_schedule_hash,
            margin_policy_hash,
            enforcement_waterfall_hash,
            env,
        ) is Ok,
    ensures
        ({
            let post = step_register_framework(
                s,
                framework_id,
                owner,
                bank,
                custodian,
                facility_agreement_hash,
                pledge_agreement_hash,
                custody_agreement_hash,
                eligible_schedule_hash,
                margin_policy_hash,
                enforcement_waterfall_hash,
                env,
            )->Ok_0.0;
            let f = post.frameworks[framework_id];
            &&& s.approved(bank, Role::Bank) && s.approved(custodian, Role::Custodian)
            &&& !s.frameworks.contains_key(framework_id)
            &&& !facility_agreement_hash.spec_is_zero() && !pledge_agreement_hash.spec_is_zero()
            &&& !custody_agreement_hash.spec_is_zero() && !eligible_schedule_hash.spec_is_zero()
            &&& !margin_policy_hash.spec_is_zero() && !enforcement_waterfall_hash.spec_is_zero()
            &&& f.owner == owner && f.bank == bank && f.custodian == custodian
            &&& f.facility_agreement_hash == facility_agreement_hash
            &&& f.enforcement_waterfall_hash == enforcement_waterfall_hash
            &&& f.status == FrameworkStatus::Active
        }),
{
}

/// An accepted position registration comes from the framework's approved
/// custodian for the framework's owner, under an Active framework, a fresh
/// id, non-zero commitments, unlocked serials, a positive weight and an
/// attestation that has not expired; the position is Free and locks its
/// serials.
pub proof fn law_position_registration_policy(
    s: LedgerState,
    position_id: Bytes32,
    framework_id: Bytes32,
    owner: Address,
    custodian: Address,
    barlist_hash: Bytes32,
    serials_hash: Bytes32,
    fine_weight_oz_e7: i128,
    attestation_expiry: u32,
    env: LedgerEnv,
)
    requires
        step_register_position(
            s,
            position_id,
            framework_id,
            owner,
            custodian,
            barlist_hash,
            serials_hash,
            fine_weight_oz_e7,
            attestation_expiry,
            env,
        ) is Ok,
    ensures
        ({
            let post = step_register_position(
                s,
                position_id,
                framework_id,
                owner,
                custodian,
                barlist_hash,
                serials_hash,
                fine_weight_oz_e7,
                attestation_expiry,
                env,
            )->Ok_0.0;
            let f = s.frameworks[framework_id];
            let p = post.positions[position_id];
            &&& s.approved(custodian, Role::Custodian)
            &&& s.frameworks.contains_key(framework_id) && f.status == FrameworkStatus::Active
            &&& f.owner == owner && f.custodian == custodian
            &&& !s.positions.contains_key(position_id)
            &&& !barlist_hash.spec_is_zero() && !serials_hash.spec_is_zero()
            &&& !s.bar_sets.contains_key(serials_hash)
            &&& attestation_expiry >= env.sequence
            &&& fine_weight_oz_e7 > 0
            &&& p.owner == owner && p.custodian == custodian && p.framework_id == framework_id
            &&& p.serials_hash == serials_hash && p.barlist_hash == barlist_hash
            &&& p.fine_weight_oz_e7 == fine_weight_oz_e7 && p.attestation_expiry == attestation_expiry
            &&& p.status == PositionStatus::Free
            &&& post.bar_sets[serials_hash] == position_id
        }),
{
}

/// The collateral steps run in order under a live attestation: the owner
/// selects a Free position, its custodian earmarks a Selected one, and the
/// framework's bank takes a pledge from the owner on an Earmarked one.
pub proof fn law_collateral_steps_run_in_order(
    s: LedgerState,
    position_id: Bytes32,
    owner: Address,
    custodian: Address,
    request_hash: Bytes32,
    control_agreement_hash: Bytes32,
    pledge_id: Bytes32,
    bank: Address,
    legal_terms_hash: Bytes32,
    env: LedgerEnv,
)
    ensures
        step_select_bars(s, position_id, owner, request_hash, env) is Ok ==> {
            let p = s.positions[position_id];
            &&& p.owner == owner && p.status == PositionStatus::Free
            &&& p.attestation_expiry >= env.sequence && !request_hash.spec_is_zero()
            &&& step_select_bars(s, position_id, owner, request_hash, env)->Ok_0.0.positions[position_id].status
                == PositionStatus::Selected
        },
        step_confirm_and_immobilize(s, position_id, custodian, control_agreement_hash, env) is Ok ==> {
            let p = s.positions[position_id];
            &&& p.custodian == custodian && s.approved(custodian, Role::Custodian)
            &&& p.status == PositionStatus::Selected
            &&& p.attestation_expiry >= env.sequence && !control_agreement_hash.spec_is_zero()
            &&& step_confirm_and_immobilize(s, position_id, custodian, control_agreement_hash, env)->Ok_0.0.positions[position_id].status
                == PositionStatus::Earmarked
        },
        step_activate_pledge(s, pledge_id, position_id, owner, bank, legal_terms_hash, env) is Ok ==> {
            let p = s.positions[position_id];
            let post = step_activate_pledge(s, pledge_id, position_id, owner, bank, legal_terms_hash, env)->Ok_0.0;
            &&& !s.pledges.contains_key(pledge_id)
            &&& p.owner == owner && p.status == PositionStatus::Earmarked
            &&& s.approved(bank, Role::Bank) && s.frameworks[p.framework_id].bank == bank
            &&& s.frameworks[p.framework_id].status == FrameworkStatus::Active
            &&& p.attestation_expiry >= env.sequence
            &&& post.positions[position_id].status == PositionStatus::Pledged
            &&& post.pledges[pledge_id].position_id == position_id
            &&& post.pledges[pledge_id].pledgor == owner && post.pledges[pledge_id].bank == bank
            &&& post.pledges[pledge_id].status == PledgeStatus::Active
        },
{
}

/// Adjustments are requested by the pledgor of an Active line with a
/// positive weight and non-zero commitments, and confirmed by the position's
/// approved custodian while Requested.
pub proof fn law_adjustment_request_and_confirmation(
    s: LedgerState,
    adjustment_id: Bytes32,
    credit_line_id: Bytes32,
    owner: Address,
    adjustment_type: AdjustmentType,
    new_barlist_hash: Bytes32,
    new_serials_hash: Bytes32,
    new_weight_oz_e7: i128,
    request_hash: Bytes32,
    custodian: Address,
    custody_evidence_hash: Bytes32,
    env: LedgerEnv,
)
    ensures
        step_request_adjustment(
            s,
            adjustment_id,
            credit_line_id,
            owner,
            adjustment_type,
            new_barlist_hash,
            new_serials_hash,
            new_weight_oz_e7,
            request_hash,
            env,
        ) is Ok ==> {
            let l = s.lines[credit_line_id];
            let a = step_request_adjustment(
                s,
                adjustment_id,
                credit_line_id,
                owner,
                adjustment_type,
                new_barlist_hash,
                new_serials_hash,
                new_weight_oz_e7,
                request_hash,
                env,
            )->Ok_0.0.adjustments[adjustment_id];
            &&& !s.adjustments.contains_key(adjustment_id)
            &&& l.status == LineStatus::Active && s.pledges[l.pledge_id].pledgor == owner
            &&& new_weight_oz_e7 > 0
            &&& !new_barlist_hash.spec_is_zero() && !new_serials_hash.spec_is_zero() && !request_hash.spec_is_zero()
            &&& a.credit_line_id == credit_line_id && a.new_weight_oz_e7 == new_weight_oz_e7
            &&& a.new_serials_hash == new_serials_hash && a.new_barlist_hash == new_barlist_hash
            &&& a.status == AdjustmentStatus::Requested
        },
        step_custodian_confirm_adjustment(s, adjustment_id, custodian, custody_evidence_hash, env) is Ok ==> {
            let adj = s.adjustments[adjustment_id];
            let pos = s.positions[s.pledges[s.lines[adj.credit_line_id].pledge_id].position_id];
            &&& adj.status == AdjustmentStatus::Requested
            &&& pos.custodian == custodian && s.approved(custodian, Role::Custodian)
            &&& !custody_evidence_hash.spec_is_zero()
            &&& step_custodian_confirm_adjustment(s, adjustment_id, custodian, custody_evidence_hash, env)->Ok_0.0.adjustments[adjustment_id].status
                == AdjustmentStatus::CustodianConfirmed
        },
{
}

/// Readiness: the line's approved bank opens an Incomplete record at version
/// 0; a populate bumps the version by one and makes the record Ready exactly
/// when a real agent, route and settlement asset are set (agent and asset
/// other than the bank, route non-zero), which then needs non-zero valuation
/// and waterfall hashes and a window ending after the current ledger; an
/// expiry marks it Expired and keeps everything else.
pub proof fn law_readiness_is_ready_only_with_real_parties(
    s: LedgerState,
    credit_line_id: Bytes32,
    bank: Address,
    evidence_hash: Bytes32,
    liquidation_agent: Address,
    realization_route_hash: Bytes32,
    settlement_asset: Address,
    valuation_source_hash: Bytes32,
    waterfall_hash: Bytes32,
    valid_until_ledger: u32,
    env: LedgerEnv,
)
    ensures
        step_open_readiness(s, credit_line_id, bank, evidence_hash, env) is Ok ==> {
            let r = step_open_readiness(s, credit_line_id, bank, evidence_hash, env)->Ok_0.0.readiness[credit_line_id];
            &&& s.lines[credit_line_id].bank == bank && s.approved(bank, Role::Bank)
            &&& !s.readiness.contains_key(credit_line_id)
            &&& r.status == ReadinessStatus::Incomplete && r.version == 0
        },
        step_populate_readiness(
            s,
            credit_line_id,
            bank,
            liquidation_agent,
            realization_route_hash,
            settlement_asset,
            valuation_source_hash,
            waterfall_hash,
            valid_until_ledger,
            env,
        ) is Ok && s.readiness[credit_line_id].version < u32::MAX ==> {
            let r = step_populate_readiness(
                s,
                credit_line_id,
                bank,
                liquidation_agent,
                realization_route_hash,
                settlement_asset,
                valuation_source_hash,
                waterfall_hash,
                valid_until_ledger,
                env,
            )->Ok_0.0.readiness[credit_line_id];
            let genuine = liquidation_agent != bank && !realization_route_hash.spec_is_zero() && settlement_asset != bank;
            &&& s.lines[credit_line_id].bank == bank && s.approved(bank, Role::Bank)
            &&& r.version == s.readiness[credit_line_id].version + 1
            &&& (r.status == ReadinessStatus::Ready <==> genuine)
            &&& (r.status == ReadinessStatus::Incomplete <==> !genuine)
            &&& (genuine ==> !valuation_source_hash.spec_is_zero() && !waterfall_hash.spec_is_zero()
                && valid_until_ledger > env.sequence)
            &&& r.liquidation_agent == liquidation_agent && r.settlement_asset == settlement_asset
            &&& r.realization_route_hash == realization_route_hash && r.valid_until_ledger == valid_until_ledger
        },
        step_expire_readiness(s, credit_line_id, bank, evidence_hash, env) is Ok ==> {
            let r = step_expire_readiness(s, credit_line_id, bank, evidence_hash, env)->Ok_0.0.readiness[credit_line_id];
            &&& s.lines[credit_line_id].bank == bank && s.approved(bank, Role::Bank)
            &&& r == (super::types::EnforcementReadiness {
                status: ReadinessStatus::Expired,
                ..s.readiness[credit_line_id]
            })
        },
{
}

/// The borrowing base is the collateral's value at an advance rate: weight
/// times price times rate over 1e18, rounded toward zero; it is refused with
/// `InvalidRiskParams` exactly when weight times price, or that times the
/// rate, leaves the i128 range.
pub proof fn law_borrowing_base_is_value_at_rate(fine_weight_oz_e7: i128, price_per_oz_e7: i128, ltv_bps: u32)
    ensures
        ({
            let wp = fine_weight_oz_e7 * price_per_oz_e7;
            let r = super::state::borrowing_base_spec(fine_weight_oz_e7, price_per_oz_e7, ltv_bps);
            &&& (r is Ok <==> (i128::MIN <= wp <= i128::MAX && i128::MIN <= wp * ltv_bps <= i128::MAX))
            &&& (r is Err ==> r == Err::<i128, super::error::Error>(super::error::Error::InvalidRiskParams))
            &&& (r is Ok ==> r->Ok_0 == trunc_div(fine_weight_oz_e7 * price_per_oz_e7 * ltv_bps, value_scale()))
            &&& (r is Ok && wp >= 0 ==> r->Ok_0 * value_scale() <= wp * ltv_bps < (r->Ok_0 + 1) * value_scale())
        }),
{
    let wp = fine_weight_oz_e7 * price_per_oz_e7;
    assert(wp * ltv_bps == fine_weight_oz_e7 * price_per_oz_e7 * ltv_bps);
}

/// A revaluation is refused for its price only past the policy's limits:
/// `PriceNotPositive` only for a non-positive price or a negative confidence,
/// `PriceFromFuture` only for a price newer than now, `PriceStale` only for
/// one older than `max_age_secs`, and `PriceConfidenceTooWide` only for a
/// confidence wider than `conf_tol_bps` basis points of the price.
pub proof fn law_price_refusals_are_exact(
    s: LedgerState,
    credit_line_id: Bytes32,
    valuer: Address,
    price_per_oz_e7: i128,
    confidence_e7: i128,
    priced_at: u64,
    max_age_secs: u64,
    conf_tol_bps: u32,
    warning_bps: u32,
    valuation_ref: Bytes32,
    env: LedgerEnv,
)
    ensures
        ({
            let r = step_revalue_and_check(
                s,
                credit_line_id,
                valuer,
                price_per_oz_e7,
                confidence_e7,
                priced_at,
                max_age_secs,
                conf_tol_bps,
                warning_bps,
                valuation_ref,
                env,
            );
            &&& (r == Err::<(LedgerState, super::event::CollateralEventV1), Error>(Error::PriceNotPositive)
                ==> price_per_oz_e7 <= 0 || confidence_e7 < 0)
            &&& (r == Err::<(LedgerState, super::event::CollateralEventV1), Error>(Error::PriceFromFuture)
                ==> priced_at > env.timestamp)
            &&& (r == Err::<(LedgerState, super::event::CollateralEventV1), Error>(Error::PriceStale)
                ==> priced_at < env.timestamp && env.timestamp - priced_at > max_age_secs)
            &&& (r == Err::<(LedgerState, super::event::CollateralEventV1), Error>(Error::PriceConfidenceTooWide)
                ==> confidence_e7 * 10_000 > price_per_oz_e7 * conf_tol_bps)
        }),
{
}

/// Threshold refusals of the line operations happen only past their
/// thresholds: a drawdown is refused for capacity only when the amount is
/// above what is available, a reversal for its amount only when it differs
/// from the recorded drawdown, a repayment for its size only when it is above
/// the drawn balance, a line opening only when the limit is above the
/// borrowing base at its LTV, an adjustment only when the new bars' value at
/// the line's LTV is below the drawn balance, a release only while something
/// is drawn, a default notice only for a deadline not after now, and an
/// enforcement only up to and including the cure deadline.
pub proof fn law_line_threshold_refusals_are_exact(
    s: LedgerState,
    credit_line_id: Bytes32,
    actor: Address,
    key: Bytes32,
    amount: i128,
    pledge_id: Bytes32,
    cardholder: Address,
    ltv_bps: u32,
    maintenance_bps: u32,
    price_per_oz_e7: i128,
    deadline: u32,
    enforcement_outcome: EnforcementOutcome,
    env: LedgerEnv,
)
    ensures
        step_record_drawdown(s, credit_line_id, actor, key, amount, env) == Err::<
            (LedgerState, super::event::CollateralEventV1),
            Error,
        >(Error::InsufficientCapacity) ==> amount > s.lines[credit_line_id].available_limit,
        step_reverse_drawdown(s, credit_line_id, actor, key, amount, env) == Err::<
            (LedgerState, super::event::CollateralEventV1),
            Error,
        >(Error::ReversalAmountMismatch) ==> amount != s.draws[key].amount,
        step_apply_repayment(s, credit_line_id, actor, key, amount, env) == Err::<
            (LedgerState, super::event::CollateralEventV1),
            Error,
        >(Error::RepaymentExceedsOutstandingBalance) ==> amount > s.lines[credit_line_id].drawn_balance,
        step_open_credit_line(
            s,
            credit_line_id,
            pledge_id,
            actor,
            cardholder,
            amount,
            ltv_bps,
            maintenance_bps,
            price_per_oz_e7,
            env,
        ) == Err::<(LedgerState, super::event::CollateralEventV1), Error>(Error::LimitExceedsBorrowingBase)
            ==> amount > trunc_div(
            s.positions[s.pledges[pledge_id].position_id].fine_weight_oz_e7 * price_per_oz_e7 * ltv_bps,
            value_scale(),
        ),
        step_bank_approve_adjustment(s, key, actor, price_per_oz_e7, env) == Err::<
            (LedgerState, super::event::CollateralEventV1),
            Error,
        >(Error::AdjustmentUndercovered) ==> trunc_div(
            s.adjustments[key].new_weight_oz_e7 * price_per_oz_e7 * s.lines[s.adjustments[key].credit_line_id].ltv_bps,
            value_scale(),
        ) < s.lines[s.adjustments[key].credit_line_id].drawn_balance,
        step_bank_authorize_release(s, credit_line_id, actor, key, env) == Err::<
            (LedgerState, super::event::CollateralEventV1),
            Error,
        >(Error::OutstandingBalance) ==> s.lines[credit_line_id].drawn_balance != 0,
        step_issue_default_notice(s, credit_line_id, actor, deadline, key, env) == Err::<
            (LedgerState, super::event::CollateralEventV1),
            Error,
        >(Error::CureDeadlineNotFuture) ==> deadline <= env.sequence,
        step_record_enforcement(s, credit_line_id, actor, enforcement_outcome, key, env) == Err::<
            (LedgerState, super::event::CollateralEventV1),
            Error,
        >(Error::CurePeriodNotExpired) ==> env.sequence <= s.lines[credit_line_id].cure_expiry_ledger,
{
}

/// A custody attestation is stale only after its expiry ledger: every
/// collateral step refuses with `AttestationStale` only when the current
/// ledger is past the position's (or, on registration, the given) expiry.
pub proof fn law_attestation_refusals_are_exact(
    s: LedgerState,
    position_id: Bytes32,
    framework_id: Bytes32,
    owner: Address,
    custodian: Address,
    barlist_hash: Bytes32,
    serials_hash: Bytes32,
    fine_weight_oz_e7: i128,
    attestation_expiry: u32,
    request_hash: Bytes32,
    pledge_id: Bytes32,
    bank: Address,
    env: LedgerEnv,
)
    ensures
        step_register_position(
            s,
            position_id,
            framework_id,
            owner,
            custodian,
            barlist_hash,
            serials_hash,
            fine_weight_oz_e7,
            attestation_expiry,
            env,
        ) == Err::<(LedgerState, super::event::CollateralEventV1), Error>(Error::AttestationStale)
            ==> attestation_expiry < env.sequence,
        step_select_bars(s, position_id, owner, request_hash, env) == Err::<
            (LedgerState, super::event::CollateralEventV1),
            Error,
        >(Error::AttestationStale) ==> s.positions[position_id].attestation_expiry < env.sequence,
        step_confirm_and_immobilize(s, position_id, custodian, request_hash, env) == Err::<
            (LedgerState, super::event::CollateralEventV1),
            Error,
        >(Error::AttestationStale) ==> s.positions[position_id].attestation_expiry < env.sequence,
        step_activate_pledge(s, pledge_id, position_id, owner, bank, request_hash, env) == Err::<
            (LedgerState, super::event::CollateralEventV1),
            Error,
        >(Error::AttestationStale) ==> s.positions[position_id].attestation_expiry < env.sequence,
{
}

} // verus!
