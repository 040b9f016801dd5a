//! Properties of the credit ledger that span operations: the gap-free event
//! sequence, the collateral invariant (no double pledge, one pledge per
//! position, one line per pledge) kept by every operation, single use of
//! references, what a reversal undoes, and what a repayment, a revaluation or
//! a release may and may not touch.
use vstd::prelude::*;

use crate::primitives::{Address, Bytes32};
use super::error::Error;
use super::event::{line_label, CollateralEventV1, CollateralPayloadV1};
use super::types::{
    AdjustmentType, CreditLine, EnforcementOutcome, LedgerEnv, LineStatus, Pledge, PledgeStatus, PositionStatus,
    Role, VaultPosition,
};
use super::state::LedgerState;
use super::books::{
    collateral_consistent, holds_bars, lemma_activate_pledge, lemma_line_update, lemma_open_line,
    lemma_pledge_move, lemma_position_relabel, lemma_register_position, lemma_relock, lemma_same_books,
};
use super::state::access::{step_approve_party, step_initialize, step_revoke_party};
use super::state::adjustments::{
    step_bank_approve_adjustment, step_custodian_confirm_adjustment, step_request_adjustment,
};
use super::state::collateral::{
    step_activate_pledge, step_confirm_and_immobilize, step_register_framework, step_register_position,
    step_select_bars,
};
use super::state::lines::{
    draw_fits, repay_fits, unwind_fits, step_apply_repayment, step_bank_resume_line, step_bank_suspend_line, step_open_credit_line,
    step_record_drawdown, step_reverse_drawdown,
};
use super::state::readiness::{step_expire_readiness, step_open_readiness, step_populate_readiness};
use super::state::release::{
    step_bank_authorize_release, step_cure_default, step_custodian_confirm_release,
    step_issue_default_notice, step_record_enforcement,
};
use super::state::valuation::step_revalue_and_check;

verus! {

/// Every operation of the ledger that publishes a collateral event, with its
/// arguments.
pub ghost enum EventOp {
    RegisterFramework {
        framework_id: Bytes32,
        owner: Address,
        bank: Address,
        custodian: Address,
        facility_agreement_hash: Bytes32,
        pledge_agreement_hash: Bytes32,
        custody_agreement_hash: Bytes32,
        eligible_schedule_hash: Bytes32,
        margin_policy_hash: Bytes32,
        enforcement_waterfall_hash: Bytes32,
    },
    RegisterPosition {
        position_id: Bytes32,
        framework_id: Bytes32,
        owner: Address,
        custodian: Address,
        barlist_hash: Bytes32,
        serials_hash: Bytes32,
        fine_weight_oz_e7: i128,
        attestation_expiry: u32,
    },
    SelectBars { position_id: Bytes32, owner: Address, request_hash: Bytes32 },
    ConfirmAndImmobilize { position_id: Bytes32, custodian: Address, control_agreement_hash: Bytes32 },
    ActivatePledge {
        pledge_id: Bytes32,
        position_id: Bytes32,
        owner: Address,
        bank: Address,
        legal_terms_hash: Bytes32,
    },
    OpenCreditLine {
        credit_line_id: Bytes32,
        pledge_id: Bytes32,
        bank: Address,
        cardholder: Address,
        approved_limit: i128,
        ltv_bps: u32,
        maintenance_bps: u32,
        price_per_oz_e7: i128,
    },
    RecordDrawdown { credit_line_id: Bytes32, processor: Address, auth_ref: Bytes32, amount: i128 },
    ReverseDrawdown { credit_line_id: Bytes32, processor: Address, auth_ref: Bytes32, amount: i128 },
    ApplyRepayment { credit_line_id: Bytes32, vault: Address, payment_ref: Bytes32, amount: i128 },
    BankSuspendLine { credit_line_id: Bytes32, bank: Address, reason_hash: Bytes32 },
    BankResumeLine { credit_line_id: Bytes32, bank: Address, resume_evidence_hash: Bytes32 },
    RequestAdjustment {
        adjustment_id: Bytes32,
        credit_line_id: Bytes32,
        owner: Address,
        adjustment_type: AdjustmentType,
        new_barlist_hash: Bytes32,
        new_serials_hash: Bytes32,
        new_weight_oz_e7: i128,
        request_hash: Bytes32,
    },
    ConfirmAdjustment { adjustment_id: Bytes32, custodian: Address, custody_evidence_hash: Bytes32 },
    ApproveAdjustment { adjustment_id: Bytes32, bank: Address, price_per_oz_e7: i128 },
    AuthorizeRelease { credit_line_id: Bytes32, bank: Address, payoff_letter_hash: Bytes32 },
    ConfirmRelease { pledge_id: Bytes32, custodian: Address, release_notice_hash: Bytes32 },
    IssueDefaultNotice {
        credit_line_id: Bytes32,
        bank: Address,
        cure_deadline_ledger: u32,
        notice_hash: Bytes32,
    },
    CureDefault { credit_line_id: Bytes32, cardholder: Address, cure_evidence_hash: Bytes32 },
    RecordEnforcement {
        credit_line_id: Bytes32,
        bank: Address,
        enforcement_outcome: EnforcementOutcome,
        legal_instrument_hash: Bytes32,
    },
    RevalueAndCheck {
        credit_line_id: Bytes32,
        valuer: Address,
        price_per_oz_e7: i128,
        confidence_e7: i128,
        priced_at: u64,
        max_age_secs: u64,
        conf_tol_bps: u32,
        warning_bps: u32,
        valuation_ref: Bytes32,
    },
    OpenReadiness { credit_line_id: Bytes32, bank: Address, readiness_evidence_hash: Bytes32 },
    PopulateReadiness {
        credit_line_id: Bytes32,
        bank: Address,
        liquidation_agent: Address,
        realization_route_hash: Bytes32,
        settlement_asset: Address,
        valuation_source_hash: Bytes32,
        waterfall_hash: Bytes32,
        valid_until_ledger: u32,
    },
    ExpireReadiness { credit_line_id: Bytes32, bank: Address, expiry_evidence_hash: Bytes32 },
}

/// The transition an event-publishing operation makes from state `s`.
pub open spec fn event_step(s: LedgerState, op: EventOp, env: LedgerEnv) -> Result<
    (LedgerState, CollateralEventV1),
    Error,
> {
    match op {
        EventOp::RegisterFramework {
            framework_id,
            owner,
            bank,
            custodian,
            facility_agreement_hash,
            pledge_agreement_hash,
            custody_agreement_hash,
            eligible_schedule_hash,
            margin_policy_hash,
            enforcement_waterfall_hash,
        } => step_register_framework(
            s,
            framework_id,
            owner,
            bank,
            custodian,
            facility_agreement_hash,
            pledge_agreement_hash,
            custody_agreement_hash,
            eligible_schedule_hash,
            margin_policy_hash,
            enforcement_waterfall_hash,
            env,
        ),
        EventOp::RegisterPosition {
            position_id,
            framework_id,
            owner,
            custodian,
            barlist_hash,
            serials_hash,
            fine_weight_oz_e7,
            attestation_expiry,
        } => step_register_position(
            s,
            position_id,
            framework_id,
            owner,
            custodian,
            barlist_hash,
            serials_hash,
            fine_weight_oz_e7,
            attestation_expiry,
            env,
        ),
        EventOp::SelectBars { position_id, owner, request_hash } => step_select_bars(
            s,
            position_id,
            owner,
            request_hash,
            env,
        ),
        EventOp::ConfirmAndImmobilize { position_id, custodian, control_agreement_hash } =>
            step_confirm_and_immobilize(s, position_id, custodian, control_agreement_hash, env),
        EventOp::ActivatePledge { pledge_id, position_id, owner, bank, legal_terms_hash } =>
            step_activate_pledge(s, pledge_id, position_id, owner, bank, legal_terms_hash, env),
        EventOp::OpenCreditLine {
            credit_line_id,
            pledge_id,
            bank,
            cardholder,
            approved_limit,
            ltv_bps,
            maintenance_bps,
            price_per_oz_e7,
        } => step_open_credit_line(
            s,
            credit_line_id,
            pledge_id,
            bank,
            cardholder,
            approved_limit,
            ltv_bps,
            maintenance_bps,
            price_per_oz_e7,
            env,
        ),
        EventOp::RecordDrawdown { credit_line_id, processor, auth_ref, amount } =>
            step_record_drawdown(s, credit_line_id, processor, auth_ref, amount, env),
        EventOp::ReverseDrawdown { credit_line_id, processor, auth_ref, amount } =>
            step_reverse_drawdown(s, credit_line_id, processor, auth_ref, amount, env),
        EventOp::ApplyRepayment { credit_line_id, vault, payment_ref, amount } =>
            step_apply_repayment(s, credit_line_id, vault, payment_ref, amount, env),
        EventOp::BankSuspendLine { credit_line_id, bank, reason_hash } => step_bank_suspend_line(
            s,
            credit_line_id,
            bank,
            reason_hash,
            env,
        ),
        EventOp::BankResumeLine { credit_line_id, bank, resume_evidence_hash } =>
            step_bank_resume_line(s, credit_line_id, bank, resume_evidence_hash, env),
        EventOp::RequestAdjustment {
            adjustment_id,
            credit_line_id,
            owner,
            adjustment_type,
            new_barlist_hash,
            new_serials_hash,
            new_weight_oz_e7,
            request_hash,
        } => step_request_adjustment(
            s,
            adjustment_id,
            credit_line_id,
            owner,
            adjustment_type,
            new_barlist_hash,
            new_serials_hash,
            new_weight_oz_e7,
            request_hash,
            env,
        ),
        EventOp::ConfirmAdjustment { adjustment_id, custodian, custody_evidence_hash } =>
            step_custodian_confirm_adjustment(s, adjustment_id, custodian, custody_evidence_hash, env),
        EventOp::ApproveAdjustment { adjustment_id, bank, price_per_oz_e7 } =>
            step_bank_approve_adjustment(s, adjustment_id, bank, price_per_oz_e7, env),
        EventOp::AuthorizeRelease { credit_line_id, bank, payoff_letter_hash } =>
            step_bank_authorize_release(s, credit_line_id, bank, payoff_letter_hash, env),
        EventOp::ConfirmRelease { pledge_id, custodian, release_notice_hash } =>
            step_custodian_confirm_release(s, pledge_id, custodian, release_notice_hash, env),
        EventOp::IssueDefaultNotice { credit_line_id, bank, cure_deadline_ledger, notice_hash } =>
            step_issue_default_notice(s, credit_line_id, bank, cure_deadline_ledger, notice_hash, env),
        EventOp::CureDefault { credit_line_id, cardholder, cure_evidence_hash } => step_cure_default(
            s,
            credit_line_id,
            cardholder,
            cure_evidence_hash,
            env,
        ),
        EventOp::RecordEnforcement {
            credit_line_id,
            bank,
            enforcement_outcome,
            legal_instrument_hash,
        } => step_record_enforcement(
            s,
            credit_line_id,
            bank,
            enforcement_outcome,
            legal_instrument_hash,
            env,
        ),
        EventOp::RevalueAndCheck {
            credit_line_id,
            valuer,
            price_per_oz_e7,
            confidence_e7,
            priced_at,
            max_age_secs,
            conf_tol_bps,
            warning_bps,
            valuation_ref,
        } => step_revalue_and_check(
            s,
            credit_line_id,
            valuer,
            price_per_oz_e7,
            confidence_e7,
            priced_at,
            max_age_secs,
            conf_tol_bps,
            warning_bps,
            valuation_ref,
            env,
        ),
        EventOp::OpenReadiness { credit_line_id, bank, readiness_evidence_hash } =>
            step_open_readiness(s, credit_line_id, bank, readiness_evidence_hash, env),
        EventOp::PopulateReadiness {
            credit_line_id,
            bank,
            liquidation_agent,
            realization_route_hash,
            settlement_asset,
            valuation_source_hash,
            waterfall_hash,
            valid_until_ledger,
        } => step_populate_readiness(
            s,
            credit_line_id,
            bank,
            liquidation_agent,
            realization_route_hash,
            settlement_asset,
            valuation_source_hash,
            waterfall_hash,
            valid_until_ledger,
            env,
        ),
        EventOp::ExpireReadiness { credit_line_id, bank, expiry_evidence_hash } =>
            step_expire_readiness(s, credit_line_id, bank, expiry_evidence_hash, env),
    }
}

/// `ev`, published in the move from `pre` to `post`, carries the next number
/// of its framework's sequence and the current ledger; that framework's last
/// sequence becomes it, and every other framework's stays as it was.
pub open spec fn sequenced(pre: LedgerState, post: LedgerState, ev: CollateralEventV1, env: LedgerEnv) -> bool {
    &&& ev.sequence == pre.seq_of(ev.framework_id) + 1
    &&& post.seq_of(ev.framework_id) == ev.sequence
    &&& ev.occurred_ledger == env.sequence
    &&& forall|f: Bytes32| f != ev.framework_id ==> #[trigger] post.seq_of(f) == pre.seq_of(f)
}

/// Gap-free event sequence: each accepted operation publishes exactly one
/// event, numbered one past the last event of its framework, and no other
/// framework's sequence moves; so an indexer that sees 1, 2, ..., n has seen
/// every event of that framework.
pub proof fn law_event_sequence_is_gap_free(s: LedgerState, op: EventOp, env: LedgerEnv)
    requires
        s.seq_room_for(event_step(s, op, env)),
        event_step(s, op, env) is Ok,
    ensures
        sequenced(s, event_step(s, op, env)->Ok_0.0, event_step(s, op, env)->Ok_0.1, env),
{
}

/// A drawdown is recorded at most once per authorization reference: right
/// after one is accepted, another with the same reference is refused. (For
/// any later state, see `law_records_are_kept` and
/// `law_recorded_references_are_refused`.)
pub proof fn law_auth_ref_is_single_use(
    s: LedgerState,
    credit_line_id: Bytes32,
    processor: Address,
    auth_ref: Bytes32,
    amount: i128,
    env: LedgerEnv,
    credit_line_id2: Bytes32,
    processor2: Address,
    amount2: i128,
    env2: LedgerEnv,
)
    requires
        step_record_drawdown(s, credit_line_id, processor, auth_ref, amount, env) is Ok,
    ensures
        step_record_drawdown(
            step_record_drawdown(s, credit_line_id, processor, auth_ref, amount, env)->Ok_0.0,
            credit_line_id2,
            processor2,
            auth_ref,
            amount2,
            env2,
        ) is Err,
{
}

/// A repayment is applied at most once per payment reference: right after
/// one is accepted, another with the same reference is refused. (For any
/// later state, see `law_records_are_kept` and
/// `law_recorded_references_are_refused`.)
pub proof fn law_payment_ref_is_single_use(
    s: LedgerState,
    credit_line_id: Bytes32,
    vault: Address,
    payment_ref: Bytes32,
    amount: i128,
    env: LedgerEnv,
    credit_line_id2: Bytes32,
    vault2: Address,
    amount2: i128,
    env2: LedgerEnv,
)
    requires
        step_apply_repayment(s, credit_line_id, vault, payment_ref, amount, env) is Ok,
    ensures
        step_apply_repayment(
            step_apply_repayment(s, credit_line_id, vault, payment_ref, amount, env)->Ok_0.0,
            credit_line_id2,
            vault2,
            payment_ref,
            amount2,
            env2,
        ) is Err,
{
}

/// Reversing a drawdown right after it was recorded is accepted and restores
/// the line exactly (balance, capacity and status); the drawdown record stays,
/// marked reversed, and cannot be reversed a second time.
pub proof fn law_reversal_undoes_drawdown(
    s: LedgerState,
    credit_line_id: Bytes32,
    processor: Address,
    auth_ref: Bytes32,
    amount: i128,
    env: LedgerEnv,
    env2: LedgerEnv,
    processor3: Address,
    amount3: i128,
    env3: LedgerEnv,
)
    requires
        draw_fits(s, credit_line_id, amount),
        step_record_drawdown(s, credit_line_id, processor, auth_ref, amount, env) is Ok,
    ensures
        ({
            let s1 = step_record_drawdown(s, credit_line_id, processor, auth_ref, amount, env)->Ok_0.0;
            let r2 = step_reverse_drawdown(s1, credit_line_id, processor, auth_ref, amount, env2);
            &&& r2 is Ok
            &&& r2->Ok_0.0.lines == s.lines
            &&& r2->Ok_0.0.draws[auth_ref].reversed
            &&& r2->Ok_0.0.draws[auth_ref].amount == amount
            &&& step_reverse_drawdown(r2->Ok_0.0, credit_line_id, processor3, auth_ref, amount3, env3) is Err
        }),
{
    let s1 = step_record_drawdown(s, credit_line_id, processor, auth_ref, amount, env)->Ok_0.0;
    let r2 = step_reverse_drawdown(s1, credit_line_id, processor, auth_ref, amount, env2);
    assert(r2->Ok_0.0.lines =~= s.lines);
}

/// The balance arithmetic of a drawdown, a reversal or a repayment stays in
/// the i128 range (the bound each of those operations requires).
pub open spec fn balance_move_fits(s: LedgerState, op: EventOp) -> bool {
    match op {
        EventOp::RecordDrawdown { credit_line_id, amount, .. } => draw_fits(s, credit_line_id, amount),
        EventOp::ReverseDrawdown { credit_line_id, amount, .. } => unwind_fits(s, credit_line_id, amount),
        EventOp::ApplyRepayment { credit_line_id, amount, .. } => repay_fits(s, credit_line_id, amount),
        _ => false,
    }
}

/// A drawdown, a reversal and a repayment each move an amount between the
/// drawn balance and the available capacity: on every line their sum, the
/// approved limit and the status are unchanged.
pub proof fn law_balance_moves_conserve_cover(s: LedgerState, op: EventOp, env: LedgerEnv, credit_line_id: Bytes32)
    requires
        balance_move_fits(s, op),
        event_step(s, op, env) is Ok,
        s.lines.contains_key(credit_line_id),
    ensures
        ({
            let post = event_step(s, op, env)->Ok_0.0;
            &&& post.lines.contains_key(credit_line_id)
            &&& post.lines[credit_line_id].drawn_balance + post.lines[credit_line_id].available_limit
                == s.lines[credit_line_id].drawn_balance + s.lines[credit_line_id].available_limit
            &&& post.lines[credit_line_id].approved_limit == s.lines[credit_line_id].approved_limit
            &&& post.lines[credit_line_id].status == s.lines[credit_line_id].status
        }),
{
}

/// A repayment reduces the drawn balance only: it never releases or changes
/// collateral (positions, bar-set locks, pledges, custody controls).
pub proof fn law_repayment_never_releases_collateral(
    s: LedgerState,
    credit_line_id: Bytes32,
    vault: Address,
    payment_ref: Bytes32,
    amount: i128,
    env: LedgerEnv,
)
    requires
        step_apply_repayment(s, credit_line_id, vault, payment_ref, amount, env) is Ok,
    ensures
        ({
            let post = step_apply_repayment(s, credit_line_id, vault, payment_ref, amount, env)->Ok_0.0;
            &&& post.positions == s.positions
            &&& post.bar_sets == s.bar_sets
            &&& post.pledges == s.pledges
            &&& post.controls == s.controls
            &&& post.lines[credit_line_id].drawn_balance == s.lines[credit_line_id].drawn_balance - amount
        }),
{
}

/// The bank can authorize release only of a line with nothing drawn; the
/// line is then closed and the lien waits for the custodian.
pub proof fn law_release_requires_zero_balance(
    s: LedgerState,
    credit_line_id: Bytes32,
    bank: Address,
    payoff_letter_hash: Bytes32,
    env: LedgerEnv,
)
    requires
        step_bank_authorize_release(s, credit_line_id, bank, payoff_letter_hash, env) is Ok,
    ensures
        s.lines[credit_line_id].drawn_balance == 0,
        step_bank_authorize_release(s, credit_line_id, bank, payoff_letter_hash, env)->Ok_0.0.lines[credit_line_id].status
            == LineStatus::Closed,
{
}

/// A revaluation never clears a deliberate bank stop: whatever the margin,
/// a line under a bank suspension stays suspended with the flag set.
pub proof fn law_revaluation_keeps_bank_stop(
    s: LedgerState,
    credit_line_id: Bytes32,
    valuer: Address,
    price_per_oz_e7: i128,
    confidence_e7: i128,
    priced_at: u64,
    max_age_secs: u64,
    conf_tol_bps: u32,
    warning_bps: u32,
    valuation_ref: Bytes32,
    env: LedgerEnv,
)
    requires
        s.lines.contains_key(credit_line_id),
        s.lines[credit_line_id].manual_bank_suspension,
        step_revalue_and_check(
            s,
            credit_line_id,
            valuer,
            price_per_oz_e7,
            confidence_e7,
            priced_at,
            max_age_secs,
            conf_tol_bps,
            warning_bps,
            valuation_ref,
            env,
        ) is Ok,
    ensures
        ({
            let post = step_revalue_and_check(
                s,
                credit_line_id,
                valuer,
                price_per_oz_e7,
                confidence_e7,
                priced_at,
                max_age_secs,
                conf_tol_bps,
                warning_bps,
                valuation_ref,
                env,
            )->Ok_0.0;
            &&& post.lines[credit_line_id].manual_bank_suspension
            &&& post.lines[credit_line_id].status == LineStatus::Suspended
        }),
{
}

/// Enforcement lands only on a Defaulted line whose cure period has run.
pub proof fn law_enforcement_requires_expired_default(
    s: LedgerState,
    credit_line_id: Bytes32,
    bank: Address,
    enforcement_outcome: EnforcementOutcome,
    legal_instrument_hash: Bytes32,
    env: LedgerEnv,
)
    requires
        step_record_enforcement(s, credit_line_id, bank, enforcement_outcome, legal_instrument_hash, env) is Ok,
    ensures
        s.lines[credit_line_id].status == LineStatus::Defaulted,
        env.sequence > s.lines[credit_line_id].cure_expiry_ledger,
        step_record_enforcement(s, credit_line_id, bank, enforcement_outcome, legal_instrument_hash, env)->Ok_0.0.lines[credit_line_id].status
            == LineStatus::Closed,
{
}

/// A pledge carries at most one credit line: right after a line is opened
/// against it, opening another against the same pledge is refused. (For any
/// later state, see `law_recorded_references_are_refused` and
/// `law_one_pledge_per_position_one_line_per_pledge`.)
pub proof fn law_one_line_per_pledge(
    s: LedgerState,
    credit_line_id: Bytes32,
    pledge_id: Bytes32,
    bank: Address,
    cardholder: Address,
    approved_limit: i128,
    ltv_bps: u32,
    maintenance_bps: u32,
    price_per_oz_e7: i128,
    env: LedgerEnv,
    credit_line_id2: Bytes32,
    bank2: Address,
    cardholder2: Address,
    approved_limit2: i128,
    ltv_bps2: u32,
    maintenance_bps2: u32,
    price_per_oz_e72: i128,
    env2: LedgerEnv,
)
    requires
        step_open_credit_line(
            s,
            credit_line_id,
            pledge_id,
            bank,
            cardholder,
            approved_limit,
            ltv_bps,
            maintenance_bps,
            price_per_oz_e7,
            env,
        ) is Ok,
    ensures
        step_open_credit_line(
            step_open_credit_line(
                s,
                credit_line_id,
                pledge_id,
                bank,
                cardholder,
                approved_limit,
                ltv_bps,
                maintenance_bps,
                price_per_oz_e7,
                env,
            )->Ok_0.0,
            credit_line_id2,
            pledge_id,
            bank2,
            cardholder2,
            approved_limit2,
            ltv_bps2,
            maintenance_bps2,
            price_per_oz_e72,
            env2,
        ) is Err,
{
}

/// A position is pledged at most once: right after a pledge is activated on
/// it, activating another on the same position is refused. (For any later
/// state, see `law_collateral_stays_consistent` and
/// `law_one_pledge_per_position_one_line_per_pledge`.)
pub proof fn law_position_pledged_once(
    s: LedgerState,
    pledge_id: Bytes32,
    position_id: Bytes32,
    owner: Address,
    bank: Address,
    legal_terms_hash: Bytes32,
    env: LedgerEnv,
    pledge_id2: Bytes32,
    owner2: Address,
    bank2: Address,
    legal_terms_hash2: Bytes32,
    env2: LedgerEnv,
)
    requires
        step_activate_pledge(s, pledge_id, position_id, owner, bank, legal_terms_hash, env) is Ok,
    ensures
        step_activate_pledge(
            step_activate_pledge(s, pledge_id, position_id, owner, bank, legal_terms_hash, env)->Ok_0.0,
            pledge_id2,
            position_id,
            owner2,
            bank2,
            legal_terms_hash2,
            env2,
        ) is Err,
{
}

/// A bar set is locked to the position registered with it: right after the
/// registration the lock holds and a second registration with the same
/// serials is refused. (For any later state, see
/// `law_collateral_stays_consistent` and
/// `law_held_bars_cannot_be_registered_again`.)
pub proof fn law_bar_set_locked_once(
    s: LedgerState,
    position_id: Bytes32,
    framework_id: Bytes32,
    owner: Address,
    custodian: Address,
    barlist_hash: Bytes32,
    serials_hash: Bytes32,
    fine_weight_oz_e7: i128,
    attestation_expiry: u32,
    env: LedgerEnv,
    position_id2: Bytes32,
    framework_id2: Bytes32,
    owner2: Address,
    custodian2: Address,
    barlist_hash2: Bytes32,
    fine_weight_oz_e72: i128,
    attestation_expiry2: u32,
    env2: LedgerEnv,
)
    requires
        step_register_position(
            s,
            position_id,
            framework_id,
            owner,
            custodian,
            barlist_hash,
            serials_hash,
            fine_weight_oz_e7,
            attestation_expiry,
            env,
        ) is Ok,
    ensures
        ({
            let s1 = step_register_position(
                s,
                position_id,
                framework_id,
                owner,
                custodian,
                barlist_hash,
                serials_hash,
                fine_weight_oz_e7,
                attestation_expiry,
                env,
            )->Ok_0.0;
            &&& s1.bar_sets[serials_hash] == position_id
            &&& step_register_position(
                s1,
                position_id2,
                framework_id2,
                owner2,
                custodian2,
                barlist_hash2,
                serials_hash,
                fine_weight_oz_e72,
                attestation_expiry2,
                env2,
            ) is Err
        }),
{
}

/// Approving a party for a role grants exactly that role and nothing else.
pub proof fn law_approval_grants_exactly_one_role(
    s: LedgerState,
    party: Address,
    role: Role,
    other: Address,
    other_role: Role,
)
    requires
        step_approve_party(s, party, role) is Ok,
    ensures
        step_approve_party(s, party, role)->Ok_0.0.approved(party, role),
        (other != party || other_role != role) ==> (step_approve_party(s, party, role)->Ok_0.0.approved(
            other,
            other_role,
        ) == s.approved(other, other_role)),
{
}

/// A line's books balance: nothing negative, and drawn plus available
/// never above the approved limit.
pub open spec fn line_accounting_ok(l: CreditLine) -> bool {
    &&& 0 <= l.drawn_balance
    &&& 0 <= l.available_limit
    &&& l.drawn_balance + l.available_limit <= l.approved_limit
}

pub open spec fn accounting_ok(s: LedgerState) -> bool {
    forall|id: Bytes32| #[trigger] s.lines.contains_key(id) ==> line_accounting_ok(s.lines[id])
}

/// The one input on which an operation can unbalance a line: reversing a
/// drawdown for more than the line still owes (a drawdown repaid before it
/// is reversed).
pub open spec fn reverses_repaid_draw(s: LedgerState, op: EventOp) -> bool {
    match op {
        EventOp::ReverseDrawdown { credit_line_id, amount, .. } => s.lines.contains_key(credit_line_id)
            && amount > s.lines[credit_line_id].drawn_balance,
        _ => false,
    }
}

/// Line accounting is kept by every operation: balances stay non-negative
/// and drawn plus available stays within the approved limit, except when a
/// drawdown that was already repaid is reversed.
#[verifier::rlimit(50)]
pub proof fn law_line_accounting_is_kept(s: LedgerState, op: EventOp, env: LedgerEnv)
    requires
        accounting_ok(s),
        event_step(s, op, env) is Ok,
        !reverses_repaid_draw(s, op),
    ensures
        accounting_ok(event_step(s, op, env)->Ok_0.0),
{
    let post = event_step(s, op, env)->Ok_0.0;
    assert forall|id: Bytes32| #[trigger] post.lines.contains_key(id) implies line_accounting_ok(post.lines[id]) by {
        if s.lines.contains_key(id) {
            assert(line_accounting_ok(s.lines[id]));
        }
    }
}

/// Only the bank lifts its own stop: no operation but the bank's resume
/// clears a line's bank-suspension flag.
pub proof fn law_only_the_bank_lifts_its_stop(s: LedgerState, op: EventOp, env: LedgerEnv, credit_line_id: Bytes32)
    requires
        s.lines.contains_key(credit_line_id),
        s.lines[credit_line_id].manual_bank_suspension,
        event_step(s, op, env) is Ok,
        !(op is BankResumeLine),
    ensures
        event_step(s, op, env)->Ok_0.0.lines.contains_key(credit_line_id),
        event_step(s, op, env)->Ok_0.0.lines[credit_line_id].manual_bank_suspension,
{
}

/// Repayments come only from the vault bound at initialization, which must
/// also hold the Vault role; any other caller is refused, approved or not.
pub proof fn law_repayment_only_from_bound_vault(
    s: LedgerState,
    credit_line_id: Bytes32,
    vault: Address,
    payment_ref: Bytes32,
    amount: i128,
    env: LedgerEnv,
)
    requires
        step_apply_repayment(s, credit_line_id, vault, payment_ref, amount, env) is Ok,
    ensures
        s.settlement_vault == Some(vault),
        s.approved(vault, Role::Vault),
{
}

/// A default notice always grants a real cure window: its deadline lies
/// after the ledger on which it is issued.
pub proof fn law_default_notice_grants_a_cure_window(
    s: LedgerState,
    credit_line_id: Bytes32,
    bank: Address,
    cure_deadline_ledger: u32,
    notice_hash: Bytes32,
    env: LedgerEnv,
)
    requires
        step_issue_default_notice(s, credit_line_id, bank, cure_deadline_ledger, notice_hash, env) is Ok,
    ensures
        cure_deadline_ledger > env.sequence,
        step_issue_default_notice(s, credit_line_id, bank, cure_deadline_ledger, notice_hash, env)->Ok_0.0.lines[credit_line_id].status
            == LineStatus::Defaulted,
{
}

/// A cure does not depend on the clock: while the line is still Defaulted
/// it is accepted or refused alike before and after the cure deadline.
pub proof fn law_cure_ignores_the_deadline(
    s: LedgerState,
    credit_line_id: Bytes32,
    cardholder: Address,
    cure_evidence_hash: Bytes32,
    env1: LedgerEnv,
    env2: LedgerEnv,
)
    ensures
        (step_cure_default(s, credit_line_id, cardholder, cure_evidence_hash, env1) is Ok) == (step_cure_default(
            s,
            credit_line_id,
            cardholder,
            cure_evidence_hash,
            env2,
        ) is Ok),
{
}

/// The one input on which an operation breaks the bar-set locks: approving,
/// after the position was released or enforced, an adjustment requested
/// earlier that changes its serials. The approval drops the lock on the old
/// serials (which may by then belong to another position) and locks the new
/// serials to a position that no longer holds bars.
pub open spec fn relocks_released_position(s: LedgerState, op: EventOp) -> bool {
    match op {
        EventOp::ApproveAdjustment { adjustment_id, .. } => {
            let adj = s.adjustments[adjustment_id];
            let pid = s.pledges[s.lines[adj.credit_line_id].pledge_id].position_id;
            &&& s.adjustments.contains_key(adjustment_id)
            &&& s.lines.contains_key(adj.credit_line_id)
            &&& s.pledges.contains_key(s.lines[adj.credit_line_id].pledge_id)
            &&& s.positions.contains_key(pid)
            &&& !holds_bars(s.positions[pid].status)
            &&& adj.new_serials_hash != s.positions[pid].serials_hash
        },
        _ => false,
    }
}

/// No double pledge, across every operation: every accepted operation keeps
/// the collateral books consistent (each position that holds bars locks its
/// serials to itself, one pledge per position, one line per pledge), except
/// the late approval described by `relocks_released_position`.
pub proof fn law_collateral_stays_consistent(s: LedgerState, op: EventOp, env: LedgerEnv)
    requires
        collateral_consistent(s),
        event_step(s, op, env) is Ok,
        !relocks_released_position(s, op),
    ensures
        collateral_consistent(event_step(s, op, env)->Ok_0.0),
{
    match op {
        EventOp::RegisterPosition { .. } => keeps_register_position(s, op, env),
        EventOp::SelectBars { .. } | EventOp::ConfirmAndImmobilize { .. } => keeps_position_relabel(s, op, env),
        EventOp::ActivatePledge { .. } => keeps_activate_pledge(s, op, env),
        EventOp::OpenCreditLine { .. } => keeps_open_line(s, op, env),
        EventOp::RecordDrawdown { .. } | EventOp::ReverseDrawdown { .. } | EventOp::ApplyRepayment { .. }
        | EventOp::BankSuspendLine { .. } | EventOp::BankResumeLine { .. } => keeps_line_update(s, op, env),
        EventOp::RevalueAndCheck { .. } => keeps_revalue(s, op, env),
        EventOp::ApproveAdjustment { .. } => keeps_approve_adjustment(s, op, env),
        EventOp::AuthorizeRelease { .. } | EventOp::ConfirmRelease { .. } => keeps_release(s, op, env),
        EventOp::IssueDefaultNotice { .. } | EventOp::CureDefault { .. } | EventOp::RecordEnforcement { .. } =>
            keeps_default(s, op, env),
        _ => keeps_books_untouched(s, op, env),
    }
}

proof fn keeps_books_untouched(s: LedgerState, op: EventOp, env: LedgerEnv)
    requires
        collateral_consistent(s),
        event_step(s, op, env) is Ok,
        op is RegisterFramework || op is RequestAdjustment || op is ConfirmAdjustment || op is OpenReadiness
            || op is PopulateReadiness || op is ExpireReadiness,
    ensures
        collateral_consistent(event_step(s, op, env)->Ok_0.0),
{
    lemma_same_books(s, event_step(s, op, env)->Ok_0.0);
}

proof fn keeps_register_position(s: LedgerState, op: EventOp, env: LedgerEnv)
    requires
        collateral_consistent(s),
        event_step(s, op, env) is Ok,
        op is RegisterPosition,
    ensures
        collateral_consistent(event_step(s, op, env)->Ok_0.0),
{
    let post = event_step(s, op, env)->Ok_0.0;
    if let EventOp::RegisterPosition { position_id, .. } = op {
        lemma_register_position(s, post, position_id, post.positions[position_id]);
    }
}

proof fn keeps_position_relabel(s: LedgerState, op: EventOp, env: LedgerEnv)
    requires
        collateral_consistent(s),
        event_step(s, op, env) is Ok,
        op is SelectBars || op is ConfirmAndImmobilize,
    ensures
        collateral_consistent(event_step(s, op, env)->Ok_0.0),
{
    let post = event_step(s, op, env)->Ok_0.0;
    match op {
        EventOp::SelectBars { position_id, .. } => {
            lemma_position_relabel(s, post, position_id, PositionStatus::Selected);
        },
        EventOp::ConfirmAndImmobilize { position_id, .. } => {
            lemma_position_relabel(s, post, position_id, PositionStatus::Earmarked);
        },
        _ => {},
    }
}

proof fn keeps_activate_pledge(s: LedgerState, op: EventOp, env: LedgerEnv)
    requires
        collateral_consistent(s),
        event_step(s, op, env) is Ok,
        op is ActivatePledge,
    ensures
        collateral_consistent(event_step(s, op, env)->Ok_0.0),
{
    let post = event_step(s, op, env)->Ok_0.0;
    if let EventOp::ActivatePledge { pledge_id, .. } = op {
        lemma_activate_pledge(s, post, pledge_id, post.pledges[pledge_id]);
    }
}

proof fn keeps_open_line(s: LedgerState, op: EventOp, env: LedgerEnv)
    requires
        collateral_consistent(s),
        event_step(s, op, env) is Ok,
        op is OpenCreditLine,
    ensures
        collateral_consistent(event_step(s, op, env)->Ok_0.0),
{
    let post = event_step(s, op, env)->Ok_0.0;
    if let EventOp::OpenCreditLine { credit_line_id, .. } = op {
        lemma_open_line(s, post, credit_line_id, post.lines[credit_line_id]);
    }
}

proof fn keeps_line_update(s: LedgerState, op: EventOp, env: LedgerEnv)
    requires
        collateral_consistent(s),
        event_step(s, op, env) is Ok,
        op is RecordDrawdown || op is ReverseDrawdown || op is ApplyRepayment || op is BankSuspendLine
            || op is BankResumeLine,
    ensures
        collateral_consistent(event_step(s, op, env)->Ok_0.0),
{
    let post = event_step(s, op, env)->Ok_0.0;
    match op {
        EventOp::RecordDrawdown { credit_line_id, .. } => {
            lemma_line_update(s, post, credit_line_id, post.lines[credit_line_id]);
        },
        EventOp::ReverseDrawdown { credit_line_id, .. } => {
            lemma_line_update(s, post, credit_line_id, post.lines[credit_line_id]);
        },
        EventOp::ApplyRepayment { credit_line_id, .. } => {
            lemma_line_update(s, post, credit_line_id, post.lines[credit_line_id]);
        },
        EventOp::BankSuspendLine { credit_line_id, .. } => {
            lemma_line_update(s, post, credit_line_id, post.lines[credit_line_id]);
        },
        EventOp::BankResumeLine { credit_line_id, .. } => {
            lemma_line_update(s, post, credit_line_id, post.lines[credit_line_id]);
        },
        _ => {},
    }
}

proof fn keeps_revalue(s: LedgerState, op: EventOp, env: LedgerEnv)
    requires
        collateral_consistent(s),
        event_step(s, op, env) is Ok,
        op is RevalueAndCheck,
    ensures
        collateral_consistent(event_step(s, op, env)->Ok_0.0),
{
    let post = event_step(s, op, env)->Ok_0.0;
    if let EventOp::RevalueAndCheck { credit_line_id, .. } = op {
        lemma_line_update(s, post, credit_line_id, post.lines[credit_line_id]);
    }
}

proof fn keeps_approve_adjustment(s: LedgerState, op: EventOp, env: LedgerEnv)
    requires
        collateral_consistent(s),
        event_step(s, op, env) is Ok,
        !relocks_released_position(s, op),
        op is ApproveAdjustment,
    ensures
        collateral_consistent(event_step(s, op, env)->Ok_0.0),
{
    let post = event_step(s, op, env)->Ok_0.0;
    if let EventOp::ApproveAdjustment { adjustment_id, .. } = op {
        let adj = s.adjustments[adjustment_id];
        let pid = s.pledges[s.lines[adj.credit_line_id].pledge_id].position_id;
        lemma_relock(s, post, pid, post.positions[pid]);
    }
}

proof fn keeps_release(s: LedgerState, op: EventOp, env: LedgerEnv)
    requires
        collateral_consistent(s),
        event_step(s, op, env) is Ok,
        op is AuthorizeRelease || op is ConfirmRelease,
    ensures
        collateral_consistent(event_step(s, op, env)->Ok_0.0),
{
    let post = event_step(s, op, env)->Ok_0.0;
    match op {
        EventOp::AuthorizeRelease { credit_line_id, .. } => {
            let pledge_id = s.lines[credit_line_id].pledge_id;
            lemma_pledge_move(
                s,
                post,
                pledge_id,
                PledgeStatus::ReleaseAuthorized,
                PositionStatus::ReleasePending,
                false,
                true,
                credit_line_id,
                post.lines[credit_line_id],
            );
        },
        EventOp::ConfirmRelease { pledge_id, .. } => {
            lemma_pledge_move(
                s,
                post,
                pledge_id,
                PledgeStatus::Released,
                PositionStatus::Released,
                true,
                false,
                pledge_id,
                s.lines[pledge_id],
            );
        },
        _ => {},
    }
}

proof fn keeps_default(s: LedgerState, op: EventOp, env: LedgerEnv)
    requires
        collateral_consistent(s),
        event_step(s, op, env) is Ok,
        op is IssueDefaultNotice || op is CureDefault || op is RecordEnforcement,
    ensures
        collateral_consistent(event_step(s, op, env)->Ok_0.0),
{
    let post = event_step(s, op, env)->Ok_0.0;
    match op {
        EventOp::IssueDefaultNotice { credit_line_id, .. } => {
            let pledge_id = s.lines[credit_line_id].pledge_id;
            let pid = s.pledges[pledge_id].position_id;
            assert(s.positions.insert(pid, VaultPosition { status: s.positions[pid].status, ..s.positions[pid] })
                =~= s.positions);
            lemma_pledge_move(
                s,
                post,
                pledge_id,
                PledgeStatus::Defaulted,
                s.positions[pid].status,
                false,
                true,
                credit_line_id,
                post.lines[credit_line_id],
            );
        },
        EventOp::CureDefault { credit_line_id, .. } => {
            let pledge_id = s.lines[credit_line_id].pledge_id;
            let pid = s.pledges[pledge_id].position_id;
            assert(s.positions.insert(pid, VaultPosition { status: s.positions[pid].status, ..s.positions[pid] })
                =~= s.positions);
            lemma_pledge_move(
                s,
                post,
                pledge_id,
                PledgeStatus::Active,
                s.positions[pid].status,
                false,
                true,
                credit_line_id,
                post.lines[credit_line_id],
            );
        },
        EventOp::RecordEnforcement { credit_line_id, .. } => {
            let pledge_id = s.lines[credit_line_id].pledge_id;
            lemma_pledge_move(
                s,
                post,
                pledge_id,
                PledgeStatus::Enforced,
                PositionStatus::Enforced,
                true,
                true,
                credit_line_id,
                post.lines[credit_line_id],
            );
        },
        _ => {},
    }
}

/// The registry operations (initialization, approval, revocation) leave the
/// collateral books and the drawdown and repayment records untouched, so the
/// books stay consistent and no reference is forgotten.
pub proof fn law_registry_keeps_collateral_consistent(
    s: LedgerState,
    admin: Address,
    settlement_vault: Address,
    party: Address,
    role: Role,
)
    requires
        collateral_consistent(s),
    ensures
        step_initialize(s, admin, settlement_vault) is Ok ==> {
            let post = step_initialize(s, admin, settlement_vault)->Ok_0.0;
            collateral_consistent(post) && post.draws == s.draws && post.repayments == s.repayments
        },
        step_approve_party(s, party, role) is Ok ==> {
            let post = step_approve_party(s, party, role)->Ok_0.0;
            collateral_consistent(post) && post.draws == s.draws && post.repayments == s.repayments
        },
        step_revoke_party(s, party, role) is Ok ==> {
            let post = step_revoke_party(s, party, role)->Ok_0.0;
            collateral_consistent(post) && post.draws == s.draws && post.repayments == s.repayments
        },
{
}

/// A ledger with no positions, locks, pledges or lines has consistent books.
pub proof fn law_empty_books_are_consistent(s: LedgerState)
    requires
        s.positions == Map::<Bytes32, VaultPosition>::empty(),
        s.bar_sets == Map::<Bytes32, Bytes32>::empty(),
        s.pledges == Map::<Bytes32, Pledge>::empty(),
        s.lines == Map::<Bytes32, CreditLine>::empty(),
        s.line_for_pledge == Map::<Bytes32, Bytes32>::empty(),
    ensures
        collateral_consistent(s),
{
}

/// No double pledge: in consistent books, two positions that both hold their
/// bars never share serials, and the serials of a position that holds its
/// bars cannot be registered again under any position.
pub proof fn law_held_bars_cannot_be_registered_again(
    s: LedgerState,
    held: Bytes32,
    other: Bytes32,
    position_id: Bytes32,
    framework_id: Bytes32,
    owner: Address,
    custodian: Address,
    barlist_hash: Bytes32,
    fine_weight_oz_e7: i128,
    attestation_expiry: u32,
    env: LedgerEnv,
)
    requires
        collateral_consistent(s),
        s.positions.contains_key(held),
        holds_bars(s.positions[held].status),
    ensures
        s.positions.contains_key(other) && holds_bars(s.positions[other].status)
            && s.positions[other].serials_hash == s.positions[held].serials_hash ==> other == held,
        step_register_position(
            s,
            position_id,
            framework_id,
            owner,
            custodian,
            barlist_hash,
            s.positions[held].serials_hash,
            fine_weight_oz_e7,
            attestation_expiry,
            env,
        ) is Err,
{
    assert(s.bar_sets.contains_key(s.positions[held].serials_hash));
    if s.positions.contains_key(other) && holds_bars(s.positions[other].status) {
        assert(s.bar_sets[s.positions[other].serials_hash] == other);
    }
}

/// In consistent books a position carries at most one pledge and a pledge at
/// most one credit line.
pub proof fn law_one_pledge_per_position_one_line_per_pledge(
    s: LedgerState,
    pledge1: Bytes32,
    pledge2: Bytes32,
    line1: Bytes32,
    line2: Bytes32,
)
    requires
        collateral_consistent(s),
    ensures
        s.pledges.contains_key(pledge1) && s.pledges.contains_key(pledge2) && s.pledges[pledge1].position_id
            == s.pledges[pledge2].position_id ==> pledge1 == pledge2,
        s.lines.contains_key(line1) && s.lines.contains_key(line2) && s.lines[line1].pledge_id
            == s.lines[line2].pledge_id ==> line1 == line2,
{
    if s.pledges.contains_key(pledge1) && s.pledges.contains_key(pledge2) {
        assert(s.pledges[pledge1] == s.pledges[pledge1] && s.pledges[pledge2] == s.pledges[pledge2]);
    }
    if s.lines.contains_key(line1) && s.lines.contains_key(line2) {
        assert(s.line_for_pledge[s.lines[line1].pledge_id] == line1);
        assert(s.line_for_pledge[s.lines[line2].pledge_id] == line2);
    }
}

/// No operation forgets a drawdown or repayment record, or the line bound to
/// a pledge: what was recorded stays recorded.
pub proof fn law_records_are_kept(s: LedgerState, op: EventOp, env: LedgerEnv, key: Bytes32)
    requires
        event_step(s, op, env) is Ok,
    ensures
        s.draws.contains_key(key) ==> event_step(s, op, env)->Ok_0.0.draws.contains_key(key),
        s.repayments.contains_key(key) ==> event_step(s, op, env)->Ok_0.0.repayments.contains_key(key),
        s.line_for_pledge.contains_key(key) ==> event_step(s, op, env)->Ok_0.0.line_for_pledge.contains_key(key),
{
}

/// Whatever happened in between, an authorization reference that has a
/// drawdown record, and a payment reference that has a repayment record, are
/// refused; and a pledge that has had a line never gets another.
pub proof fn law_recorded_references_are_refused(
    s: LedgerState,
    credit_line_id: Bytes32,
    actor: Address,
    key: Bytes32,
    amount: i128,
    pledge_id: Bytes32,
    cardholder: Address,
    approved_limit: i128,
    ltv_bps: u32,
    maintenance_bps: u32,
    price_per_oz_e7: i128,
    env: LedgerEnv,
)
    ensures
        s.draws.contains_key(key) ==> step_record_drawdown(s, credit_line_id, actor, key, amount, env) is Err,
        s.repayments.contains_key(key) ==> step_apply_repayment(s, credit_line_id, actor, key, amount, env) is Err,
        s.line_for_pledge.contains_key(pledge_id) ==> step_open_credit_line(
            s,
            credit_line_id,
            pledge_id,
            actor,
            cardholder,
            approved_limit,
            ltv_bps,
            maintenance_bps,
            price_per_oz_e7,
            env,
        ) is Err,
{
}

/// Enforcement is terminal: the pledge and its position become Enforced, the
/// line Closed with its drawn balance as it was, the bar-set lock of the
/// position is released, and neither a second enforcement nor a cure of the
/// line is accepted afterwards.
pub proof fn law_enforcement_is_terminal(
    s: LedgerState,
    credit_line_id: Bytes32,
    bank: Address,
    enforcement_outcome: EnforcementOutcome,
    legal_instrument_hash: Bytes32,
    env: LedgerEnv,
    bank2: Address,
    enforcement_outcome2: EnforcementOutcome,
    legal_instrument_hash2: Bytes32,
    env2: LedgerEnv,
    cardholder: Address,
    cure_evidence_hash: Bytes32,
    env3: LedgerEnv,
)
    requires
        collateral_consistent(s),
        step_record_enforcement(s, credit_line_id, bank, enforcement_outcome, legal_instrument_hash, env) is Ok,
    ensures
        ({
            let post = step_record_enforcement(s, credit_line_id, bank, enforcement_outcome, legal_instrument_hash, env)->Ok_0.0;
            let pledge_id = s.lines[credit_line_id].pledge_id;
            let position_id = s.pledges[pledge_id].position_id;
            &&& post.pledges[pledge_id].status == PledgeStatus::Enforced
            &&& post.positions[position_id].status == PositionStatus::Enforced
            &&& post.lines[credit_line_id].status == LineStatus::Closed
            &&& post.lines[credit_line_id].drawn_balance == s.lines[credit_line_id].drawn_balance
            &&& !post.bar_sets.contains_key(s.positions[position_id].serials_hash)
            &&& step_record_enforcement(
                post,
                credit_line_id,
                bank2,
                enforcement_outcome2,
                legal_instrument_hash2,
                env2,
            ) is Err
            &&& step_cure_default(post, credit_line_id, cardholder, cure_evidence_hash, env3) is Err
        }),
{
}

/// A bank stop and its lift round-trip: on a line with no valuation and
/// drawn within its limit, suspending and then resuming leaves the line
/// Active, without the stop flag, with capacity equal to the approved limit
/// less the drawn balance.
pub proof fn law_suspend_then_resume_restores_capacity(
    s: LedgerState,
    credit_line_id: Bytes32,
    bank: Address,
    reason_hash: Bytes32,
    env: LedgerEnv,
    resume_evidence_hash: Bytes32,
    env2: LedgerEnv,
)
    requires
        step_bank_suspend_line(s, credit_line_id, bank, reason_hash, env) is Ok,
        !resume_evidence_hash.spec_is_zero(),
        !s.valuations.contains_key(credit_line_id),
        0 <= s.lines[credit_line_id].drawn_balance <= s.lines[credit_line_id].approved_limit,
    ensures
        ({
            let s1 = step_bank_suspend_line(s, credit_line_id, bank, reason_hash, env)->Ok_0.0;
            let r = step_bank_resume_line(s1, credit_line_id, bank, resume_evidence_hash, env2);
            let l = r->Ok_0.0.lines[credit_line_id];
            &&& s1.lines[credit_line_id].available_limit == 0
            &&& r is Ok
            &&& l.status == LineStatus::Active
            &&& !l.manual_bank_suspension
            &&& l.drawn_balance == s.lines[credit_line_id].drawn_balance
            &&& l.available_limit == s.lines[credit_line_id].approved_limit - s.lines[credit_line_id].drawn_balance
        }),
{
}

/// The line and the caller of a balance-moving operation (drawdown,
/// reversal, repayment, bank stop, bank resume).
pub open spec fn balance_event_subject(op: EventOp) -> Option<(Bytes32, Address)> {
    match op {
        EventOp::RecordDrawdown { credit_line_id, processor, .. } => Some((credit_line_id, processor)),
        EventOp::ReverseDrawdown { credit_line_id, processor, .. } => Some((credit_line_id, processor)),
        EventOp::ApplyRepayment { credit_line_id, vault, .. } => Some((credit_line_id, vault)),
        EventOp::BankSuspendLine { credit_line_id, bank, .. } => Some((credit_line_id, bank)),
        EventOp::BankResumeLine { credit_line_id, bank, .. } => Some((credit_line_id, bank)),
        _ => None,
    }
}

/// The event of an accepted balance-moving operation reports the line as it
/// stands after the act: it names the line and the caller, is numbered under
/// the line's framework, carries the line's status before and after, and
/// its payload's drawn balance and capacity are the line's new ones.
pub proof fn law_balance_events_report_the_line_after(s: LedgerState, op: EventOp, env: LedgerEnv)
    requires
        event_step(s, op, env) is Ok,
        balance_event_subject(op) is Some,
    ensures
        ({
            let (credit_line_id, caller) = balance_event_subject(op)->Some_0;
            let post = event_step(s, op, env)->Ok_0.0;
            let ev = event_step(s, op, env)->Ok_0.1;
            let l1 = post.lines[credit_line_id];
            &&& ev.credit_line_id == credit_line_id
            &&& ev.actor == caller
            &&& ev.framework_id == s.line_ctx(credit_line_id)->Ok_0.framework_id
            &&& ev.previous_state == line_label(s.lines[credit_line_id].status)
            &&& ev.new_state == line_label(l1.status)
            &&& ev.occurred_ledger == env.sequence
            &&& (match ev.payload {
                CollateralPayloadV1::BalanceMove(d) => d.drawn_after == l1.drawn_balance && d.available_after
                    == l1.available_limit,
                _ => false,
            })
        }),
{
}

} // verus!
