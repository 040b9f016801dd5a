// Concrete instances of the ledgers' laws, exact values of their formulas,
// and one input for each refusal that the scenario suites do not reach.

use argent_core::credit_ledger::error::Error;
use argent_core::credit_ledger::event::{CollateralAction, CollateralPayloadV1, StateLabel};
use argent_core::credit_ledger::state::CreditLedger;
use argent_core::credit_ledger::types::{
    AdjustmentType, EnforcementOutcome, LedgerEnv, LineStatus, PledgeStatus, PositionStatus, Role,
};
use argent_core::primitives::{Address, Bytes32};
use argent_core::rewards_ledger::error::Error as RewardsError;
use argent_core::rewards_ledger::state::RewardsLedger;
use argent_core::rewards_ledger::types::{CampaignConfig, Role as RewardsRole, SpendInput};
use argent_core::settlement_vault::{Error as VaultError, SettleError, SettlementVault};

fn addr(n: u128) -> Address {
    Address { key: Bytes32 { hi: 7, lo: n } }
}

fn h(n: u128) -> Bytes32 {
    Bytes32 { hi: 9, lo: n }
}

fn at(sequence: u32) -> LedgerEnv {
    LedgerEnv { sequence, timestamp: 0 }
}

const ADMIN: u128 = 1;
const OWNER: u128 = 2;
const CUSTODIAN: u128 = 3;
const BANK: u128 = 4;
const PROCESSOR: u128 = 5;
const VAULT: u128 = 6;
const VALUER: u128 = 7;

const FRAMEWORK: u128 = 100;
const POSITION: u128 = 101;
const PLEDGE: u128 = 102;
const LINE: u128 = 103;
const SERIALS: u128 = 104;

fn ledger_with_parties() -> CreditLedger {
    let mut l = CreditLedger::new();
    l.initialize(addr(ADMIN), addr(VAULT)).unwrap();
    l.approve_party(addr(CUSTODIAN), Role::Custodian).unwrap();
    l.approve_party(addr(BANK), Role::Bank).unwrap();
    l.approve_party(addr(PROCESSOR), Role::Processor).unwrap();
    l.approve_party(addr(VAULT), Role::Vault).unwrap();
    l.approve_party(addr(VALUER), Role::Valuation).unwrap();
    l
}

fn with_framework(l: &mut CreditLedger) {
    l.register_framework(
        h(FRAMEWORK), addr(OWNER), addr(BANK), addr(CUSTODIAN), h(11), h(12), h(13), h(14), h(15), h(16),
        at(0),
    )
    .unwrap();
}

fn earmarked(l: &mut CreditLedger) {
    with_framework(l);
    l.register_position(
        h(POSITION), h(FRAMEWORK), addr(OWNER), addr(CUSTODIAN), h(20), h(SERIALS), 4_011_000_000, 100_000,
        at(0),
    )
    .unwrap();
    l.select_bars_for_collateral(h(POSITION), addr(OWNER), h(21), at(0)).unwrap();
    l.confirm_and_immobilize(h(POSITION), addr(CUSTODIAN), h(22), at(0)).unwrap();
}

fn open_line() -> CreditLedger {
    let mut l = ledger_with_parties();
    earmarked(&mut l);
    l.activate_pledge(h(PLEDGE), h(POSITION), addr(OWNER), addr(BANK), h(23), at(0)).unwrap();
    l.open_credit_line(h(LINE), h(PLEDGE), addr(BANK), addr(OWNER), 719_000, 6000, 7500, 29_900_000_000, at(0))
        .unwrap();
    l
}

// ---- formulas ----------------------------------------------------------------

#[test]
fn borrowing_base_of_the_reference_line() {
    // 401.10 oz at 2,990/oz and 60% advance
    assert_eq!(CreditLedger::borrowing_base(4_011_000_000, 29_900_000_000, 6000), Ok(719_573));
}

#[test]
fn borrowing_base_truncates_toward_zero() {
    // -1.5 whole units truncate to -1, not -2
    assert_eq!(CreditLedger::borrowing_base(-15, 100_000_000_000_000_000, 1), Ok(-1));
    assert_eq!(CreditLedger::borrowing_base(15, 100_000_000_000_000_000, 1), Ok(1));
}

#[test]
fn borrowing_base_overflow_is_refused() {
    assert_eq!(CreditLedger::borrowing_base(i128::MAX, 2, 1), Err(Error::InvalidRiskParams));
    assert_eq!(CreditLedger::borrowing_base(1 << 100, 1 << 20, 10_000), Err(Error::InvalidRiskParams));
}

#[test]
fn reward_formula_exact_values() {
    assert_eq!(RewardsLedger::calculate_reward(1_000_000, 100), Ok(10_000));
    assert_eq!(RewardsLedger::calculate_reward(9_999, 1), Ok(0));
    assert_eq!(RewardsLedger::calculate_reward(0, 100), Err(RewardsError::InvalidAmount));
    assert_eq!(RewardsLedger::calculate_reward(100, 0), Err(RewardsError::InvalidAmount));
    assert_eq!(RewardsLedger::calculate_reward(i128::MAX, 2), Err(RewardsError::MathOverflow));
}

#[test]
fn error_codes_are_stable() {
    assert_eq!(Error::NotInitialized.code(), 1);
    assert_eq!(Error::BarSetAlreadyActive.code(), 17);
    assert_eq!(Error::LineNotSuspended.code(), 72);
    assert_eq!(Error::RepaymentExceedsOutstandingBalance.code(), 75);
    assert_eq!(Error::ReadinessExpired.code(), 79);
    assert_eq!(VaultError::NotAuthorizedBankDestination.code(), 6);
}

// ---- laws on concrete values -----------------------------------------------

#[test]
fn law_event_sequence_runs_one_two_three_per_framework() {
    let mut l = ledger_with_parties();
    let e1 = l
        .register_framework(h(FRAMEWORK), addr(OWNER), addr(BANK), addr(CUSTODIAN), h(11), h(12), h(13), h(14), h(15), h(16), at(5))
        .unwrap();
    let e2 = l
        .register_position(h(POSITION), h(FRAMEWORK), addr(OWNER), addr(CUSTODIAN), h(20), h(SERIALS), 4_011_000_000, 100_000, at(6))
        .unwrap();
    // a refused call publishes nothing and moves nothing
    assert_eq!(
        l.select_bars_for_collateral(h(POSITION), addr(BANK), h(21), at(7)),
        Err(Error::NotAuthorized)
    );
    let e3 = l.select_bars_for_collateral(h(POSITION), addr(OWNER), h(21), at(8)).unwrap();
    assert_eq!((e1.sequence, e2.sequence, e3.sequence), (1, 2, 3));
    assert_eq!((e1.occurred_ledger, e2.occurred_ledger, e3.occurred_ledger), (5, 6, 8));
    assert_eq!(l.framework_sequence(h(FRAMEWORK)), 3);
    // another framework starts its own run at 1
    let e4 = l
        .register_framework(h(200), addr(OWNER), addr(BANK), addr(CUSTODIAN), h(11), h(12), h(13), h(14), h(15), h(16), at(9))
        .unwrap();
    assert_eq!(e4.sequence, 1);
    assert_eq!(l.framework_sequence(h(FRAMEWORK)), 3);
}

#[test]
fn law_reversal_restores_the_line_exactly() {
    let mut l = open_line();
    let before = l.get_line(h(LINE)).unwrap();
    l.record_drawdown(h(LINE), addr(PROCESSOR), h(300), 123_456, at(1)).unwrap();
    l.reverse_drawdown(h(LINE), addr(PROCESSOR), h(300), 123_456, at(2)).unwrap();
    assert_eq!(l.get_line(h(LINE)).unwrap(), before);
    let rec = l.get_drawdown(h(300)).unwrap();
    assert!(rec.reversed);
    assert_eq!(rec.amount, 123_456);
    assert_eq!(
        l.reverse_drawdown(h(LINE), addr(PROCESSOR), h(300), 123_456, at(3)),
        Err(Error::NothingToReverse)
    );
}

#[test]
fn law_balance_moves_keep_drawn_plus_available() {
    let mut l = open_line();
    let total = |l: &CreditLedger| {
        let line = l.get_line(h(LINE)).unwrap();
        line.drawn_balance + line.available_limit
    };
    let t0 = total(&l);
    l.record_drawdown(h(LINE), addr(PROCESSOR), h(301), 40_000, at(1)).unwrap();
    assert_eq!(total(&l), t0);
    l.apply_repayment(h(LINE), addr(VAULT), h(302), 15_000, at(2)).unwrap();
    assert_eq!(total(&l), t0);
    assert_eq!(l.get_line(h(LINE)).unwrap().drawn_balance, 25_000);
    assert_eq!(l.get_repayment(h(302)).unwrap().amount_applied, 15_000);
}

#[test]
fn law_references_are_single_use() {
    let mut l = open_line();
    l.record_drawdown(h(LINE), addr(PROCESSOR), h(310), 10_000, at(1)).unwrap();
    assert_eq!(
        l.record_drawdown(h(LINE), addr(PROCESSOR), h(310), 1, at(2)),
        Err(Error::DuplicateAuthRef)
    );
    l.apply_repayment(h(LINE), addr(VAULT), h(311), 1_000, at(3)).unwrap();
    assert_eq!(
        l.apply_repayment(h(LINE), addr(VAULT), h(311), 1_000, at(4)),
        Err(Error::DuplicatePaymentRef)
    );
}

#[test]
fn law_repayment_leaves_collateral_untouched() {
    let mut l = open_line();
    l.record_drawdown(h(LINE), addr(PROCESSOR), h(320), 10_000, at(1)).unwrap();
    let pos = l.get_position(h(POSITION)).unwrap();
    let pledge = l.get_pledge(h(PLEDGE)).unwrap();
    let control = l.get_custody_control(h(POSITION)).unwrap();
    l.apply_repayment(h(LINE), addr(VAULT), h(321), 10_000, at(2)).unwrap();
    assert_eq!(l.get_position(h(POSITION)).unwrap(), pos);
    assert_eq!(l.get_pledge(h(PLEDGE)).unwrap(), pledge);
    assert_eq!(l.get_custody_control(h(POSITION)).unwrap(), control);
    assert_eq!(pos.status, PositionStatus::Pledged);
}

#[test]
fn law_revaluation_never_lifts_a_bank_stop() {
    let mut l = open_line();
    l.bank_suspend_line(h(LINE), addr(BANK), h(330), at(1)).unwrap();
    l.revalue_and_check(h(LINE), addr(VALUER), 29_900_000_000, 1_000_000, 0, 60, 500, 9000, h(331), at(2))
        .unwrap();
    let line = l.get_line(h(LINE)).unwrap();
    assert!(line.manual_bank_suspension);
    assert_eq!(line.status, LineStatus::Suspended);
}

#[test]
fn law_enforcement_waits_for_the_cure_deadline() {
    let mut l = open_line();
    l.record_drawdown(h(LINE), addr(PROCESSOR), h(340), 10_000, at(1)).unwrap();
    l.issue_default_notice(h(LINE), addr(BANK), 50, h(341), at(1)).unwrap();
    assert_eq!(
        l.record_enforcement(h(LINE), addr(BANK), EnforcementOutcome::Sold, h(342), at(49)),
        Err(Error::CurePeriodNotExpired)
    );
    // at the deadline itself the cure period is still running
    assert_eq!(
        l.record_enforcement(h(LINE), addr(BANK), EnforcementOutcome::Sold, h(342), at(50)),
        Err(Error::CurePeriodNotExpired)
    );
    // one ledger after it, enforcement lands
    l.record_enforcement(h(LINE), addr(BANK), EnforcementOutcome::Sold, h(342), at(51)).unwrap();
    assert_eq!(l.get_line(h(LINE)).unwrap().status, LineStatus::Closed);
    assert_eq!(l.get_pledge(h(PLEDGE)).unwrap().status, PledgeStatus::Enforced);
}

#[test]
fn law_approval_grants_exactly_one_role() {
    let mut l = ledger_with_parties();
    let party = addr(900);
    l.approve_party(party, Role::Processor).unwrap();
    assert!(l.is_approved(party, Role::Processor));
    assert!(!l.is_approved(party, Role::Bank));
    assert!(l.is_approved(addr(BANK), Role::Bank));
}

#[test]
fn law_reservation_stays_within_budget() {
    let mut r = RewardsLedger::new();
    r.initialize(addr(ADMIN)).unwrap();
    r.approve_party(addr(10), RewardsRole::Sponsor).unwrap();
    r.approve_party(addr(11), RewardsRole::Verifier).unwrap();
    r.approve_party(addr(12), RewardsRole::GoldPartner).unwrap();
    let cfg = CampaignConfig {
        reward_rate_bps: 1000,
        user_spend_cap: 1_000_000,
        total_budget: 150,
        currency_code: 756,
        start_ledger: 0,
        end_ledger: 1_000,
        claim_window_ledgers: 100,
        eligible_mcc_policy_hash: h(1),
        redemption_terms_hash: h(2),
        sponsor_product_scope_hash: h(3),
        funding_commitment_hash: h(4),
    };
    r.create_campaign(h(50), addr(10), addr(11), addr(12), cfg).unwrap();
    let spend = |n: u128, amount: i128| SpendInput {
        spend_ref_hash: h(n),
        card_line_hash: h(5),
        amount,
        currency_code: 756,
        category_policy_hash: h(1),
        posted_at_ledger: 1,
    };
    // 10% of 1,000 and of 500: 100 + 50 fills the 150 budget exactly
    assert_eq!(r.record_eligible_spend(h(50), addr(20), addr(11), spend(60, 1_000), 1), Ok(100));
    assert_eq!(r.record_eligible_spend(h(50), addr(21), addr(11), spend(61, 500), 1), Ok(50));
    assert_eq!(
        r.record_eligible_spend(h(50), addr(22), addr(11), spend(62, 10), 1),
        Err(RewardsError::BudgetInsufficient)
    );
    let c = r.get_campaign(h(50)).unwrap();
    assert_eq!(c.reserved_reward_value + c.redeemed_reward_value, c.total_budget);
    // the refused spend left no trace, and the same reference cannot be reused
    assert_eq!(
        r.record_eligible_spend(h(50), addr(23), addr(11), spend(61, 5), 1),
        Err(RewardsError::SpendExists)
    );
}

#[test]
fn law_settlement_pays_only_the_line_bank() {
    let mut l = open_line();
    l.record_drawdown(h(LINE), addr(PROCESSOR), h(350), 25_000, at(1)).unwrap();
    let mut v = SettlementVault::new();
    v.initialize(addr(ADMIN), addr(77), addr(500)).unwrap();
    assert_eq!(
        v.settle_repayment(&mut l, addr(VAULT), h(LINE), addr(OWNER), addr(999), h(351), 1_000, at(2)),
        Err(SettleError::Vault(VaultError::NotAuthorizedBankDestination))
    );
    let (t, ev) = v
        .settle_repayment(&mut l, addr(VAULT), h(LINE), addr(OWNER), addr(BANK), h(352), 1_000, at(2))
        .unwrap();
    assert_eq!((t.token, t.from, t.to, t.amount), (addr(77), addr(OWNER), addr(BANK), 1_000));
    assert_eq!(ev.action, CollateralAction::RepaymentApplied);
    assert_eq!(l.get_line(h(LINE)).unwrap().drawn_balance, 24_000);
    assert_eq!(l.get_repayment(h(352)).unwrap().amount_applied, 1_000);
}

#[test]
fn settlement_refusal_by_the_ledger_changes_nothing() {
    let mut l = open_line();
    l.record_drawdown(h(LINE), addr(PROCESSOR), h(360), 25_000, at(1)).unwrap();
    let before = l.get_line(h(LINE)).unwrap();
    let mut v = SettlementVault::new();
    v.initialize(addr(ADMIN), addr(77), addr(500)).unwrap();
    // a vault the ledger was not bound to
    assert_eq!(
        v.settle_repayment(&mut l, addr(888), h(LINE), addr(OWNER), addr(BANK), h(361), 1_000, at(2)),
        Err(SettleError::Ledger(Error::PartyNotApproved))
    );
    assert_eq!(l.get_line(h(LINE)).unwrap(), before);
}

// ---- refusals not reached by the scenario suites ---------------------------

#[test]
fn registry_refuses_before_and_after_initialization() {
    let mut l = CreditLedger::new();
    assert_eq!(l.approve_party(addr(BANK), Role::Bank), Err(Error::NotInitialized));
    assert_eq!(l.get_settlement_vault(), Err(Error::NotInitialized));
    l.initialize(addr(ADMIN), addr(VAULT)).unwrap();
    assert_eq!(l.initialize(addr(ADMIN), addr(VAULT)), Err(Error::AlreadyInitialized));
    assert_eq!(l.get_settlement_vault(), Ok(addr(VAULT)));
}

#[test]
fn framework_and_position_identity_refusals() {
    let mut l = ledger_with_parties();
    with_framework(&mut l);
    assert_eq!(
        l.register_framework(h(FRAMEWORK), addr(OWNER), addr(BANK), addr(CUSTODIAN), h(11), h(12), h(13), h(14), h(15), h(16), at(0)),
        Err(Error::FrameworkExists)
    );
    assert_eq!(
        l.register_position(h(POSITION), h(404), addr(OWNER), addr(CUSTODIAN), h(20), h(SERIALS), 1, 100, at(0)),
        Err(Error::FrameworkNotActive)
    );
    l.register_position(h(POSITION), h(FRAMEWORK), addr(OWNER), addr(CUSTODIAN), h(20), h(SERIALS), 1, 100, at(0))
        .unwrap();
    assert_eq!(
        l.register_position(h(POSITION), h(FRAMEWORK), addr(OWNER), addr(CUSTODIAN), h(30), h(31), 1, 100, at(0)),
        Err(Error::PositionExists)
    );
    assert_eq!(
        l.select_bars_for_collateral(h(405), addr(OWNER), h(21), at(0)),
        Err(Error::PositionNotFound)
    );
    l.select_bars_for_collateral(h(POSITION), addr(OWNER), h(21), at(0)).unwrap();
    assert_eq!(
        l.select_bars_for_collateral(h(POSITION), addr(OWNER), h(21), at(0)),
        Err(Error::PositionNotFree)
    );
}

#[test]
fn pledge_and_line_identity_refusals() {
    let mut l = open_line();
    assert_eq!(
        l.open_credit_line(h(410), h(411), addr(BANK), addr(OWNER), 1_000, 6000, 7500, 29_900_000_000, at(0)),
        Err(Error::PledgeNotFound)
    );
    // a second earmarked position cannot reuse the pledge id
    l.register_position(h(412), h(FRAMEWORK), addr(OWNER), addr(CUSTODIAN), h(413), h(414), 1_000, 100_000, at(0))
        .unwrap();
    l.select_bars_for_collateral(h(412), addr(OWNER), h(415), at(0)).unwrap();
    l.confirm_and_immobilize(h(412), addr(CUSTODIAN), h(416), at(0)).unwrap();
    assert_eq!(
        l.activate_pledge(h(PLEDGE), h(412), addr(OWNER), addr(BANK), h(417), at(0)),
        Err(Error::PledgeExists)
    );
}

#[test]
fn adjustment_and_readiness_refusals() {
    let mut l = open_line();
    l.request_collateral_adjustment(h(420), h(LINE), addr(OWNER), AdjustmentType::TopUp, h(421), h(422), 5_000_000_000, h(423), at(0))
        .unwrap();
    assert_eq!(
        l.request_collateral_adjustment(h(420), h(LINE), addr(OWNER), AdjustmentType::TopUp, h(421), h(422), 5_000_000_000, h(423), at(0)),
        Err(Error::AdjustmentExists)
    );
    assert_eq!(
        l.populate_enforcement_readiness(h(LINE), addr(BANK), addr(430), h(431), addr(432), h(433), h(434), 1_000, at(0)),
        Err(Error::ReadinessNotFound)
    );
    assert_eq!(
        l.revalue_and_check(h(LINE), addr(VALUER), 0, 0, 0, 60, 500, 9000, h(435), at(0)),
        Err(Error::PriceNotPositive)
    );
}

#[test]
fn approved_adjustment_moves_the_bar_lock() {
    let mut l = open_line();
    l.request_collateral_adjustment(h(440), h(LINE), addr(OWNER), AdjustmentType::Substitution, h(441), h(442), 4_011_000_000, h(443), at(0))
        .unwrap();
    l.custodian_confirm_adjustment(h(440), addr(CUSTODIAN), h(444), at(0)).unwrap();
    let ev = l.bank_approve_adjustment(h(440), addr(BANK), 29_900_000_000, at(0)).unwrap();
    assert_eq!(ev.new_state, StateLabel::AdjustmentApproved);
    assert!(matches!(ev.payload, CollateralPayloadV1::AdjustmentApproved(_)));
    // the old serials are free again, the new ones are locked
    l.register_position(h(445), h(FRAMEWORK), addr(OWNER), addr(CUSTODIAN), h(446), h(SERIALS), 1, 100_000, at(0))
        .unwrap();
    assert_eq!(
        l.register_position(h(447), h(FRAMEWORK), addr(OWNER), addr(CUSTODIAN), h(448), h(442), 1, 100_000, at(0)),
        Err(Error::BarSetAlreadyActive)
    );
}

#[test]
fn rewards_refusals_not_reached_by_the_scenarios() {
    let mut r = RewardsLedger::new();
    assert_eq!(r.approve_party(addr(10), RewardsRole::Sponsor), Err(RewardsError::NotInitialized));
    r.initialize(addr(ADMIN)).unwrap();
    assert_eq!(r.initialize(addr(ADMIN)), Err(RewardsError::AlreadyInitialized));
    r.approve_party(addr(10), RewardsRole::Sponsor).unwrap();
    r.approve_party(addr(11), RewardsRole::Verifier).unwrap();
    r.approve_party(addr(12), RewardsRole::GoldPartner).unwrap();
    let mut cfg = CampaignConfig {
        reward_rate_bps: 100,
        user_spend_cap: 1_000_000,
        total_budget: 1_000_000,
        currency_code: 756,
        start_ledger: 10,
        end_ledger: 20,
        claim_window_ledgers: 100,
        eligible_mcc_policy_hash: h(1),
        redemption_terms_hash: h(2),
        sponsor_product_scope_hash: h(3),
        funding_commitment_hash: h(4),
    };
    cfg.end_ledger = 5;
    assert_eq!(r.create_campaign(h(50), addr(10), addr(11), addr(12), cfg), Err(RewardsError::InvalidWindow));
    cfg.end_ledger = 20;
    r.create_campaign(h(50), addr(10), addr(11), addr(12), cfg).unwrap();
    assert_eq!(r.create_campaign(h(50), addr(10), addr(11), addr(12), cfg), Err(RewardsError::CampaignExists));
    let input = SpendInput {
        spend_ref_hash: h(60),
        card_line_hash: h(5),
        amount: 1_000,
        currency_code: 756,
        category_policy_hash: h(1),
        posted_at_ledger: 1,
    };
    assert_eq!(
        r.record_eligible_spend(h(51), addr(20), addr(11), input, 15),
        Err(RewardsError::CampaignNotFound)
    );
    assert_eq!(
        r.record_eligible_spend(h(50), addr(20), addr(11), input, 25),
        Err(RewardsError::CampaignNotInWindow)
    );
    let zero_ref = SpendInput { spend_ref_hash: Bytes32 { hi: 0, lo: 0 }, ..input };
    assert_eq!(
        r.record_eligible_spend(h(50), addr(20), addr(11), zero_ref, 15),
        Err(RewardsError::InvalidEvidenceHash)
    );
    assert_eq!(
        r.confirm_spend_final(h(50), h(61), addr(11), h(62), 15),
        Err(RewardsError::SpendNotFound)
    );
    assert_eq!(r.get_claim(h(60)), Err(RewardsError::ClaimNotFound));
    assert_eq!(r.get_voucher(h(60)), Err(RewardsError::VoucherNotFound));
    assert_eq!(r.get_redemption(h(60)), Err(RewardsError::RedemptionNotFound));
}

#[test]
fn reversal_of_a_repaid_draw_unbalances_the_line() {
    // the one input outside the accounting law: the ledger accepts it and
    // the drawn balance goes negative
    let mut l = open_line();
    l.record_drawdown(h(LINE), addr(PROCESSOR), h(370), 10_000, at(1)).unwrap();
    l.apply_repayment(h(LINE), addr(VAULT), h(371), 10_000, at(2)).unwrap();
    l.reverse_drawdown(h(LINE), addr(PROCESSOR), h(370), 10_000, at(3)).unwrap();
    let line = l.get_line(h(LINE)).unwrap();
    assert_eq!(line.drawn_balance, -10_000);
    assert_eq!(line.available_limit, 729_000);
}

#[test]
fn snapshot_and_restore_give_the_same_ledger() {
    let mut l = open_line();
    l.record_drawdown(h(LINE), addr(PROCESSOR), h(380), 10_000, at(1)).unwrap();
    let snap = l.snapshot();
    assert_eq!(snap.lines.len(), 1);
    assert_eq!(snap.framework_seq, vec![(h(FRAMEWORK), 7)]);
    let mut r = CreditLedger::restore(&snap);
    assert_eq!(r.get_line(h(LINE)), l.get_line(h(LINE)));
    assert_eq!(r.get_position(h(POSITION)), l.get_position(h(POSITION)));
    assert_eq!(r.framework_sequence(h(FRAMEWORK)), 7);
    assert!(r.is_approved(addr(BANK), Role::Bank));
    // the restored ledger carries on exactly as the saved one would
    let a = l.record_drawdown(h(LINE), addr(PROCESSOR), h(381), 5_000, at(2)).unwrap();
    let b = r.record_drawdown(h(LINE), addr(PROCESSOR), h(381), 5_000, at(2)).unwrap();
    assert_eq!(a, b);
    assert_eq!(a.sequence, 8);
}

#[test]
fn restore_lets_a_later_entry_win() {
    let mut snap = CreditLedger::new().snapshot();
    snap.framework_seq = vec![(h(1), 3), (h(2), 9), (h(1), 5)];
    let r = CreditLedger::restore(&snap);
    assert_eq!(r.framework_sequence(h(1)), 5);
    assert_eq!(r.framework_sequence(h(2)), 9);
    assert!(r.has_seq_headroom());
    snap.framework_seq = vec![(h(3), u64::MAX)];
    assert!(!CreditLedger::restore(&snap).has_seq_headroom());
}

#[test]
fn rewards_snapshot_round_trip_and_validity() {
    let mut r = RewardsLedger::new();
    assert!(r.check_valid());
    r.initialize(addr(ADMIN)).unwrap();
    r.approve_party(addr(10), RewardsRole::Sponsor).unwrap();
    r.approve_party(addr(11), RewardsRole::Verifier).unwrap();
    r.approve_party(addr(12), RewardsRole::GoldPartner).unwrap();
    let cfg = CampaignConfig {
        reward_rate_bps: 100,
        user_spend_cap: 1_000_000,
        total_budget: 1_000_000,
        currency_code: 756,
        start_ledger: 0,
        end_ledger: 1_000,
        claim_window_ledgers: 100,
        eligible_mcc_policy_hash: h(1),
        redemption_terms_hash: h(2),
        sponsor_product_scope_hash: h(3),
        funding_commitment_hash: h(4),
    };
    r.create_campaign(h(50), addr(10), addr(11), addr(12), cfg).unwrap();
    let input = SpendInput {
        spend_ref_hash: h(60),
        card_line_hash: h(5),
        amount: 20_000,
        currency_code: 756,
        category_policy_hash: h(1),
        posted_at_ledger: 1,
    };
    assert_eq!(r.record_eligible_spend(h(50), addr(20), addr(11), input, 1), Ok(200));
    let snap = r.snapshot();
    let back = RewardsLedger::restore(&snap);
    assert!(back.check_valid());
    assert_eq!(back.get_campaign(h(50)), r.get_campaign(h(50)));
    assert_eq!(back.get_accrual(h(60)), r.get_accrual(h(60)));
    assert_eq!(back.get_user_usage(h(50), addr(20)).eligible_spend_total, 20_000);
    // a state whose usage exceeds the campaign cap breaks the invariant
    let mut broken = snap.clone();
    broken.usage[0].1.eligible_spend_total = 2_000_000;
    assert!(!RewardsLedger::restore(&broken).check_valid());
    // an accrual without value breaks it too
    let mut broken = snap;
    broken.accruals[0].1.reward_value = 0;
    assert!(!RewardsLedger::restore(&broken).check_valid());
}

#[test]
fn settlement_plan_names_the_transfer() {
    let l = open_line();
    let mut v = SettlementVault::new();
    let line = l.get_line(h(LINE)).ok();
    assert_eq!(
        v.plan_settlement(line, addr(OWNER), addr(BANK), 1),
        Err(SettleError::Vault(VaultError::NotInitialized))
    );
    v.initialize(addr(ADMIN), addr(77), addr(500)).unwrap();
    assert_eq!(
        v.plan_settlement(line, addr(OWNER), addr(BANK), 0),
        Err(SettleError::Vault(VaultError::AmountNotPositive))
    );
    assert_eq!(
        v.plan_settlement(None, addr(OWNER), addr(BANK), 1),
        Err(SettleError::Ledger(Error::LineNotFound))
    );
    // nothing is drawn yet
    assert_eq!(
        v.plan_settlement(line, addr(OWNER), addr(BANK), 1),
        Err(SettleError::Vault(VaultError::LineNotRepayable))
    );
    let mut drawn = line.unwrap();
    drawn.drawn_balance = 500;
    assert_eq!(
        v.plan_settlement(Some(drawn), addr(OWNER), addr(BANK), 501),
        Err(SettleError::Vault(VaultError::RepaymentExceedsOutstandingBalance))
    );
    let t = v.plan_settlement(Some(drawn), addr(OWNER), addr(BANK), 500).unwrap();
    assert_eq!((t.token, t.from, t.to, t.amount), (addr(77), addr(OWNER), addr(BANK), 500));
    assert_eq!(v.initialize(addr(ADMIN), addr(78), addr(501)), Err(VaultError::AlreadyInitialized));
    assert_eq!(v.get_settlement_token(), Ok(addr(77)));
}

#[test]
fn readiness_events_report_the_record_s_prior_status() {
    let mut l = open_line();
    l.open_enforcement_readiness(h(LINE), addr(BANK), h(600), at(1)).unwrap();
    let ev = l
        .populate_enforcement_readiness(h(LINE), addr(BANK), addr(601), h(602), addr(603), h(604), h(605), 1_000, at(1))
        .unwrap();
    assert_eq!(ev.previous_state, StateLabel::ReadinessIncomplete);
    assert_eq!(ev.new_state, StateLabel::ReadinessReady);
    // back to incomplete: the event names the Ready record it left
    let ev = l
        .populate_enforcement_readiness(h(LINE), addr(BANK), addr(BANK), h(602), addr(603), h(604), h(605), 1_000, at(1))
        .unwrap();
    assert_eq!(ev.previous_state, StateLabel::ReadinessReady);
    assert_eq!(ev.new_state, StateLabel::ReadinessIncomplete);
    // expiring an Incomplete record reports Incomplete, not Ready
    let ev = l.expire_enforcement_readiness(h(LINE), addr(BANK), h(606), at(2)).unwrap();
    assert_eq!(ev.previous_state, StateLabel::ReadinessIncomplete);
    assert_eq!(ev.new_state, StateLabel::ReadinessExpired);
    // and expiring it again reports Expired
    let ev = l.expire_enforcement_readiness(h(LINE), addr(BANK), h(607), at(3)).unwrap();
    assert_eq!(ev.previous_state, StateLabel::ReadinessExpired);
}

#[test]
fn refusals_before_the_arithmetic_need_no_headroom() {
    let l = open_line();
    let mut snap = l.snapshot();
    snap.lines[0].1.available_limit = i128::MAX;
    snap.lines[0].1.drawn_balance = i128::MAX;
    let mut r = CreditLedger::restore(&snap);
    assert_eq!(
        r.reverse_drawdown(h(LINE), addr(PROCESSOR), h(610), 5, at(1)),
        Err(Error::NothingToReverse)
    );
    assert_eq!(
        r.record_drawdown(h(LINE), addr(PROCESSOR), h(611), 0, at(1)),
        Err(Error::AmountNotPositive)
    );
    assert_eq!(
        r.apply_repayment(h(LINE), addr(BANK), h(612), 5, at(1)),
        Err(Error::PartyNotApproved)
    );
    assert_eq!(
        r.bank_resume_line(h(LINE), addr(BANK), h(613), at(1)),
        Err(Error::LineNotSuspended)
    );
    assert_eq!(
        r.revalue_and_check(h(LINE), addr(VALUER), 29_900_000_000, 0, 5, 60, 500, 9000, h(614), at(1)),
        Err(Error::PriceFromFuture)
    );
}

#[test]
fn law_held_bars_stay_locked_until_release() {
    let mut l = open_line();
    l.record_drawdown(h(LINE), addr(PROCESSOR), h(620), 10_000, at(1)).unwrap();
    l.issue_default_notice(h(LINE), addr(BANK), 50, h(621), at(2)).unwrap();
    l.cure_default(h(LINE), addr(OWNER), h(622), at(3)).unwrap();
    // after drawdown, default and cure the bars are still locked
    assert_eq!(
        l.register_position(h(623), h(FRAMEWORK), addr(OWNER), addr(CUSTODIAN), h(624), h(SERIALS), 1, 100_000, at(4)),
        Err(Error::BarSetAlreadyActive)
    );
    l.apply_repayment(h(LINE), addr(VAULT), h(625), 10_000, at(5)).unwrap();
    l.bank_authorize_release(h(LINE), addr(BANK), h(626), at(6)).unwrap();
    // release authorized but not confirmed: still locked
    assert_eq!(
        l.register_position(h(623), h(FRAMEWORK), addr(OWNER), addr(CUSTODIAN), h(624), h(SERIALS), 1, 100_000, at(6)),
        Err(Error::BarSetAlreadyActive)
    );
    l.custodian_confirm_release(h(PLEDGE), addr(CUSTODIAN), h(627), at(7)).unwrap();
    l.register_position(h(623), h(FRAMEWORK), addr(OWNER), addr(CUSTODIAN), h(624), h(SERIALS), 1, 100_000, at(8))
        .unwrap();
}

#[test]
fn late_adjustment_approval_on_a_released_position_drops_a_live_lock() {
    // The one input on which the bar-set locks break: an adjustment requested
    // while the line was open is approved after the position was released.
    let mut l = open_line();
    l.request_collateral_adjustment(h(630), h(LINE), addr(OWNER), AdjustmentType::Substitution, h(631), h(632), 4_011_000_000, h(633), at(1))
        .unwrap();
    l.bank_authorize_release(h(LINE), addr(BANK), h(634), at(2)).unwrap();
    l.custodian_confirm_release(h(PLEDGE), addr(CUSTODIAN), h(635), at(3)).unwrap();
    // the released bars go to a new position, which locks them
    l.register_position(h(636), h(FRAMEWORK), addr(OWNER), addr(CUSTODIAN), h(637), h(SERIALS), 1, 100_000, at(4))
        .unwrap();
    l.custodian_confirm_adjustment(h(630), addr(CUSTODIAN), h(638), at(5)).unwrap();
    l.bank_approve_adjustment(h(630), addr(BANK), 29_900_000_000, at(6)).unwrap();
    // the approval dropped the new position's lock: the same bars register again
    l.register_position(h(639), h(FRAMEWORK), addr(OWNER), addr(CUSTODIAN), h(640), h(SERIALS), 1, 100_000, at(7))
        .unwrap();
}

#[test]
fn attestation_is_valid_through_its_expiry_ledger() {
    let mut l = ledger_with_parties();
    with_framework(&mut l);
    // stale only after the expiry ledger
    assert_eq!(
        l.register_position(h(650), h(FRAMEWORK), addr(OWNER), addr(CUSTODIAN), h(651), h(652), 1, 10, at(11)),
        Err(Error::AttestationStale)
    );
    // at the expiry ledger itself every step accepts it
    l.register_position(h(650), h(FRAMEWORK), addr(OWNER), addr(CUSTODIAN), h(651), h(652), 1, 10, at(10))
        .unwrap();
    l.select_bars_for_collateral(h(650), addr(OWNER), h(653), at(10)).unwrap();
    l.confirm_and_immobilize(h(650), addr(CUSTODIAN), h(654), at(10)).unwrap();
    l.activate_pledge(h(655), h(650), addr(OWNER), addr(BANK), h(656), at(10)).unwrap();
}

#[test]
fn range_predicates_match_the_operations_bounds() {
    let l = open_line();
    assert!(l.record_drawdown_in_range(h(LINE), addr(PROCESSOR), h(660), 10, at(1)));
    let mut snap = l.snapshot();
    snap.lines[0].1.drawn_balance = i128::MAX - 5;
    snap.lines[0].1.available_limit = 100;
    let r = CreditLedger::restore(&snap);
    // a drawdown that passes every check would overflow the drawn balance
    assert!(!r.record_drawdown_in_range(h(LINE), addr(PROCESSOR), h(660), 10, at(1)));
    // refused before the arithmetic: in range whatever the balances
    assert!(r.record_drawdown_in_range(h(LINE), addr(PROCESSOR), h(660), 1_000, at(1)));
    assert!(r.reverse_drawdown_in_range(h(LINE), addr(PROCESSOR), h(661), 10, at(1)));
    assert!(r.apply_repayment_in_range(h(LINE), addr(VAULT), h(662), 10, at(1)));
    assert!(r.bank_resume_line_in_range(h(LINE), addr(BANK), h(663), at(1)));
    assert!(r.revalue_and_check_in_range(h(LINE), addr(VALUER), 29_900_000_000, 0, 0, 60, 500, 9000, h(664), at(1)));
    assert!(r.populate_enforcement_readiness_in_range(h(LINE), addr(BANK), addr(665), h(666), addr(667), h(668), h(669), 1_000, at(1)));
}

#[test]
fn law_suspend_resume_and_terminal_enforcement() {
    let mut l = open_line();
    l.record_drawdown(h(LINE), addr(PROCESSOR), h(670), 19_000, at(1)).unwrap();
    l.bank_suspend_line(h(LINE), addr(BANK), h(671), at(2)).unwrap();
    assert_eq!(l.get_line(h(LINE)).unwrap().available_limit, 0);
    l.bank_resume_line(h(LINE), addr(BANK), h(672), at(3)).unwrap();
    let line = l.get_line(h(LINE)).unwrap();
    assert_eq!(line.status, LineStatus::Active);
    assert!(!line.manual_bank_suspension);
    assert_eq!(line.available_limit, 719_000 - 19_000);
    l.issue_default_notice(h(LINE), addr(BANK), 10, h(673), at(4)).unwrap();
    l.record_enforcement(h(LINE), addr(BANK), EnforcementOutcome::Sold, h(674), at(11)).unwrap();
    assert_eq!(l.get_line(h(LINE)).unwrap().drawn_balance, 19_000);
    assert_eq!(l.get_position(h(POSITION)).unwrap().status, PositionStatus::Enforced);
    assert_eq!(
        l.record_enforcement(h(LINE), addr(BANK), EnforcementOutcome::Sold, h(675), at(12)),
        Err(Error::NotDefaulted)
    );
    assert_eq!(l.cure_default(h(LINE), addr(OWNER), h(676), at(12)), Err(Error::NotDefaulted));
    // the enforced bars are free again
    l.register_position(h(677), h(FRAMEWORK), addr(OWNER), addr(CUSTODIAN), h(678), h(SERIALS), 1, 100_000, at(12))
        .unwrap();
}
