// Scenario tests for the credit ledger. A small in-process host stands in for
// the chain: it keeps the ledger clock, hands out fresh addresses and ids,
// holds each registered ledger, and records the events of the last call.

use std::cell::{Cell, RefCell};
use std::marker::PhantomData;
use std::rc::Rc;

use argent_core::credit_ledger::error::Error;
use argent_core::credit_ledger::event::{
    BalanceMoveData, CollateralAction, CollateralEventV1, CollateralPayloadV1, DefaultNoticeData,
    EnforcementData, EntityKind, HashData, LineOpenedData, RevaluedData, StateLabel,
};
use argent_core::credit_ledger::state::CreditLedger;
use argent_core::credit_ledger::types::{
    AdjustmentStatus, AdjustmentType, CollateralAdjustment, CollateralSelection, ControlFramework,
    CreditLine, CustodyControl, DrawdownRecord, EnforcementOutcome, EnforcementReadiness,
    FrameworkStatus, LedgerEnv, LineStatus, LineValuation, MarginState, Pledge, PledgeStatus,
    PositionStatus, ReadinessStatus, RepaymentRecord, Role, VaultPosition,
};
use argent_core::primitives::{Address, Bytes32};

type BytesN32 = Bytes32;

#[derive(Debug, PartialEq)]
struct ConversionError;

#[derive(Debug, PartialEq)]
struct InvokeError;

type TryResult<T> = Result<Result<T, ConversionError>, Result<Error, InvokeError>>;

struct LedgerInfo {
    sequence_number: u32,
    timestamp: u64,
}

struct Host {
    sequence: Cell<u32>,
    timestamp: Cell<u64>,
    counter: Cell<u128>,
    ledgers: RefCell<Vec<(Address, CreditLedger)>>,
    events: RefCell<Vec<CollateralEventV1>>,
}

#[derive(Clone)]
struct Env {
    host: Rc<Host>,
}

impl Default for Env {
    fn default() -> Env {
        Env {
            host: Rc::new(Host {
                sequence: Cell::new(0),
                timestamp: Cell::new(0),
                counter: Cell::new(0),
                ledgers: RefCell::new(Vec::new()),
                events: RefCell::new(Vec::new()),
            }),
        }
    }
}

struct Ledger<'a> {
    host: &'a Host,
}

impl Ledger<'_> {
    fn sequence(&self) -> u32 {
        self.host.sequence.get()
    }

    fn timestamp(&self) -> u64 {
        self.host.timestamp.get()
    }

    fn set_sequence_number(&self, n: u32) {
        self.host.sequence.set(n);
    }

    fn set_timestamp(&self, t: u64) {
        self.host.timestamp.set(t);
    }

    #[allow(dead_code)]
    fn with_mut(&self, f: impl FnOnce(&mut LedgerInfo)) {
        let mut li = LedgerInfo { sequence_number: self.sequence(), timestamp: self.timestamp() };
        f(&mut li);
        self.set_sequence_number(li.sequence_number);
        self.set_timestamp(li.timestamp);
    }
}

struct Events<'a> {
    host: &'a Host,
}

impl Events<'_> {
    /// The canonical events published by the most recent call.
    fn all(&self) -> Vec<CollateralEventV1> {
        self.host.events.borrow().clone()
    }
}

impl Env {
    fn ledger(&self) -> Ledger<'_> {
        Ledger { host: &self.host }
    }

    fn events(&self) -> Events<'_> {
        Events { host: &self.host }
    }

    /// Every call in these scenarios is signed by the party it names.
    fn mock_all_auths(&self) {}

    fn next(&self) -> u128 {
        let n = self.host.counter.get() + 1;
        self.host.counter.set(n);
        n
    }

    fn ledger_env(&self) -> LedgerEnv {
        LedgerEnv { sequence: self.host.sequence.get(), timestamp: self.host.timestamp.get() }
    }

    fn register_credit_ledger(&self) -> Address {
        let address = Address::generate(self);
        self.host.ledgers.borrow_mut().push((address, CreditLedger::new()));
        address
    }
}

trait Generate {
    fn generate(env: &Env) -> Self;
}

impl Generate for Address {
    fn generate(env: &Env) -> Address {
        Address { key: Bytes32 { hi: 0xadd0_0000_0000_0000_0000_0000_0000_0000, lo: env.next() } }
    }
}

fn id(env: &Env) -> BytesN32 {
    Bytes32 { hi: 0x1d00_0000_0000_0000_0000_0000_0000_0000, lo: env.next() }
}

fn from_array(_env: &Env, bytes: &[u8; 32]) -> BytesN32 {
    let mut hi: u128 = 0;
    let mut lo: u128 = 0;
    for b in &bytes[..16] {
        hi = (hi << 8) | (*b as u128);
    }
    for b in &bytes[16..] {
        lo = (lo << 8) | (*b as u128);
    }
    Bytes32 { hi, lo }
}

struct CreditLedgerClient<'a> {
    env: Env,
    address: Address,
    _life: PhantomData<&'a ()>,
}

fn done<T>(r: Result<T, Error>) -> TryResult<T> {
    match r {
        Ok(v) => Ok(Ok(v)),
        Err(e) => Err(Ok(e)),
    }
}

fn unwrap_call<T>(r: TryResult<T>, name: &str) -> T {
    match r {
        Ok(Ok(v)) => v,
        Ok(Err(e)) => panic!("{}: conversion failed: {:?}", name, e),
        Err(Ok(e)) => panic!("{}: contract error {:?}", name, e),
        Err(Err(e)) => panic!("{}: host error {:?}", name, e),
    }
}

impl<'a> CreditLedgerClient<'a> {
    fn new(env: &Env, address: &Address) -> CreditLedgerClient<'a> {
        CreditLedgerClient { env: env.clone(), address: *address, _life: PhantomData }
    }

    fn read<T>(&self, f: impl FnOnce(&CreditLedger) -> T) -> T {
        let ledgers = self.env.host.ledgers.borrow();
        let entry = ledgers.iter().find(|(a, _)| *a == self.address).expect("ledger is registered");
        f(&entry.1)
    }

    fn write<T>(&self, f: impl FnOnce(&mut CreditLedger, LedgerEnv) -> T) -> T {
        let lenv = self.env.ledger_env();
        let mut ledgers = self.env.host.ledgers.borrow_mut();
        let entry = ledgers.iter_mut().find(|(a, _)| *a == self.address).expect("ledger is registered");
        f(&mut entry.1, lenv)
    }

    /// Run one event-publishing call: the event buffer then holds what it
    /// published, as the host's buffer holds the last invocation's events.
    fn act(&self, f: impl FnOnce(&mut CreditLedger, LedgerEnv) -> Result<CollateralEventV1, Error>) -> TryResult<()> {
        let r = self.write(f);
        let mut events = self.env.host.events.borrow_mut();
        events.clear();
        match r {
            Ok(ev) => {
                events.push(ev);
                Ok(Ok(()))
            }
            Err(e) => Err(Ok(e)),
        }
    }

    fn try_initialize(&self, admin: &Address, vault: &Address) -> TryResult<()> {
        done(self.write(|l, _| l.initialize(*admin, *vault)))
    }

    fn initialize(&self, admin: &Address, vault: &Address) {
        unwrap_call(self.try_initialize(admin, vault), "initialize")
    }

    fn try_approve_party(&self, party: &Address, role: &Role) -> TryResult<()> {
        done(self.write(|l, _| l.approve_party(*party, *role)))
    }

    fn approve_party(&self, party: &Address, role: &Role) {
        unwrap_call(self.try_approve_party(party, role), "approve_party")
    }

    fn try_revoke_party(&self, party: &Address, role: &Role) -> TryResult<()> {
        done(self.write(|l, _| l.revoke_party(*party, *role)))
    }

    fn revoke_party(&self, party: &Address, role: &Role) {
        unwrap_call(self.try_revoke_party(party, role), "revoke_party")
    }

    fn is_approved(&self, party: &Address, role: &Role) -> bool {
        self.read(|l| l.is_approved(*party, *role))
    }

    #[allow(dead_code)]
    fn get_settlement_vault(&self) -> Address {
        unwrap_call(done(self.read(|l| l.get_settlement_vault())), "get_settlement_vault")
    }

    fn framework_sequence(&self, framework_id: &BytesN32) -> u64 {
        self.read(|l| l.framework_sequence(*framework_id))
    }

    #[allow(clippy::too_many_arguments)]
    fn try_register_framework(
        &self,
        framework_id: &BytesN32,
        owner: &Address,
        bank: &Address,
        custodian: &Address,
        facility: &BytesN32,
        pledge: &BytesN32,
        custody: &BytesN32,
        schedule: &BytesN32,
        margin: &BytesN32,
        waterfall: &BytesN32,
    ) -> TryResult<()> {
        self.act(|l, e| {
            l.register_framework(
                *framework_id, *owner, *bank, *custodian, *facility, *pledge, *custody, *schedule,
                *margin, *waterfall, e,
            )
        })
    }

    #[allow(clippy::too_many_arguments)]
    fn register_framework(
        &self,
        framework_id: &BytesN32,
        owner: &Address,
        bank: &Address,
        custodian: &Address,
        facility: &BytesN32,
        pledge: &BytesN32,
        custody: &BytesN32,
        schedule: &BytesN32,
        margin: &BytesN32,
        waterfall: &BytesN32,
    ) {
        unwrap_call(
            self.try_register_framework(
                framework_id, owner, bank, custodian, facility, pledge, custody, schedule, margin,
                waterfall,
            ),
            "register_framework",
        )
    }

    fn get_framework(&self, framework_id: &BytesN32) -> ControlFramework {
        unwrap_call(done(self.read(|l| l.get_framework(*framework_id))), "get_framework")
    }

    #[allow(clippy::too_many_arguments)]
    fn try_register_position(
        &self,
        position_id: &BytesN32,
        framework_id: &BytesN32,
        owner: &Address,
        custodian: &Address,
        barlist_hash: &BytesN32,
        serials_hash: &BytesN32,
        fine_weight_oz_e7: &i128,
        attestation_expiry: &u32,
    ) -> TryResult<()> {
        self.act(|l, e| {
            l.register_position(
                *position_id, *framework_id, *owner, *custodian, *barlist_hash, *serials_hash,
                *fine_weight_oz_e7, *attestation_expiry, e,
            )
        })
    }

    #[allow(clippy::too_many_arguments)]
    fn register_position(
        &self,
        position_id: &BytesN32,
        framework_id: &BytesN32,
        owner: &Address,
        custodian: &Address,
        barlist_hash: &BytesN32,
        serials_hash: &BytesN32,
        fine_weight_oz_e7: &i128,
        attestation_expiry: &u32,
    ) {
        unwrap_call(
            self.try_register_position(
                position_id, framework_id, owner, custodian, barlist_hash, serials_hash,
                fine_weight_oz_e7, attestation_expiry,
            ),
            "register_position",
        )
    }

    fn try_select_bars_for_collateral(&self, position_id: &BytesN32, owner: &Address, request_hash: &BytesN32) -> TryResult<()> {
        self.act(|l, e| l.select_bars_for_collateral(*position_id, *owner, *request_hash, e))
    }

    fn select_bars_for_collateral(&self, position_id: &BytesN32, owner: &Address, request_hash: &BytesN32) {
        unwrap_call(self.try_select_bars_for_collateral(position_id, owner, request_hash), "select_bars_for_collateral")
    }

    fn get_selection(&self, position_id: &BytesN32) -> CollateralSelection {
        unwrap_call(done(self.read(|l| l.get_selection(*position_id))), "get_selection")
    }

    fn try_confirm_and_immobilize(&self, position_id: &BytesN32, custodian: &Address, control_hash: &BytesN32) -> TryResult<()> {
        self.act(|l, e| l.confirm_and_immobilize(*position_id, *custodian, *control_hash, e))
    }

    fn confirm_and_immobilize(&self, position_id: &BytesN32, custodian: &Address, control_hash: &BytesN32) {
        unwrap_call(self.try_confirm_and_immobilize(position_id, custodian, control_hash), "confirm_and_immobilize")
    }

    fn get_custody_control(&self, position_id: &BytesN32) -> CustodyControl {
        unwrap_call(done(self.read(|l| l.get_custody_control(*position_id))), "get_custody_control")
    }

    fn try_activate_pledge(
        &self,
        pledge_id: &BytesN32,
        position_id: &BytesN32,
        owner: &Address,
        bank: &Address,
        legal_terms_hash: &BytesN32,
    ) -> TryResult<()> {
        self.act(|l, e| l.activate_pledge(*pledge_id, *position_id, *owner, *bank, *legal_terms_hash, e))
    }

    fn activate_pledge(
        &self,
        pledge_id: &BytesN32,
        position_id: &BytesN32,
        owner: &Address,
        bank: &Address,
        legal_terms_hash: &BytesN32,
    ) {
        unwrap_call(self.try_activate_pledge(pledge_id, position_id, owner, bank, legal_terms_hash), "activate_pledge")
    }

    #[allow(clippy::too_many_arguments)]
    fn try_open_credit_line(
        &self,
        line_id: &BytesN32,
        pledge_id: &BytesN32,
        bank: &Address,
        cardholder: &Address,
        approved_limit: &i128,
        ltv_bps: &u32,
        maintenance_bps: &u32,
        price_per_oz_e7: &i128,
    ) -> TryResult<()> {
        self.act(|l, e| {
            l.open_credit_line(
                *line_id, *pledge_id, *bank, *cardholder, *approved_limit, *ltv_bps,
                *maintenance_bps, *price_per_oz_e7, e,
            )
        })
    }

    #[allow(clippy::too_many_arguments)]
    fn open_credit_line(
        &self,
        line_id: &BytesN32,
        pledge_id: &BytesN32,
        bank: &Address,
        cardholder: &Address,
        approved_limit: &i128,
        ltv_bps: &u32,
        maintenance_bps: &u32,
        price_per_oz_e7: &i128,
    ) {
        unwrap_call(
            self.try_open_credit_line(
                line_id, pledge_id, bank, cardholder, approved_limit, ltv_bps, maintenance_bps,
                price_per_oz_e7,
            ),
            "open_credit_line",
        )
    }

    fn try_record_drawdown(&self, line_id: &BytesN32, processor: &Address, auth_ref: &BytesN32, amount: &i128) -> TryResult<()> {
        self.act(|l, e| l.record_drawdown(*line_id, *processor, *auth_ref, *amount, e))
    }

    fn record_drawdown(&self, line_id: &BytesN32, processor: &Address, auth_ref: &BytesN32, amount: &i128) {
        unwrap_call(self.try_record_drawdown(line_id, processor, auth_ref, amount), "record_drawdown")
    }

    fn try_reverse_drawdown(&self, line_id: &BytesN32, processor: &Address, auth_ref: &BytesN32, amount: &i128) -> TryResult<()> {
        self.act(|l, e| l.reverse_drawdown(*line_id, *processor, *auth_ref, *amount, e))
    }

    fn reverse_drawdown(&self, line_id: &BytesN32, processor: &Address, auth_ref: &BytesN32, amount: &i128) {
        unwrap_call(self.try_reverse_drawdown(line_id, processor, auth_ref, amount), "reverse_drawdown")
    }

    fn get_drawdown(&self, auth_ref: &BytesN32) -> DrawdownRecord {
        unwrap_call(done(self.read(|l| l.get_drawdown(*auth_ref))), "get_drawdown")
    }

    fn try_apply_repayment(&self, line_id: &BytesN32, vault: &Address, payment_ref: &BytesN32, amount: &i128) -> TryResult<()> {
        self.act(|l, e| l.apply_repayment(*line_id, *vault, *payment_ref, *amount, e))
    }

    fn apply_repayment(&self, line_id: &BytesN32, vault: &Address, payment_ref: &BytesN32, amount: &i128) {
        unwrap_call(self.try_apply_repayment(line_id, vault, payment_ref, amount), "apply_repayment")
    }

    #[allow(dead_code)]
    fn get_repayment(&self, payment_ref: &BytesN32) -> RepaymentRecord {
        unwrap_call(done(self.read(|l| l.get_repayment(*payment_ref))), "get_repayment")
    }

    #[allow(clippy::too_many_arguments)]
    fn try_request_collateral_adjustment(
        &self,
        adjustment_id: &BytesN32,
        line_id: &BytesN32,
        owner: &Address,
        adjustment_type: &AdjustmentType,
        new_barlist_hash: &BytesN32,
        new_serials_hash: &BytesN32,
        new_weight_oz_e7: &i128,
        request_hash: &BytesN32,
    ) -> TryResult<()> {
        self.act(|l, e| {
            l.request_collateral_adjustment(
                *adjustment_id, *line_id, *owner, *adjustment_type, *new_barlist_hash,
                *new_serials_hash, *new_weight_oz_e7, *request_hash, e,
            )
        })
    }

    #[allow(clippy::too_many_arguments)]
    fn request_collateral_adjustment(
        &self,
        adjustment_id: &BytesN32,
        line_id: &BytesN32,
        owner: &Address,
        adjustment_type: &AdjustmentType,
        new_barlist_hash: &BytesN32,
        new_serials_hash: &BytesN32,
        new_weight_oz_e7: &i128,
        request_hash: &BytesN32,
    ) {
        unwrap_call(
            self.try_request_collateral_adjustment(
                adjustment_id, line_id, owner, adjustment_type, new_barlist_hash, new_serials_hash,
                new_weight_oz_e7, request_hash,
            ),
            "request_collateral_adjustment",
        )
    }

    fn get_adjustment(&self, adjustment_id: &BytesN32) -> CollateralAdjustment {
        unwrap_call(done(self.read(|l| l.get_adjustment(*adjustment_id))), "get_adjustment")
    }

    fn try_custodian_confirm_adjustment(&self, adjustment_id: &BytesN32, custodian: &Address, evidence: &BytesN32) -> TryResult<()> {
        self.act(|l, e| l.custodian_confirm_adjustment(*adjustment_id, *custodian, *evidence, e))
    }

    fn custodian_confirm_adjustment(&self, adjustment_id: &BytesN32, custodian: &Address, evidence: &BytesN32) {
        unwrap_call(self.try_custodian_confirm_adjustment(adjustment_id, custodian, evidence), "custodian_confirm_adjustment")
    }

    fn try_bank_approve_adjustment(&self, adjustment_id: &BytesN32, bank: &Address, price_per_oz_e7: &i128) -> TryResult<()> {
        self.act(|l, e| l.bank_approve_adjustment(*adjustment_id, *bank, *price_per_oz_e7, e))
    }

    fn bank_approve_adjustment(&self, adjustment_id: &BytesN32, bank: &Address, price_per_oz_e7: &i128) {
        unwrap_call(self.try_bank_approve_adjustment(adjustment_id, bank, price_per_oz_e7), "bank_approve_adjustment")
    }

    fn try_bank_authorize_release(&self, line_id: &BytesN32, bank: &Address, payoff: &BytesN32) -> TryResult<()> {
        self.act(|l, e| l.bank_authorize_release(*line_id, *bank, *payoff, e))
    }

    fn bank_authorize_release(&self, line_id: &BytesN32, bank: &Address, payoff: &BytesN32) {
        unwrap_call(self.try_bank_authorize_release(line_id, bank, payoff), "bank_authorize_release")
    }

    fn try_custodian_confirm_release(&self, pledge_id: &BytesN32, custodian: &Address, notice: &BytesN32) -> TryResult<()> {
        self.act(|l, e| l.custodian_confirm_release(*pledge_id, *custodian, *notice, e))
    }

    fn custodian_confirm_release(&self, pledge_id: &BytesN32, custodian: &Address, notice: &BytesN32) {
        unwrap_call(self.try_custodian_confirm_release(pledge_id, custodian, notice), "custodian_confirm_release")
    }

    fn try_issue_default_notice(&self, line_id: &BytesN32, bank: &Address, deadline: &u32, notice: &BytesN32) -> TryResult<()> {
        self.act(|l, e| l.issue_default_notice(*line_id, *bank, *deadline, *notice, e))
    }

    fn issue_default_notice(&self, line_id: &BytesN32, bank: &Address, deadline: &u32, notice: &BytesN32) {
        unwrap_call(self.try_issue_default_notice(line_id, bank, deadline, notice), "issue_default_notice")
    }

    fn try_cure_default(&self, line_id: &BytesN32, cardholder: &Address, evidence: &BytesN32) -> TryResult<()> {
        self.act(|l, e| l.cure_default(*line_id, *cardholder, *evidence, e))
    }

    fn cure_default(&self, line_id: &BytesN32, cardholder: &Address, evidence: &BytesN32) {
        unwrap_call(self.try_cure_default(line_id, cardholder, evidence), "cure_default")
    }

    fn try_bank_suspend_line(&self, line_id: &BytesN32, bank: &Address, reason: &BytesN32) -> TryResult<()> {
        self.act(|l, e| l.bank_suspend_line(*line_id, *bank, *reason, e))
    }

    fn bank_suspend_line(&self, line_id: &BytesN32, bank: &Address, reason: &BytesN32) {
        unwrap_call(self.try_bank_suspend_line(line_id, bank, reason), "bank_suspend_line")
    }

    fn try_bank_resume_line(&self, line_id: &BytesN32, bank: &Address, evidence: &BytesN32) -> TryResult<()> {
        self.act(|l, e| l.bank_resume_line(*line_id, *bank, *evidence, e))
    }

    fn bank_resume_line(&self, line_id: &BytesN32, bank: &Address, evidence: &BytesN32) {
        unwrap_call(self.try_bank_resume_line(line_id, bank, evidence), "bank_resume_line")
    }

    #[allow(clippy::too_many_arguments)]
    fn try_revalue_and_check(
        &self,
        line_id: &BytesN32,
        valuer: &Address,
        price_per_oz_e7: &i128,
        confidence_e7: &i128,
        priced_at: &u64,
        max_age_secs: &u64,
        conf_tol_bps: &u32,
        warning_bps: &u32,
        valuation_ref: &BytesN32,
    ) -> TryResult<()> {
        self.act(|l, e| {
            l.revalue_and_check(
                *line_id, *valuer, *price_per_oz_e7, *confidence_e7, *priced_at, *max_age_secs,
                *conf_tol_bps, *warning_bps, *valuation_ref, e,
            )
        })
    }

    #[allow(clippy::too_many_arguments)]
    fn revalue_and_check(
        &self,
        line_id: &BytesN32,
        valuer: &Address,
        price_per_oz_e7: &i128,
        confidence_e7: &i128,
        priced_at: &u64,
        max_age_secs: &u64,
        conf_tol_bps: &u32,
        warning_bps: &u32,
        valuation_ref: &BytesN32,
    ) {
        unwrap_call(
            self.try_revalue_and_check(
                line_id, valuer, price_per_oz_e7, confidence_e7, priced_at, max_age_secs,
                conf_tol_bps, warning_bps, valuation_ref,
            ),
            "revalue_and_check",
        )
    }

    fn get_valuation(&self, line_id: &BytesN32) -> LineValuation {
        unwrap_call(done(self.read(|l| l.get_valuation(*line_id))), "get_valuation")
    }

    fn try_record_enforcement(
        &self,
        line_id: &BytesN32,
        bank: &Address,
        outcome: &EnforcementOutcome,
        instrument: &BytesN32,
    ) -> TryResult<()> {
        self.act(|l, e| l.record_enforcement(*line_id, *bank, *outcome, *instrument, e))
    }

    fn record_enforcement(&self, line_id: &BytesN32, bank: &Address, outcome: &EnforcementOutcome, instrument: &BytesN32) {
        unwrap_call(self.try_record_enforcement(line_id, bank, outcome, instrument), "record_enforcement")
    }

    fn try_open_enforcement_readiness(&self, line_id: &BytesN32, bank: &Address, evidence: &BytesN32) -> TryResult<()> {
        self.act(|l, e| l.open_enforcement_readiness(*line_id, *bank, *evidence, e))
    }

    fn open_enforcement_readiness(&self, line_id: &BytesN32, bank: &Address, evidence: &BytesN32) {
        unwrap_call(self.try_open_enforcement_readiness(line_id, bank, evidence), "open_enforcement_readiness")
    }

    #[allow(clippy::too_many_arguments)]
    fn try_populate_enforcement_readiness(
        &self,
        line_id: &BytesN32,
        bank: &Address,
        liquidation_agent: &Address,
        realization_route_hash: &BytesN32,
        settlement_asset: &Address,
        valuation_source_hash: &BytesN32,
        waterfall_hash: &BytesN32,
        valid_until_ledger: &u32,
    ) -> TryResult<()> {
        self.act(|l, e| {
            l.populate_enforcement_readiness(
                *line_id, *bank, *liquidation_agent, *realization_route_hash, *settlement_asset,
                *valuation_source_hash, *waterfall_hash, *valid_until_ledger, e,
            )
        })
    }

    #[allow(clippy::too_many_arguments)]
    fn populate_enforcement_readiness(
        &self,
        line_id: &BytesN32,
        bank: &Address,
        liquidation_agent: &Address,
        realization_route_hash: &BytesN32,
        settlement_asset: &Address,
        valuation_source_hash: &BytesN32,
        waterfall_hash: &BytesN32,
        valid_until_ledger: &u32,
    ) {
        unwrap_call(
            self.try_populate_enforcement_readiness(
                line_id, bank, liquidation_agent, realization_route_hash, settlement_asset,
                valuation_source_hash, waterfall_hash, valid_until_ledger,
            ),
            "populate_enforcement_readiness",
        )
    }

    fn try_expire_enforcement_readiness(&self, line_id: &BytesN32, bank: &Address, evidence: &BytesN32) -> TryResult<()> {
        self.act(|l, e| l.expire_enforcement_readiness(*line_id, *bank, *evidence, e))
    }

    fn expire_enforcement_readiness(&self, line_id: &BytesN32, bank: &Address, evidence: &BytesN32) {
        unwrap_call(self.try_expire_enforcement_readiness(line_id, bank, evidence), "expire_enforcement_readiness")
    }

    fn get_enforcement_readiness(&self, line_id: &BytesN32) -> EnforcementReadiness {
        unwrap_call(done(self.read(|l| l.get_enforcement_readiness(*line_id))), "get_enforcement_readiness")
    }

    fn available_capacity(&self, line_id: &BytesN32) -> i128 {
        unwrap_call(done(self.read(|l| l.available_capacity(*line_id))), "available_capacity")
    }

    fn get_line(&self, line_id: &BytesN32) -> CreditLine {
        unwrap_call(done(self.read(|l| l.get_line(*line_id))), "get_line")
    }

    fn get_position(&self, position_id: &BytesN32) -> VaultPosition {
        unwrap_call(done(self.read(|l| l.get_position(*position_id))), "get_position")
    }

    fn get_pledge(&self, pledge_id: &BytesN32) -> Pledge {
        unwrap_call(done(self.read(|l| l.get_pledge(*pledge_id))), "get_pledge")
    }
}

struct Fixture {
    env: Env,
    client: CreditLedgerClient<'static>,
    admin: Address,
    owner: Address,
    custodian: Address,
    bank: Address,
    processor: Address,
    cardholder: Address,
    vault: Address,
    valuation: Address,
}

fn setup() -> Fixture {
    let env = Env::default();
    env.mock_all_auths();
    let contract_id = env.register_credit_ledger();
    let client = CreditLedgerClient::new(&env, &contract_id);

    let admin = Address::generate(&env);
    let owner = Address::generate(&env);
    let custodian = Address::generate(&env);
    let bank = Address::generate(&env);
    let processor = Address::generate(&env);
    let cardholder = owner.clone();
    let vault = Address::generate(&env);
    let valuation = Address::generate(&env);

    client.initialize(&admin, &vault);
    client.approve_party(&custodian, &Role::Custodian);
    client.approve_party(&bank, &Role::Bank);
    client.approve_party(&processor, &Role::Processor);
    client.approve_party(&vault, &Role::Vault);
    client.approve_party(&valuation, &Role::Valuation);

    Fixture { env, client, admin, owner, custodian, bank, processor, cardholder, vault, valuation }
}

fn register_framework(f: &Fixture) -> BytesN32 {
    let framework_id = id(&f.env);
    f.client.register_framework(
        &framework_id,
        &f.owner,
        &f.bank,
        &f.custodian,
        &id(&f.env),
        &id(&f.env),
        &id(&f.env),
        &id(&f.env),
        &id(&f.env),
        &id(&f.env),
    );
    framework_id
}

fn register_and_immobilize(f: &Fixture) -> BytesN32 {
    let framework_id = register_framework(f);
    let position_id = id(&f.env);
    let expiry = f.env.ledger().sequence() + 100_000;
    let fine_weight_oz_e7: i128 = 4_011_000_000;
    f.client.register_position(
        &position_id,
        &framework_id,
        &f.owner,
        &f.custodian,
        &id(&f.env),
        &id(&f.env),
        &fine_weight_oz_e7,
        &expiry,
    );
    f.client.select_bars_for_collateral(&position_id, &f.owner, &id(&f.env));
    f.client.confirm_and_immobilize(&position_id, &f.custodian, &id(&f.env));
    position_id
}

fn happy_to_open(f: &Fixture) -> (BytesN32, BytesN32, BytesN32) {
    let position_id = register_and_immobilize(f);
    let pledge_id = id(&f.env);
    let line_id = id(&f.env);

    f.client.activate_pledge(
        &pledge_id,
        &position_id,
        &f.owner,
        &f.bank,
        &id(&f.env),
    );

    let price_per_oz_e7: i128 = 29_900_000_000;
    f.client.open_credit_line(
        &line_id,
        &pledge_id,
        &f.bank,
        &f.cardholder,
        &719_000,
        &6000u32,
        &7500u32,
        &price_per_oz_e7,
    );

    (position_id, pledge_id, line_id)
}

#[test]
fn register_framework_three_party() {
    let f = setup();
    let framework_id = register_framework(&f);
    let fwk = f.client.get_framework(&framework_id);
    assert_eq!(fwk.owner, f.owner);
    assert_eq!(fwk.bank, f.bank);
    assert_eq!(fwk.custodian, f.custodian);
    assert_eq!(fwk.status, FrameworkStatus::Active);
}

#[test]
fn refuses_framework_with_unapproved_bank() {
    let f = setup();
    let rogue_bank = Address::generate(&f.env);
    let framework_id = id(&f.env);
    let res = f.client.try_register_framework(
        &framework_id,
        &f.owner,
        &rogue_bank,
        &f.custodian,
        &id(&f.env), &id(&f.env), &id(&f.env), &id(&f.env), &id(&f.env), &id(&f.env),
    );
    assert_eq!(res, Err(Ok(Error::PartyNotApproved)));
}

#[test]
fn immobilize_moves_free_to_earmarked() {
    let f = setup();
    let framework_id = register_framework(&f);
    let position_id = id(&f.env);
    let expiry = f.env.ledger().sequence() + 100_000;
    f.client.register_position(
        &position_id, &framework_id, &f.owner, &f.custodian, &id(&f.env), &id(&f.env), &4_011_000_000, &expiry,
    );
    assert_eq!(f.client.get_position(&position_id).status, PositionStatus::Free);
    let request_hash = id(&f.env);
    f.client.select_bars_for_collateral(&position_id, &f.owner, &request_hash);
    assert_eq!(f.client.get_position(&position_id).status, PositionStatus::Selected);
    let selection = f.client.get_selection(&position_id);
    assert_eq!(selection.request_hash, request_hash);
    assert_eq!(selection.owner, f.owner);
    let control_hash = id(&f.env);
    f.client.confirm_and_immobilize(&position_id, &f.custodian, &control_hash);
    assert_eq!(f.client.get_position(&position_id).status, PositionStatus::Earmarked);
    let control = f.client.get_custody_control(&position_id);
    assert_eq!(control.control_agreement_hash, control_hash);
    assert_eq!(control.custodian, f.custodian);
}

#[test]
fn happy_path_draw_repay_release() {
    let f = setup();
    let (position_id, pledge_id, line_id) = happy_to_open(&f);

    assert_eq!(f.client.available_capacity(&line_id), 719_000);

    f.client.record_drawdown(&line_id, &f.processor, &id(&f.env), &25_000);
    assert_eq!(f.client.available_capacity(&line_id), 694_000);
    assert_eq!(f.client.get_line(&line_id).drawn_balance, 25_000);

    f.client.apply_repayment(&line_id, &f.vault, &id(&f.env), &25_000);
    assert_eq!(f.client.available_capacity(&line_id), 719_000);
    assert_eq!(f.client.get_line(&line_id).drawn_balance, 0);

    f.client.bank_authorize_release(&line_id, &f.bank, &id(&f.env));
    assert_eq!(f.client.get_position(&position_id).status, PositionStatus::ReleasePending);
    assert_eq!(f.client.get_pledge(&pledge_id).status, PledgeStatus::ReleaseAuthorized);
    assert_eq!(f.client.get_line(&line_id).status, LineStatus::Closed);

    f.client.custodian_confirm_release(&pledge_id, &f.custodian, &id(&f.env));
    assert_eq!(f.client.get_position(&position_id).status, PositionStatus::Released);
    assert_eq!(f.client.get_pledge(&pledge_id).status, PledgeStatus::Released);
}

#[test]
fn default_branch_records_enforcement() {
    let f = setup();
    let (position_id, _pledge_id, line_id) = happy_to_open(&f);
    f.client.record_drawdown(&line_id, &f.processor, &id(&f.env), &25_000);

    let cure_deadline = f.env.ledger().sequence() + 10;
    f.client.issue_default_notice(&line_id, &f.bank, &cure_deadline, &id(&f.env));
    assert_eq!(f.client.get_line(&line_id).status, LineStatus::Defaulted);

    f.env.ledger().set_sequence_number(cure_deadline + 1);

    f.client.record_enforcement(
        &line_id,
        &f.bank,
        &EnforcementOutcome::Sold,
        &id(&f.env),
    );
    assert_eq!(f.client.get_position(&position_id).status, PositionStatus::Enforced);
    assert_eq!(f.client.get_line(&line_id).status, LineStatus::Closed);
}

#[test]
fn cure_restores_line() {
    let f = setup();
    let (_p, pledge_id, line_id) = happy_to_open(&f);
    f.client.record_drawdown(&line_id, &f.processor, &id(&f.env), &25_000);
    let cure_deadline = f.env.ledger().sequence() + 100;
    f.client.issue_default_notice(&line_id, &f.bank, &cure_deadline, &id(&f.env));

    f.client.cure_default(&line_id, &f.cardholder, &id(&f.env));
    assert_eq!(f.client.get_line(&line_id).status, LineStatus::Active);
    assert_eq!(f.client.get_pledge(&pledge_id).status, PledgeStatus::Active);
}

#[test]
fn refuses_default_notice_with_past_deadline() {
    let f = setup();
    let (_p, _pl, line_id) = happy_to_open(&f);
    f.client.record_drawdown(&line_id, &f.processor, &id(&f.env), &25_000);
    f.env.ledger().set_sequence_number(1_000);
    let at_now = f.client.try_issue_default_notice(&line_id, &f.bank, &1_000, &id(&f.env));
    assert_eq!(at_now, Err(Ok(Error::CureDeadlineNotFuture)));
    let in_past = f.client.try_issue_default_notice(&line_id, &f.bank, &999, &id(&f.env));
    assert_eq!(in_past, Err(Ok(Error::CureDeadlineNotFuture)));
    assert_eq!(f.client.get_line(&line_id).status, LineStatus::Active);
}

#[test]
fn accepts_default_notice_with_future_deadline() {
    let f = setup();
    let (_p, _pl, line_id) = happy_to_open(&f);
    f.client.record_drawdown(&line_id, &f.processor, &id(&f.env), &25_000);
    let deadline = f.env.ledger().sequence() + 1;
    f.client.issue_default_notice(&line_id, &f.bank, &deadline, &id(&f.env));
    assert_eq!(f.client.get_line(&line_id).status, LineStatus::Defaulted);
}

#[test]
fn cannot_default_an_already_defaulted_line() {
    let f = setup();
    let (_p, _pl, line_id) = happy_to_open(&f);
    f.client.record_drawdown(&line_id, &f.processor, &id(&f.env), &25_000);
    let deadline = f.env.ledger().sequence() + 5;
    f.client.issue_default_notice(&line_id, &f.bank, &deadline, &id(&f.env));
    assert_eq!(f.client.get_line(&line_id).status, LineStatus::Defaulted);

    let deadline2 = f.env.ledger().sequence() + 10;
    let res = f.client.try_issue_default_notice(&line_id, &f.bank, &deadline2, &id(&f.env));
    assert_eq!(res, Err(Ok(Error::LineNotActive)));
}

#[test]
fn cure_allowed_after_deadline_until_enforcement() {
    let f = setup();
    let (_p, pledge_id, line_id) = happy_to_open(&f);
    f.client.record_drawdown(&line_id, &f.processor, &id(&f.env), &25_000);
    let cure_deadline = f.env.ledger().sequence() + 10;
    f.client.issue_default_notice(&line_id, &f.bank, &cure_deadline, &id(&f.env));

    f.env.ledger().set_sequence_number(cure_deadline + 5);

    f.client.cure_default(&line_id, &f.cardholder, &id(&f.env));
    assert_eq!(f.client.get_line(&line_id).status, LineStatus::Active);
    assert_eq!(f.client.get_pledge(&pledge_id).status, PledgeStatus::Active);
}

fn revalue_at(f: &Fixture, line_id: &BytesN32, price_whole: i128) {
    let price_e7 = price_whole * 10_000_000;
    let now = f.env.ledger().timestamp();
    f.client.revalue_and_check(
        line_id,
        &f.valuation,
        &price_e7,
        &(price_e7 / 1000),
        &now,
        &86_400u64,
        &50u32,
        &9000u32,
        &id(&f.env),
    );
}

#[test]
fn margin_covered_warning_called_across_falling_price() {
    let f = setup();
    let (_p, _pl, line_id) = happy_to_open(&f);
    f.client.record_drawdown(&line_id, &f.processor, &id(&f.env), &700_000);

    revalue_at(&f, &line_id, 2_990);
    assert_eq!(f.client.get_valuation(&line_id).margin_state, MarginState::Covered);
    assert_eq!(f.client.get_line(&line_id).status, LineStatus::Active);

    revalue_at(&f, &line_id, 2_360);
    assert_eq!(f.client.get_valuation(&line_id).margin_state, MarginState::Warning);

    revalue_at(&f, &line_id, 2_300);
    assert_eq!(f.client.get_valuation(&line_id).margin_state, MarginState::Called);
    assert_eq!(f.client.get_line(&line_id).status, LineStatus::Suspended);
}

#[test]
fn revaluation_does_not_clear_bank_suspension() {
    let f = setup();
    let (_p, _pl, line_id) = happy_to_open(&f);
    f.client.record_drawdown(&line_id, &f.processor, &id(&f.env), &700_000);

    f.client.bank_suspend_line(&line_id, &f.bank, &id(&f.env));
    assert_eq!(f.client.get_line(&line_id).status, LineStatus::Suspended);
    assert_eq!(f.client.get_line(&line_id).manual_bank_suspension, true);

    revalue_at(&f, &line_id, 2_990);
    assert_eq!(f.client.get_valuation(&line_id).margin_state, MarginState::Covered);
    assert_eq!(f.client.get_line(&line_id).status, LineStatus::Suspended);
    assert_eq!(f.client.get_line(&line_id).manual_bank_suspension, true);
}

#[test]
fn open_credit_line_rejects_cardholder_that_is_not_the_pledgor() {
    let f = setup();
    let position_id = register_and_immobilize(&f);
    let pledge_id = id(&f.env);
    f.client.activate_pledge(&pledge_id, &position_id, &f.owner, &f.bank, &id(&f.env));

    let stranger = Address::generate(&f.env);
    let res = f.client.try_open_credit_line(
        &id(&f.env),
        &pledge_id,
        &f.bank,
        &stranger,
        &100_000i128,
        &6000u32,
        &7500u32,
        &29_900_000_000i128,
    );
    assert_eq!(res, Err(Ok(Error::NotAuthorized)));
}

#[test]
fn bank_suspend_and_resume_round_trip() {
    let f = setup();
    let (_p, _pl, line_id) = happy_to_open(&f);

    f.client.bank_suspend_line(&line_id, &f.bank, &id(&f.env));
    assert_eq!(f.client.get_line(&line_id).status, LineStatus::Suspended);
    assert_eq!(f.client.get_line(&line_id).available_limit, 0);

    f.client.bank_resume_line(&line_id, &f.bank, &id(&f.env));
    assert_eq!(f.client.get_line(&line_id).status, LineStatus::Active);
    assert_eq!(f.client.get_line(&line_id).manual_bank_suspension, false);
    assert!(
        f.client.get_line(&line_id).available_limit > 0,
        "resume must restore spendable capacity, not leave the line active-but-unusable"
    );
}

#[test]
fn refuses_resume_of_non_suspended_line() {
    let f = setup();
    let (_p, _pl, line_id) = happy_to_open(&f);
    let res = f.client.try_bank_resume_line(&line_id, &f.bank, &id(&f.env));
    assert_eq!(res, Err(Ok(Error::LineNotSuspended)));
}

#[test]
fn called_line_blocks_draws_until_recovered() {
    let f = setup();
    let (_p, _pl, line_id) = happy_to_open(&f);
    f.client.record_drawdown(&line_id, &f.processor, &id(&f.env), &700_000);

    revalue_at(&f, &line_id, 2_300);
    assert_eq!(f.client.get_line(&line_id).status, LineStatus::Suspended);

    let res = f.client.try_record_drawdown(&line_id, &f.processor, &id(&f.env), &1_000);
    assert_eq!(res, Err(Ok(Error::LineNotActive)));

    revalue_at(&f, &line_id, 2_990);
    assert_eq!(f.client.get_valuation(&line_id).margin_state, MarginState::Covered);
    assert_eq!(f.client.get_line(&line_id).status, LineStatus::Active);
}

#[test]
fn refuses_pledge_of_free_not_earmarked_position() {
    let f = setup();
    let framework_id = register_framework(&f);
    let position_id = id(&f.env);
    let expiry = f.env.ledger().sequence() + 100_000;
    f.client.register_position(
        &position_id, &framework_id, &f.owner, &f.custodian, &id(&f.env), &id(&f.env), &4_011_000_000, &expiry,
    );
    let res = f.client.try_activate_pledge(
        &id(&f.env), &position_id, &f.owner, &f.bank, &id(&f.env),
    );
    assert_eq!(res, Err(Ok(Error::PositionNotEarmarked)));
}

#[test]
fn refuses_duplicate_payment_ref() {
    let f = setup();
    let (_p, _pl, line_id) = happy_to_open(&f);
    f.client.record_drawdown(&line_id, &f.processor, &id(&f.env), &25_000);
    let pay = id(&f.env);
    f.client.apply_repayment(&line_id, &f.vault, &pay, &10_000);
    let res = f.client.try_apply_repayment(&line_id, &f.vault, &pay, &10_000);
    assert_eq!(res, Err(Ok(Error::DuplicatePaymentRef)));
}

#[test]
fn repayment_does_not_release_collateral() {
    let f = setup();
    let (position_id, pledge_id, line_id) = happy_to_open(&f);
    f.client.record_drawdown(&line_id, &f.processor, &id(&f.env), &25_000);
    f.client.apply_repayment(&line_id, &f.vault, &id(&f.env), &25_000);
    assert_eq!(f.client.get_line(&line_id).drawn_balance, 0);
    assert_eq!(f.client.get_position(&position_id).status, PositionStatus::Pledged);
    assert_eq!(f.client.get_pledge(&pledge_id).status, PledgeStatus::Active);
    assert_eq!(f.client.get_line(&line_id).status, LineStatus::Active);
}

#[test]
fn owner_requests_collateral_adjustment() {
    let f = setup();
    let (_pos, _pledge, line_id) = happy_to_open(&f);
    let adj_id = id(&f.env);
    let new_barlist = id(&f.env);
    let new_serials = id(&f.env);
    let request_hash = id(&f.env);
    f.client.request_collateral_adjustment(
        &adj_id,
        &line_id,
        &f.owner,
        &AdjustmentType::TopUp,
        &new_barlist,
        &new_serials,
        &5_000_000_000i128,
        &request_hash,
    );
    let adj = f.client.get_adjustment(&adj_id);
    assert_eq!(adj.status, AdjustmentStatus::Requested);
    assert_eq!(adj.adjustment_type, AdjustmentType::TopUp);
    assert_eq!(adj.new_barlist_hash, new_barlist);
    assert_eq!(adj.new_weight_oz_e7, 5_000_000_000i128);
}

#[test]
fn refuses_adjustment_request_by_non_owner() {
    let f = setup();
    let (_pos, _pledge, line_id) = happy_to_open(&f);
    let stranger = Address::generate(&f.env);
    let res = f.client.try_request_collateral_adjustment(
        &id(&f.env),
        &line_id,
        &stranger,
        &AdjustmentType::Substitution,
        &id(&f.env),
        &id(&f.env),
        &4_011_000_000i128,
        &id(&f.env),
    );
    assert_eq!(res, Err(Ok(Error::NotAuthorized)));
}

#[test]
fn full_adjustment_topup_clears_three_party() {
    let f = setup();
    let (position_id, _pledge, line_id) = happy_to_open(&f);
    f.client.record_drawdown(&line_id, &f.processor, &id(&f.env), &700_000);

    let adj_id = id(&f.env);
    let new_barlist = id(&f.env);
    let new_weight: i128 = 5_000_000_000;
    f.client.request_collateral_adjustment(
        &adj_id, &line_id, &f.owner, &AdjustmentType::TopUp,
        &new_barlist, &id(&f.env), &new_weight, &id(&f.env),
    );
    f.client.custodian_confirm_adjustment(&adj_id, &f.custodian, &id(&f.env));
    assert_eq!(f.client.get_adjustment(&adj_id).status, AdjustmentStatus::CustodianConfirmed);
    f.client.bank_approve_adjustment(&adj_id, &f.bank, &29_900_000_000i128);
    assert_eq!(f.client.get_adjustment(&adj_id).status, AdjustmentStatus::Approved);
    let pos = f.client.get_position(&position_id);
    assert_eq!(pos.fine_weight_oz_e7, new_weight);
    assert_eq!(pos.barlist_hash, new_barlist);
}

#[test]
fn refuses_undercovered_partial_release() {
    let f = setup();
    let (_pos, _pledge, line_id) = happy_to_open(&f);
    f.client.record_drawdown(&line_id, &f.processor, &id(&f.env), &700_000);

    let adj_id = id(&f.env);
    f.client.request_collateral_adjustment(
        &adj_id, &line_id, &f.owner, &AdjustmentType::PartialRelease,
        &id(&f.env), &id(&f.env), &500_000_000i128 /* 50 oz */, &id(&f.env),
    );
    f.client.custodian_confirm_adjustment(&adj_id, &f.custodian, &id(&f.env));
    let res = f.client.try_bank_approve_adjustment(&adj_id, &f.bank, &29_900_000_000i128);
    assert_eq!(res, Err(Ok(Error::AdjustmentUndercovered)));
}

#[test]
fn refuses_approve_adjustment_before_custodian() {
    let f = setup();
    let (_pos, _pledge, line_id) = happy_to_open(&f);
    let adj_id = id(&f.env);
    f.client.request_collateral_adjustment(
        &adj_id, &line_id, &f.owner, &AdjustmentType::TopUp,
        &id(&f.env), &id(&f.env), &5_000_000_000i128, &id(&f.env),
    );
    let res = f.client.try_bank_approve_adjustment(&adj_id, &f.bank, &29_900_000_000i128);
    assert_eq!(res, Err(Ok(Error::AdjustmentWrongStatus)));
}

#[test]
fn refuses_double_pledge_of_same_bars() {
    let f = setup();
    let framework_id = register_framework(&f);
    let serials = id(&f.env);
    let pos1 = id(&f.env);
    let expiry = f.env.ledger().sequence() + 100_000;
    f.client.register_position(
        &pos1, &framework_id, &f.owner, &f.custodian, &id(&f.env), &serials, &4_011_000_000i128, &expiry,
    );
    let pos2 = id(&f.env);
    let res = f.client.try_register_position(
        &pos2, &framework_id, &f.owner, &f.custodian, &id(&f.env), &serials, &4_011_000_000i128, &expiry,
    );
    assert_eq!(res, Err(Ok(Error::BarSetAlreadyActive)));
}

#[test]
fn bars_reusable_after_release() {
    let f = setup();
    let framework_id = register_framework(&f);
    let serials = id(&f.env);
    let pos1 = id(&f.env);
    let pledge1 = id(&f.env);
    let line1 = id(&f.env);
    let expiry = f.env.ledger().sequence() + 100_000;
    f.client.register_position(
        &pos1, &framework_id, &f.owner, &f.custodian, &id(&f.env), &serials, &4_011_000_000i128, &expiry,
    );
    f.client.select_bars_for_collateral(&pos1, &f.owner, &id(&f.env));
    f.client.confirm_and_immobilize(&pos1, &f.custodian, &id(&f.env));
    f.client.activate_pledge(&pledge1, &pos1, &f.owner, &f.bank, &id(&f.env));
    f.client.open_credit_line(
        &line1, &pledge1, &f.bank, &f.cardholder, &719_000i128, &6000u32, &7500u32, &29_900_000_000i128,
    );
    f.client.bank_authorize_release(&line1, &f.bank, &id(&f.env));
    f.client.custodian_confirm_release(&pledge1, &f.custodian, &id(&f.env));
    assert_eq!(f.client.get_position(&pos1).status, PositionStatus::Released);

    let pos2 = id(&f.env);
    f.client.register_position(
        &pos2, &framework_id, &f.owner, &f.custodian, &id(&f.env), &serials, &4_011_000_000i128, &expiry,
    );
    assert_eq!(f.client.get_position(&pos2).status, PositionStatus::Free);
}

#[test]
fn refuses_immobilize_of_unselected_position() {
    let f = setup();
    let framework_id = register_framework(&f);
    let position_id = id(&f.env);
    let expiry = f.env.ledger().sequence() + 100_000;
    f.client.register_position(
        &position_id, &framework_id, &f.owner, &f.custodian, &id(&f.env), &id(&f.env), &4_011_000_000, &expiry,
    );
    let res = f.client.try_confirm_and_immobilize(&position_id, &f.custodian, &id(&f.env));
    assert_eq!(res, Err(Ok(Error::PositionNotSelected)));
}

#[test]
fn refuses_immobilize_by_wrong_custodian() {
    let f = setup();
    let rogue = Address::generate(&f.env);
    f.client.approve_party(&rogue, &Role::Custodian);
    let framework_id = register_framework(&f);
    let position_id = id(&f.env);
    let expiry = f.env.ledger().sequence() + 100_000;
    f.client.register_position(
        &position_id, &framework_id, &f.owner, &f.custodian, &id(&f.env), &id(&f.env), &4_011_000_000, &expiry,
    );
    f.client.select_bars_for_collateral(&position_id, &f.owner, &id(&f.env));
    let res = f.client.try_confirm_and_immobilize(&position_id, &rogue, &id(&f.env));
    assert_eq!(res, Err(Ok(Error::NotAuthorized)));
}

#[test]
fn refuses_draw_above_limit() {
    let f = setup();
    let (_p, _pl, line_id) = happy_to_open(&f);
    let res = f.client.try_record_drawdown(&line_id, &f.processor, &id(&f.env), &800_000);
    assert_eq!(res, Err(Ok(Error::InsufficientCapacity)));
}

#[test]
fn refuses_duplicate_auth_ref() {
    let f = setup();
    let (_p, _pl, line_id) = happy_to_open(&f);
    let auth = id(&f.env);
    f.client.record_drawdown(&line_id, &f.processor, &auth, &10_000);
    let res = f.client.try_record_drawdown(&line_id, &f.processor, &auth, &10_000);
    assert_eq!(res, Err(Ok(Error::DuplicateAuthRef)));
}

#[test]
fn reverse_drawdown_unwinds_exact_amount() {
    let f = setup();
    let (_p, _pl, line_id) = happy_to_open(&f);
    let auth = id(&f.env);
    f.client.record_drawdown(&line_id, &f.processor, &auth, &10_000);
    let before = f.client.available_capacity(&line_id);
    f.client.reverse_drawdown(&line_id, &f.processor, &auth, &10_000);
    let after = f.client.available_capacity(&line_id);
    assert_eq!(after, before + 10_000);
    let line = f.client.get_line(&line_id);
    assert_eq!(line.drawn_balance, 0);
    let rec = f.client.get_drawdown(&auth);
    assert_eq!(rec.amount, 10_000);
    assert!(rec.reversed);
}

#[test]
fn refuses_reverse_with_wrong_amount() {
    let f = setup();
    let (_p, _pl, line_id) = happy_to_open(&f);
    let auth = id(&f.env);
    f.client.record_drawdown(&line_id, &f.processor, &auth, &10_000);
    let over = f.client.try_reverse_drawdown(&line_id, &f.processor, &auth, &25_000);
    assert_eq!(over, Err(Ok(Error::ReversalAmountMismatch)));
    let under = f.client.try_reverse_drawdown(&line_id, &f.processor, &auth, &5_000);
    assert_eq!(under, Err(Ok(Error::ReversalAmountMismatch)));
    let line = f.client.get_line(&line_id);
    assert_eq!(line.drawn_balance, 10_000);
}

#[test]
fn refuses_reverse_unknown_auth_ref() {
    let f = setup();
    let (_p, _pl, line_id) = happy_to_open(&f);
    let res = f.client.try_reverse_drawdown(&line_id, &f.processor, &id(&f.env), &10_000);
    assert_eq!(res, Err(Ok(Error::NothingToReverse)));
}

#[test]
fn refuses_double_reverse() {
    let f = setup();
    let (_p, _pl, line_id) = happy_to_open(&f);
    let auth = id(&f.env);
    f.client.record_drawdown(&line_id, &f.processor, &auth, &10_000);
    f.client.reverse_drawdown(&line_id, &f.processor, &auth, &10_000);
    let res = f.client.try_reverse_drawdown(&line_id, &f.processor, &auth, &10_000);
    assert_eq!(res, Err(Ok(Error::NothingToReverse)));
}

#[test]
fn refuses_redraw_on_reversed_auth_ref() {
    let f = setup();
    let (_p, _pl, line_id) = happy_to_open(&f);
    let auth = id(&f.env);
    f.client.record_drawdown(&line_id, &f.processor, &auth, &10_000);
    f.client.reverse_drawdown(&line_id, &f.processor, &auth, &10_000);
    let res = f.client.try_record_drawdown(&line_id, &f.processor, &auth, &10_000);
    assert_eq!(res, Err(Ok(Error::DuplicateAuthRef)));
}

#[test]
fn refuses_reverse_on_wrong_line() {
    let f = setup();
    let (_p, _pl, line_id) = happy_to_open(&f);
    let auth = id(&f.env);
    f.client.record_drawdown(&line_id, &f.processor, &auth, &10_000);
    let res = f.client.try_reverse_drawdown(&id(&f.env), &f.processor, &auth, &10_000);
    assert_eq!(res, Err(Ok(Error::LineNotFound)));
}

#[test]
fn refuses_release_with_outstanding_balance() {
    let f = setup();
    let (_p, _pl, line_id) = happy_to_open(&f);
    f.client.record_drawdown(&line_id, &f.processor, &id(&f.env), &10_000);
    let res = f.client.try_bank_authorize_release(&line_id, &f.bank, &id(&f.env));
    assert_eq!(res, Err(Ok(Error::OutstandingBalance)));
}

#[test]
fn refuses_confirm_release_before_bank_authorizes() {
    let f = setup();
    let (_pos, pledge_id, _line_id) = happy_to_open(&f);
    let res = f.client.try_custodian_confirm_release(&pledge_id, &f.custodian, &id(&f.env));
    assert_eq!(res, Err(Ok(Error::PledgeNotActive)));
}

#[test]
fn refuses_authorize_release_by_wrong_bank() {
    let f = setup();
    let other_bank = Address::generate(&f.env);
    f.client.approve_party(&other_bank, &Role::Bank);
    let (_p, _pl, line_id) = happy_to_open(&f);
    let res = f.client.try_bank_authorize_release(&line_id, &other_bank, &id(&f.env));
    assert_eq!(res, Err(Ok(Error::NotAuthorized)));
}

#[test]
fn refuses_limit_above_borrowing_base() {
    let f = setup();
    let position_id = register_and_immobilize(&f);
    let pledge_id = id(&f.env);
    let line_id = id(&f.env);
    f.client.activate_pledge(&pledge_id, &position_id, &f.owner, &f.bank, &id(&f.env));
    let res = f.client.try_open_credit_line(
        &line_id, &pledge_id, &f.bank, &f.cardholder, &1_000_000, &6000u32, &7500u32, &29_900_000_000,
    );
    assert_eq!(res, Err(Ok(Error::LimitExceedsBorrowingBase)));
}

#[test]
fn refuses_invalid_risk_params() {
    let f = setup();
    let position_id = register_and_immobilize(&f);
    let pledge_id = id(&f.env);
    f.client.activate_pledge(&pledge_id, &position_id, &f.owner, &f.bank, &id(&f.env));

    let res = f.client.try_open_credit_line(
        &id(&f.env), &pledge_id, &f.bank, &f.cardholder, &100_000, &7500u32, &7000u32, &29_900_000_000,
    );
    assert_eq!(res, Err(Ok(Error::InvalidRiskParams)));

    let res2 = f.client.try_open_credit_line(
        &id(&f.env), &pledge_id, &f.bank, &f.cardholder, &100_000, &6000u32, &10_001u32, &29_900_000_000,
    );
    assert_eq!(res2, Err(Ok(Error::InvalidRiskParams)));
}

#[test]
fn refuses_stale_price_on_revaluation() {
    let f = setup();
    let (_p, _pl, line_id) = happy_to_open(&f);
    f.env.ledger().set_timestamp(1_000_000);
    let price_e7: i128 = 29_900_000_000;
    let res = f.client.try_revalue_and_check(
        &line_id,
        &f.valuation,
        &price_e7,
        &(price_e7 / 1000),
        &0u64,
        &3600u64,
        &50u32,
        &9000u32,
        &id(&f.env),
    );
    assert_eq!(res, Err(Ok(Error::PriceStale)));
}

#[test]
fn refuses_wide_confidence_on_revaluation() {
    let f = setup();
    let (_p, _pl, line_id) = happy_to_open(&f);
    let now = f.env.ledger().timestamp();
    let price_e7: i128 = 29_900_000_000;
    let res = f.client.try_revalue_and_check(
        &line_id,
        &f.valuation,
        &price_e7,
        &(price_e7 / 10),
        &now,
        &86_400u64,
        &50u32,
        &9000u32,
        &id(&f.env),
    );
    assert_eq!(res, Err(Ok(Error::PriceConfidenceTooWide)));
}

#[test]
fn refuses_enforce_before_cure_expiry() {
    let f = setup();
    let (_p, _pl, line_id) = happy_to_open(&f);
    f.client.record_drawdown(&line_id, &f.processor, &id(&f.env), &25_000);
    let cure_deadline = f.env.ledger().sequence() + 1_000;
    f.client.issue_default_notice(&line_id, &f.bank, &cure_deadline, &id(&f.env));
    let res = f.client.try_record_enforcement(
        &line_id, &f.bank, &EnforcementOutcome::Sold, &id(&f.env),
    );
    assert_eq!(res, Err(Ok(Error::CurePeriodNotExpired)));
}

#[test]
fn refuses_pledge_of_already_pledged_position() {
    let f = setup();
    let (position_id, _pl, _line) = happy_to_open(&f);
    let res = f.client.try_activate_pledge(
        &id(&f.env), &position_id, &f.owner, &f.bank, &id(&f.env),
    );
    assert_eq!(res, Err(Ok(Error::PositionNotEarmarked)));
}

#[test]
fn refuses_pledge_to_bank_outside_framework() {
    let f = setup();
    let other_bank = Address::generate(&f.env);
    f.client.approve_party(&other_bank, &Role::Bank);
    let position_id = register_and_immobilize(&f);
    let res = f.client.try_activate_pledge(
        &id(&f.env), &position_id, &f.owner, &other_bank, &id(&f.env),
    );
    assert_eq!(res, Err(Ok(Error::FrameworkPartyMismatch)));
}

#[test]
fn refuses_unapproved_bank() {
    let f = setup();
    let rogue_bank = Address::generate(&f.env);
    let position_id = register_and_immobilize(&f);
    let res = f.client.try_activate_pledge(
        &id(&f.env), &position_id, &f.owner, &rogue_bank, &id(&f.env),
    );
    assert_eq!(res, Err(Ok(Error::PartyNotApproved)));
}

#[test]
fn refuses_stale_attestation_on_register() {
    let f = setup();
    let framework_id = register_framework(&f);
    let position_id = id(&f.env);
    f.env.ledger().set_sequence_number(50);
    let res = f.client.try_register_position(
        &position_id, &framework_id, &f.owner, &f.custodian, &id(&f.env), &id(&f.env), &4_011_000_000, &10u32,
    );
    assert_eq!(res, Err(Ok(Error::AttestationStale)));
}

#[test]
fn readiness_opens_incomplete() {
    let f = setup();
    let (_p, _pledge_id, line_id) = happy_to_open(&f);

    f.client.open_enforcement_readiness(&line_id, &f.bank, &id(&f.env));
    let r = f.client.get_enforcement_readiness(&line_id);
    assert_eq!(r.status, ReadinessStatus::Incomplete);
    assert_eq!(r.version, 0);
}

#[test]
fn readiness_with_placeholders_stays_incomplete() {
    let f = setup();
    let (_p, _pledge_id, line_id) = happy_to_open(&f);
    f.client.open_enforcement_readiness(&line_id, &f.bank, &id(&f.env));

    let zero = from_array(&f.env, &[0u8; 32]);
    f.client.populate_enforcement_readiness(
        &line_id,
        &f.bank,
        &f.bank,
        &zero,
        &f.bank,
        &id(&f.env),
        &id(&f.env),
        &0u32,
    );
    let r = f.client.get_enforcement_readiness(&line_id);
    assert_eq!(r.status, ReadinessStatus::Incomplete);
    assert_eq!(r.version, 1);
}

#[test]
fn readiness_with_real_fields_reaches_ready() {
    let f = setup();
    let (_p, _pledge_id, line_id) = happy_to_open(&f);
    f.client.open_enforcement_readiness(&line_id, &f.bank, &id(&f.env));

    let agent = Address::generate(&f.env);
    let settlement = Address::generate(&f.env);
    f.client.populate_enforcement_readiness(
        &line_id,
        &f.bank,
        &agent,
        &id(&f.env),
        &settlement,
        &id(&f.env),
        &id(&f.env),
        &(f.env.ledger().sequence() + 1000),
    );
    let r = f.client.get_enforcement_readiness(&line_id);
    assert_eq!(r.status, ReadinessStatus::Ready);
    assert_eq!(r.liquidation_agent, agent);
}

#[test]
fn readiness_can_expire() {
    let f = setup();
    let (_p, _pledge_id, line_id) = happy_to_open(&f);
    f.client.open_enforcement_readiness(&line_id, &f.bank, &id(&f.env));
    let agent = Address::generate(&f.env);
    let settlement = Address::generate(&f.env);
    f.client.populate_enforcement_readiness(
        &line_id, &f.bank, &agent, &id(&f.env), &settlement, &id(&f.env), &id(&f.env),
        &(f.env.ledger().sequence() + 1000),
    );
    assert_eq!(f.client.get_enforcement_readiness(&line_id).status, ReadinessStatus::Ready);

    f.client.expire_enforcement_readiness(&line_id, &f.bank, &id(&f.env));
    assert_eq!(f.client.get_enforcement_readiness(&line_id).status, ReadinessStatus::Expired);
}

#[test]
fn revoke_party_removes_approval() {
    let f = setup();
    assert!(f.client.is_approved(&f.bank, &Role::Bank));
    f.client.revoke_party(&f.bank, &Role::Bank);
    assert!(!f.client.is_approved(&f.bank, &Role::Bank));
}

#[test]
fn revoked_bank_cannot_open_line() {
    let f = setup();
    let position_id = register_and_immobilize(&f);
    let pledge_id = id(&f.env);
    let line_id = id(&f.env);
    f.client.activate_pledge(&pledge_id, &position_id, &f.owner, &f.bank, &id(&f.env));

    f.client.revoke_party(&f.bank, &Role::Bank);

    let price_per_oz_e7: i128 = 29_900_000_000;
    let res = f.client.try_open_credit_line(
        &line_id, &pledge_id, &f.bank, &f.cardholder, &719_000, &6000u32, &7500u32, &price_per_oz_e7,
    );
    assert_eq!(res, Err(Ok(Error::PartyNotApproved)),
        "a revoked bank must not be able to open a line");
}

#[test]
fn revoked_processor_cannot_draw() {
    let f = setup();
    let (_p, _pl, line_id) = happy_to_open(&f);
    f.client.revoke_party(&f.processor, &Role::Processor);
    let res = f.client.try_record_drawdown(&line_id, &f.processor, &id(&f.env), &10_000);
    assert_eq!(res, Err(Ok(Error::PartyNotApproved)));
}

#[test]
fn revoked_bank_cannot_issue_default() {
    let f = setup();
    let (_p, _pl, line_id) = happy_to_open(&f);
    f.client.record_drawdown(&line_id, &f.processor, &id(&f.env), &25_000);
    f.client.revoke_party(&f.bank, &Role::Bank);
    let deadline = f.env.ledger().sequence() + 100;
    let res = f.client.try_issue_default_notice(&line_id, &f.bank, &deadline, &id(&f.env));
    assert_eq!(res, Err(Ok(Error::PartyNotApproved)));
}

#[test]
fn revoked_bank_cannot_enforce() {
    let f = setup();
    let (_position_id, _pledge_id, line_id) = happy_to_open(&f);
    f.client.record_drawdown(&line_id, &f.processor, &id(&f.env), &25_000);
    let cure_deadline = f.env.ledger().sequence() + 10;
    f.client.issue_default_notice(&line_id, &f.bank, &cure_deadline, &id(&f.env));
    f.env.ledger().set_sequence_number(cure_deadline + 1);

    f.client.revoke_party(&f.bank, &Role::Bank);
    let res = f.client.try_record_enforcement(
        &line_id, &f.bank, &EnforcementOutcome::Sold, &id(&f.env),
    );
    assert_eq!(res, Err(Ok(Error::PartyNotApproved)));
}

#[test]
fn revoked_bank_cannot_authorize_release() {
    let f = setup();
    let (_p, _pl, line_id) = happy_to_open(&f);
    f.client.revoke_party(&f.bank, &Role::Bank);
    let res = f.client.try_bank_authorize_release(&line_id, &f.bank, &id(&f.env));
    assert_eq!(res, Err(Ok(Error::PartyNotApproved)));
}

#[test]
fn revoked_custodian_cannot_confirm_release() {
    let f = setup();
    let (_position_id, pledge_id, line_id) = happy_to_open(&f);
    f.client.bank_authorize_release(&line_id, &f.bank, &id(&f.env));

    f.client.revoke_party(&f.custodian, &Role::Custodian);
    let res = f.client.try_custodian_confirm_release(&pledge_id, &f.custodian, &id(&f.env));
    assert_eq!(res, Err(Ok(Error::PartyNotApproved)));
}

#[test]
fn reapproval_after_revoke_restores_power() {
    let f = setup();
    f.client.revoke_party(&f.processor, &Role::Processor);
    assert!(!f.client.is_approved(&f.processor, &Role::Processor));
    f.client.approve_party(&f.processor, &Role::Processor);
    assert!(f.client.is_approved(&f.processor, &Role::Processor));
}

#[test]
fn draw_exactly_available_limit_succeeds_then_one_more_fails() {
    let f = setup();
    let (_p, _pl, line_id) = happy_to_open(&f);
    let limit = f.client.available_capacity(&line_id);
    f.client.record_drawdown(&line_id, &f.processor, &id(&f.env), &limit);
    assert_eq!(f.client.available_capacity(&line_id), 0);
    let res = f.client.try_record_drawdown(&line_id, &f.processor, &id(&f.env), &1);
    assert_eq!(res, Err(Ok(Error::InsufficientCapacity)));
}

#[test]
fn open_line_with_overflow_price_is_refused_not_wrapped() {
    let f = setup();
    let position_id = register_and_immobilize(&f);
    let pledge_id = id(&f.env);
    let line_id = id(&f.env);
    f.client.activate_pledge(&pledge_id, &position_id, &f.owner, &f.bank, &id(&f.env));

    let price_per_oz_e7: i128 = 29_900_000_000;
    let res = f.client.try_open_credit_line(
        &line_id, &pledge_id, &f.bank, &f.cardholder,
        &i128::MAX, &6000u32, &7500u32, &price_per_oz_e7,
    );
    assert!(res.is_err(), "an absurd approved_limit must be refused, never accepted");
}

#[test]
fn negative_amounts_are_refused_everywhere() {
    let f = setup();
    let (_p, _pl, line_id) = happy_to_open(&f);
    assert_eq!(
        f.client.try_record_drawdown(&line_id, &f.processor, &id(&f.env), &0),
        Err(Ok(Error::AmountNotPositive))
    );
    assert_eq!(
        f.client.try_record_drawdown(&line_id, &f.processor, &id(&f.env), &(-1)),
        Err(Ok(Error::AmountNotPositive))
    );
}

#[test]
fn cannot_draw_on_unopened_line() {
    let f = setup();
    let _ = register_and_immobilize(&f);
    let res = f.client.try_record_drawdown(&id(&f.env), &f.processor, &id(&f.env), &1_000);
    assert!(res.is_err(), "drawing on a non-existent line must fail");
}

#[test]
fn cannot_enforce_without_default() {
    let f = setup();
    let (_p, _pl, line_id) = happy_to_open(&f);
    let res = f.client.try_record_enforcement(
        &line_id, &f.bank, &EnforcementOutcome::Sold, &id(&f.env),
    );
    assert_eq!(res, Err(Ok(Error::NotDefaulted)));
}

#[test]
fn cannot_resume_a_line_never_suspended() {
    let f = setup();
    let (_p, _pl, line_id) = happy_to_open(&f);
    let res = f.client.try_bank_resume_line(&line_id, &f.bank, &id(&f.env));
    assert_eq!(res, Err(Ok(Error::LineNotSuspended)));
}

#[test]
fn cannot_cure_a_line_not_in_default() {
    let f = setup();
    let (_p, _pl, line_id) = happy_to_open(&f);
    let res = f.client.try_cure_default(&line_id, &f.cardholder, &id(&f.env));
    assert_eq!(res, Err(Ok(Error::NotDefaulted)));
}

#[test]
fn enforcement_cannot_be_recorded_twice() {
    let f = setup();
    let (_position_id, _pledge_id, line_id) = happy_to_open(&f);
    f.client.record_drawdown(&line_id, &f.processor, &id(&f.env), &25_000);
    let cure_deadline = f.env.ledger().sequence() + 10;
    f.client.issue_default_notice(&line_id, &f.bank, &cure_deadline, &id(&f.env));
    f.env.ledger().set_sequence_number(cure_deadline + 1);
    f.client.record_enforcement(&line_id, &f.bank, &EnforcementOutcome::Sold, &id(&f.env));

    let second = f.client.try_record_enforcement(
        &line_id, &f.bank, &EnforcementOutcome::Sold, &id(&f.env),
    );
    assert!(second.is_err(), "enforcement must not be repeatable on a closed line");
}

fn zero_hash(env: &Env) -> BytesN32 {
    from_array(env, &[0u8; 32])
}

#[test]
fn refuses_second_credit_line_against_same_pledge() {
    let f = setup();
    let (_position_id, pledge_id, _line_id) = happy_to_open(&f);
    let second_line_id = id(&f.env);
    let price_per_oz_e7: i128 = 29_900_000_000;

    let res = f.client.try_open_credit_line(
        &second_line_id,
        &pledge_id,
        &f.bank,
        &f.cardholder,
        &100_000i128,
        &6000u32,
        &7500u32,
        &price_per_oz_e7,
    );
    assert_eq!(res, Err(Ok(Error::PledgeAlreadyHasLine)));
}

#[test]
fn refuses_duplicate_credit_line_id() {
    let f = setup();
    let (_position_id, pledge_id, line_id) = happy_to_open(&f);
    let price_per_oz_e7: i128 = 29_900_000_000;

    let res = f.client.try_open_credit_line(
        &line_id,
        &pledge_id,
        &f.bank,
        &f.cardholder,
        &100_000i128,
        &6000u32,
        &7500u32,
        &price_per_oz_e7,
    );
    assert_eq!(res, Err(Ok(Error::LineExists)));
}

#[test]
fn refuses_repayment_above_drawn_balance() {
    let f = setup();
    let (_position_id, _pledge_id, line_id) = happy_to_open(&f);
    f.client.record_drawdown(&line_id, &f.processor, &id(&f.env), &25_000i128);

    let res = f.client.try_apply_repayment(&line_id, &f.vault, &id(&f.env), &25_001i128);
    assert_eq!(res, Err(Ok(Error::RepaymentExceedsOutstandingBalance)));
    assert_eq!(f.client.get_line(&line_id).drawn_balance, 25_000);
}

#[test]
fn refuses_repayment_on_closed_line() {
    let f = setup();
    let (_position_id, _pledge_id, line_id) = happy_to_open(&f);
    f.client.bank_authorize_release(&line_id, &f.bank, &id(&f.env));

    let res = f.client.try_apply_repayment(&line_id, &f.vault, &id(&f.env), &1i128);
    assert_eq!(res, Err(Ok(Error::LineNotActive)));
}

#[test]
fn refuses_reverse_after_line_closed() {
    let f = setup();
    let (_position_id, _pledge_id, line_id) = happy_to_open(&f);
    let auth_ref = id(&f.env);
    f.client.record_drawdown(&line_id, &f.processor, &auth_ref, &25_000i128);
    f.client.apply_repayment(&line_id, &f.vault, &id(&f.env), &25_000i128);
    f.client.bank_authorize_release(&line_id, &f.bank, &id(&f.env));

    let res = f.client.try_reverse_drawdown(&line_id, &f.processor, &auth_ref, &25_000i128);
    assert_eq!(res, Err(Ok(Error::LineNotActive)));
}

#[test]
fn refuses_future_dated_price_on_revaluation() {
    let f = setup();
    let (_position_id, _pledge_id, line_id) = happy_to_open(&f);
    f.env.ledger().set_timestamp(1_000);
    let price_e7: i128 = 29_900_000_000;

    let res = f.client.try_revalue_and_check(
        &line_id,
        &f.valuation,
        &price_e7,
        &(price_e7 / 1000),
        &1_001u64,
        &86_400u64,
        &50u32,
        &9000u32,
        &id(&f.env),
    );
    assert_eq!(res, Err(Ok(Error::PriceFromFuture)));
}

#[test]
fn refuses_invalid_revaluation_thresholds() {
    let f = setup();
    let (_position_id, _pledge_id, line_id) = happy_to_open(&f);
    let now = f.env.ledger().timestamp();
    let price_e7: i128 = 29_900_000_000;

    let cases = [
        (0u64, 50u32, 9000u32),
        (86_400u64, 0u32, 9000u32),
        (86_400u64, 10_001u32, 9000u32),
        (86_400u64, 50u32, 0u32),
        (86_400u64, 50u32, 10_001u32),
    ];

    for (max_age_secs, conf_tol_bps, warning_bps) in cases {
        let res = f.client.try_revalue_and_check(
            &line_id,
            &f.valuation,
            &price_e7,
            &(price_e7 / 1000),
            &now,
            &max_age_secs,
            &conf_tol_bps,
            &warning_bps,
            &id(&f.env),
        );
        assert_eq!(res, Err(Ok(Error::InvalidRevaluationParams)));
    }
}

#[test]
fn refuses_zero_hash_in_framework_documents() {
    let f = setup();
    let framework_id = id(&f.env);
    let zero = zero_hash(&f.env);

    let res = f.client.try_register_framework(
        &framework_id,
        &f.owner,
        &f.bank,
        &f.custodian,
        &zero,
        &id(&f.env),
        &id(&f.env),
        &id(&f.env),
        &id(&f.env),
        &id(&f.env),
    );
    assert_eq!(res, Err(Ok(Error::InvalidDocumentHash)));
}

#[test]
fn refuses_zero_barlist_or_serials_hash() {
    let f = setup();
    let framework_id = register_framework(&f);
    let position_id = id(&f.env);
    let zero = zero_hash(&f.env);
    let expiry = f.env.ledger().sequence() + 100_000;

    let zero_barlist = f.client.try_register_position(
        &position_id,
        &framework_id,
        &f.owner,
        &f.custodian,
        &zero,
        &id(&f.env),
        &4_011_000_000i128,
        &expiry,
    );
    assert_eq!(zero_barlist, Err(Ok(Error::InvalidDocumentHash)));

    let zero_serials = f.client.try_register_position(
        &id(&f.env),
        &framework_id,
        &f.owner,
        &f.custodian,
        &id(&f.env),
        &zero,
        &4_011_000_000i128,
        &expiry,
    );
    assert_eq!(zero_serials, Err(Ok(Error::InvalidDocumentHash)));
}

#[test]
fn refuses_zero_release_notice_hash() {
    let f = setup();
    let (_position_id, pledge_id, line_id) = happy_to_open(&f);
    f.client.bank_authorize_release(&line_id, &f.bank, &id(&f.env));

    let res = f.client.try_custodian_confirm_release(&pledge_id, &f.custodian, &zero_hash(&f.env));
    assert_eq!(res, Err(Ok(Error::InvalidDocumentHash)));
}

#[test]
fn refuses_zero_enforcement_legal_instrument_hash() {
    let f = setup();
    let (_position_id, _pledge_id, line_id) = happy_to_open(&f);
    f.client.record_drawdown(&line_id, &f.processor, &id(&f.env), &25_000i128);
    let cure_deadline = f.env.ledger().sequence() + 10;
    f.client.issue_default_notice(&line_id, &f.bank, &cure_deadline, &id(&f.env));
    f.env.ledger().set_sequence_number(cure_deadline + 1);

    let res = f.client.try_record_enforcement(
        &line_id,
        &f.bank,
        &EnforcementOutcome::Sold,
        &zero_hash(&f.env),
    );
    assert_eq!(res, Err(Ok(Error::InvalidDocumentHash)));
}

#[test]
fn refuses_adjustment_with_zero_hashes() {
    let f = setup();
    let (_position_id, _pledge_id, line_id) = happy_to_open(&f);
    let zero = zero_hash(&f.env);

    let zero_barlist = f.client.try_request_collateral_adjustment(
        &id(&f.env),
        &line_id,
        &f.owner,
        &AdjustmentType::TopUp,
        &zero,
        &id(&f.env),
        &4_500_000_000i128,
        &id(&f.env),
    );
    assert_eq!(zero_barlist, Err(Ok(Error::InvalidDocumentHash)));

    let zero_request = f.client.try_request_collateral_adjustment(
        &id(&f.env),
        &line_id,
        &f.owner,
        &AdjustmentType::TopUp,
        &id(&f.env),
        &id(&f.env),
        &4_500_000_000i128,
        &zero,
    );
    assert_eq!(zero_request, Err(Ok(Error::InvalidDocumentHash)));
}

#[test]
fn expired_readiness_can_be_repopulated_to_ready() {
    let f = setup();
    let (_position_id, _pledge_id, line_id) = happy_to_open(&f);
    f.client.open_enforcement_readiness(&line_id, &f.bank, &id(&f.env));
    let agent = Address::generate(&f.env);
    let settlement = Address::generate(&f.env);

    f.client.populate_enforcement_readiness(
        &line_id,
        &f.bank,
        &agent,
        &id(&f.env),
        &settlement,
        &id(&f.env),
        &id(&f.env),
        &(f.env.ledger().sequence() + 1000),
    );
    f.client.expire_enforcement_readiness(&line_id, &f.bank, &id(&f.env));
    assert_eq!(f.client.get_enforcement_readiness(&line_id).status, ReadinessStatus::Expired);

    f.client.populate_enforcement_readiness(
        &line_id,
        &f.bank,
        &agent,
        &id(&f.env),
        &settlement,
        &id(&f.env),
        &id(&f.env),
        &(f.env.ledger().sequence() + 2000),
    );
    let readiness = f.client.get_enforcement_readiness(&line_id);
    assert_eq!(readiness.status, ReadinessStatus::Ready);
    assert_eq!(readiness.version, 2);
}

#[test]
fn readiness_real_fields_require_future_validity_window() {
    let f = setup();
    let (_position_id, _pledge_id, line_id) = happy_to_open(&f);
    f.client.open_enforcement_readiness(&line_id, &f.bank, &id(&f.env));
    let agent = Address::generate(&f.env);
    let settlement = Address::generate(&f.env);
    let current = f.env.ledger().sequence();

    let res = f.client.try_populate_enforcement_readiness(
        &line_id,
        &f.bank,
        &agent,
        &id(&f.env),
        &settlement,
        &id(&f.env),
        &id(&f.env),
        &current,
    );
    assert_eq!(res, Err(Ok(Error::ReadinessExpired)));
}

#[test]
fn refuses_duplicate_readiness_record() {
    let f = setup();
    let (_position_id, _pledge_id, line_id) = happy_to_open(&f);
    f.client.open_enforcement_readiness(&line_id, &f.bank, &id(&f.env));

    let res = f.client.try_open_enforcement_readiness(&line_id, &f.bank, &id(&f.env));
    assert_eq!(res, Err(Ok(Error::ReadinessWrongStatus)));
}

#[test]
fn refuses_double_enforcement_after_terminal_close() {
    let f = setup();
    let (_position_id, _pledge_id, line_id) = happy_to_open(&f);
    f.client.record_drawdown(&line_id, &f.processor, &id(&f.env), &25_000i128);
    let cure_deadline = f.env.ledger().sequence() + 10;
    f.client.issue_default_notice(&line_id, &f.bank, &cure_deadline, &id(&f.env));
    f.env.ledger().set_sequence_number(cure_deadline + 1);
    f.client.record_enforcement(&line_id, &f.bank, &EnforcementOutcome::Sold, &id(&f.env));

    let res = f.client.try_record_enforcement(
        &line_id,
        &f.bank,
        &EnforcementOutcome::Sold,
        &id(&f.env),
    );
    assert_eq!(res, Err(Ok(Error::NotDefaulted)));
}

#[test]
fn refuses_cure_after_enforcement() {
    let f = setup();
    let (_position_id, _pledge_id, line_id) = happy_to_open(&f);
    f.client.record_drawdown(&line_id, &f.processor, &id(&f.env), &25_000i128);
    let cure_deadline = f.env.ledger().sequence() + 10;
    f.client.issue_default_notice(&line_id, &f.bank, &cure_deadline, &id(&f.env));
    f.env.ledger().set_sequence_number(cure_deadline + 1);
    f.client.record_enforcement(&line_id, &f.bank, &EnforcementOutcome::Sold, &id(&f.env));

    let res = f.client.try_cure_default(&line_id, &f.cardholder, &id(&f.env));
    assert_eq!(res, Err(Ok(Error::NotDefaulted)));
}

#[test]
fn unapproved_processor_cannot_record_drawdown() {
    let f = setup();
    let (_position_id, _pledge_id, line_id) = happy_to_open(&f);
    let rogue_processor = Address::generate(&f.env);
    let auth_ref = id(&f.env);

    let res = f.client.try_record_drawdown(&line_id, &rogue_processor, &auth_ref, &10_000i128);
    assert_eq!(res, Err(Ok(Error::PartyNotApproved)));
}

#[test]
fn unapproved_vault_cannot_apply_repayment() {
    let f = setup();
    let (_position_id, _pledge_id, line_id) = happy_to_open(&f);
    f.client.record_drawdown(&line_id, &f.processor, &id(&f.env), &25_000i128);
    let rogue_vault = Address::generate(&f.env);
    let payment_ref = id(&f.env);

    let res = f.client.try_apply_repayment(&line_id, &rogue_vault, &payment_ref, &10_000i128);
    assert_eq!(res, Err(Ok(Error::PartyNotApproved)));
}

#[test]
fn rogue_valuer_cannot_revalue() {
    let f = setup();
    let (_position_id, _pledge_id, line_id) = happy_to_open(&f);
    let rogue_valuer = Address::generate(&f.env);
    let now = f.env.ledger().timestamp();
    let price_e7: i128 = 29_900_000_000;
    let val_ref = id(&f.env);

    let res = f.client.try_revalue_and_check(
        &line_id,
        &rogue_valuer,
        &price_e7,
        &(price_e7 / 1000),
        &now,
        &86_400u64,
        &50u32,
        &9000u32,
        &val_ref,
    );
    assert_eq!(res, Err(Ok(Error::NotAuthorized)));
}

#[test]
fn owner_cannot_open_line_as_bank() {
    let f = setup();
    let position_id = register_and_immobilize(&f);
    let pledge_id = id(&f.env);
    f.client.activate_pledge(&pledge_id, &position_id, &f.owner, &f.bank, &id(&f.env));
    let line_id = id(&f.env);
    let price_per_oz_e7: i128 = 29_900_000_000;

    let res = f.client.try_open_credit_line(
        &line_id,
        &pledge_id,
        &f.owner,
        &f.cardholder,
        &100_000i128,
        &6000u32,
        &7500u32,
        &price_per_oz_e7,
    );
    assert_eq!(res, Err(Ok(Error::PartyNotApproved)));
}

#[test]
fn release_lifecycle_emits_indexer_visible_events() {
    let f = setup();
    let (_position_id, _pledge_id, line_id) = happy_to_open(&f);
    f.client.record_drawdown(&line_id, &f.processor, &id(&f.env), &25_000);
    f.client.apply_repayment(&line_id, &f.vault, &id(&f.env), &25_000);
    f.client.bank_authorize_release(&line_id, &f.bank, &id(&f.env));
    let events = f.env.events().all();
    assert!(
        !events.is_empty(),
        "release authorization must publish an event for reconciliation"
    );
}

#[test]
fn default_enforcement_lifecycle_emits_indexer_visible_events() {
    let f = setup();
    let (_position_id, _pledge_id, line_id) = happy_to_open(&f);
    f.client.record_drawdown(&line_id, &f.processor, &id(&f.env), &25_000);
    let cure_deadline = f.env.ledger().sequence() + 10;
    f.client.issue_default_notice(&line_id, &f.bank, &cure_deadline, &id(&f.env));
    f.env.ledger().set_sequence_number(cure_deadline + 1);
    f.client.record_enforcement(&line_id, &f.bank, &EnforcementOutcome::Sold, &id(&f.env));
    let events = f.env.events().all();
    assert!(
        !events.is_empty(),
        "enforcement must publish an event for the evidence trail"
    );
}

fn assert_line_accounting_invariant(f: &Fixture, line_id: &BytesN32) {
    let line = f.client.get_line(line_id);
    assert!(line.drawn_balance >= 0);
    assert!(line.available_limit >= 0);
    assert!(line.drawn_balance + line.available_limit <= line.approved_limit);
}

#[test]
fn property_accounting_sequence_preserves_capacity_bounds() {
    let f = setup();
    let (_position_id, _pledge_id, line_id) = happy_to_open(&f);

    assert_line_accounting_invariant(&f, &line_id);

    let draw_a = id(&f.env);
    f.client.record_drawdown(&line_id, &f.processor, &draw_a, &100_000);
    assert_line_accounting_invariant(&f, &line_id);

    let draw_b = id(&f.env);
    f.client.record_drawdown(&line_id, &f.processor, &draw_b, &50_000);
    assert_line_accounting_invariant(&f, &line_id);

    f.client.reverse_drawdown(&line_id, &f.processor, &draw_b, &50_000);
    assert_line_accounting_invariant(&f, &line_id);

    f.client.apply_repayment(&line_id, &f.vault, &id(&f.env), &25_000);
    assert_line_accounting_invariant(&f, &line_id);

    f.client.revalue_and_check(
        &line_id,
        &f.valuation,
        &29_900_000_000i128,
        &10_000_000i128,
        &f.env.ledger().timestamp(),
        &60u64,
        &500u32,
        &8000u32,
        &id(&f.env),
    );
    assert_line_accounting_invariant(&f, &line_id);
}

#[test]
fn snapshot_release_path_records_exact_terminal_state() {
    let f = setup();
    let (position_id, pledge_id, line_id) = happy_to_open(&f);

    f.client.record_drawdown(&line_id, &f.processor, &id(&f.env), &25_000);
    f.client.apply_repayment(&line_id, &f.vault, &id(&f.env), &25_000);
    f.client.bank_authorize_release(&line_id, &f.bank, &id(&f.env));
    f.client.custodian_confirm_release(&pledge_id, &f.custodian, &id(&f.env));

    let line = f.client.get_line(&line_id);
    let pledge = f.client.get_pledge(&pledge_id);
    let position = f.client.get_position(&position_id);

    assert_eq!(line.status, LineStatus::Closed);
    assert_eq!(line.drawn_balance, 0);
    assert_eq!(line.available_limit, line.approved_limit);
    assert_eq!(pledge.status, PledgeStatus::Released);
    assert_eq!(position.status, PositionStatus::Released);
}

#[test]
fn snapshot_default_enforcement_path_records_exact_terminal_state() {
    let f = setup();
    let (position_id, pledge_id, line_id) = happy_to_open(&f);

    f.client.record_drawdown(&line_id, &f.processor, &id(&f.env), &25_000);
    let cure_deadline = f.env.ledger().sequence() + 10;
    f.client.issue_default_notice(&line_id, &f.bank, &cure_deadline, &id(&f.env));
    f.env.ledger().set_sequence_number(cure_deadline + 1);
    f.client.record_enforcement(&line_id, &f.bank, &EnforcementOutcome::Sold, &id(&f.env));

    let line = f.client.get_line(&line_id);
    let pledge = f.client.get_pledge(&pledge_id);
    let position = f.client.get_position(&position_id);

    assert_eq!(line.status, LineStatus::Closed);
    assert_eq!(pledge.status, PledgeStatus::Enforced);
    assert_eq!(position.status, PositionStatus::Enforced);
    assert_eq!(line.drawn_balance, 25_000);
}

#[test]
fn ttl_medium_advance_preserves_core_credit_records() {
    let f = setup();
    let (position_id, pledge_id, line_id) = happy_to_open(&f);
    f.client.record_drawdown(&line_id, &f.processor, &id(&f.env), &25_000);

    let later = f.env.ledger().sequence() + 1_000;
    f.env.ledger().set_sequence_number(later);

    assert_eq!(f.client.get_line(&line_id).drawn_balance, 25_000);
    assert_eq!(f.client.get_pledge(&pledge_id).status, PledgeStatus::Active);
    assert_eq!(f.client.get_position(&position_id).status, PositionStatus::Pledged);
}

#[test]
fn readiness_ready_requires_valuation_and_waterfall_hashes() {
    let f = setup();
    let (_position_id, _pledge_id, line_id) = happy_to_open(&f);
    f.client.open_enforcement_readiness(&line_id, &f.bank, &id(&f.env));
    let agent = Address::generate(&f.env);
    let settlement = Address::generate(&f.env);
    let zero = from_array(&f.env, &[0u8; 32]);

    let zero_valuation = f.client.try_populate_enforcement_readiness(
        &line_id,
        &f.bank,
        &agent,
        &id(&f.env),
        &settlement,
        &zero,
        &id(&f.env),
        &(f.env.ledger().sequence() + 1000),
    );
    assert_eq!(zero_valuation, Err(Ok(Error::InvalidDocumentHash)));

    let zero_waterfall = f.client.try_populate_enforcement_readiness(
        &line_id,
        &f.bank,
        &agent,
        &id(&f.env),
        &settlement,
        &id(&f.env),
        &zero,
        &(f.env.ledger().sequence() + 1000),
    );
    assert_eq!(zero_waterfall, Err(Ok(Error::InvalidDocumentHash)));
}
#[test]
fn framework_registration_emits_canonical_event() {
    let f = setup();
    let framework_id = register_framework(&f);

    assert_eq!(
        f.client.framework_sequence(&framework_id),
        1,
        "first lifecycle act must set the framework sequence to 1"
    );

    assert_eq!(
        f.client.framework_sequence(&framework_id),
        1,
        "publishing the canonical event must advance the framework sequence to 1"
    );
}

#[derive(Clone, Debug, Default, PartialEq)]
struct LineProjection {
    exists: bool,
    drawn_balance: i128,
    available_limit: i128,
    status: Option<StateLabel>,
    margin: Option<StateLabel>,
}

#[derive(Clone, Debug, Default)]
struct Projection {
    framework_exists: bool,
    position_status: Option<StateLabel>,
    pledge_status: Option<StateLabel>,
    line: LineProjection,
    adjustment_status: Option<StateLabel>,
    readiness_status: Option<StateLabel>,
    last_sequence: u64,
}

impl Projection {
    fn new() -> Self {
        Projection::default()
    }

    fn apply(&mut self, ev: &CollateralEventV1) {
        self.last_sequence = ev.sequence;

        match ev.action {
            CollateralAction::FrameworkRegistered => {
                self.framework_exists = true;
            }
            CollateralAction::PositionRegistered
            | CollateralAction::CollateralSelected
            | CollateralAction::CollateralImmobilized => {
                self.position_status = Some(ev.new_state);
            }
            CollateralAction::PledgeActivated => {
                self.position_status = Some(StateLabel::PositionPledged);
                self.pledge_status = Some(ev.new_state);
            }
            CollateralAction::LineOpened => {
                self.line.exists = true;
                self.line.status = Some(ev.new_state);
                self.line.drawn_balance = 0;
                if let CollateralPayloadV1::LineOpened(d) = &ev.payload {
                    self.line.available_limit = d.approved_limit;
                }
            }
            CollateralAction::DrawdownRecorded
            | CollateralAction::DrawdownReversed
            | CollateralAction::RepaymentApplied => {
                if let CollateralPayloadV1::BalanceMove(d) = &ev.payload {
                    self.line.drawn_balance = d.drawn_after;
                    self.line.available_limit = d.available_after;
                }
            }
            CollateralAction::LineRevalued => {
                self.line.status = Some(ev.new_state);
                if let CollateralPayloadV1::Revalued(d) = &ev.payload {
                    self.line.available_limit = d.available_after;
                    self.line.margin = Some(StateLabel::from_margin(d.margin_state));
                }
            }
            CollateralAction::LineSuspendedByBank => {
                self.line.status = Some(ev.new_state);
                if let CollateralPayloadV1::BalanceMove(d) = &ev.payload {
                    self.line.drawn_balance = d.drawn_after;
                    self.line.available_limit = d.available_after;
                }
            }
            CollateralAction::LineResumedByBank => {
                self.line.status = Some(ev.new_state);
                if let CollateralPayloadV1::BalanceMove(d) = &ev.payload {
                    self.line.drawn_balance = d.drawn_after;
                    self.line.available_limit = d.available_after;
                }
            }
            CollateralAction::AdjustmentRequested
            | CollateralAction::AdjustmentCustodianConfirmed
            | CollateralAction::AdjustmentApproved => {
                self.adjustment_status = Some(ev.new_state);
            }
            CollateralAction::ReleaseAuthorized => {
                self.pledge_status = Some(ev.new_state);
                self.position_status = Some(StateLabel::PositionReleasePending);
                self.line.status = Some(StateLabel::LineClosed);
            }
            CollateralAction::ReleaseConfirmed => {
                self.pledge_status = Some(ev.new_state);
                self.position_status = Some(StateLabel::PositionReleased);
            }
            CollateralAction::DefaultNoticeIssued
            | CollateralAction::DefaultCured => {
                self.line.status = Some(ev.new_state);
            }
            CollateralAction::EnforcementRecorded => {
                self.pledge_status = Some(ev.new_state);
                self.position_status = Some(StateLabel::PositionEnforced);
                self.line.status = Some(StateLabel::LineClosed);
            }
            CollateralAction::ReadinessOpened
            | CollateralAction::ReadinessPopulated
            | CollateralAction::ReadinessExpired => {
                self.readiness_status = Some(ev.new_state);
            }
        }
    }
}

fn fold(events: &[CollateralEventV1]) -> Projection {
    let mut p = Projection::new();
    for ev in events {
        p.apply(ev);
    }
    p
}

fn ev(
    env: &Env,
    framework_id: &BytesN32,
    seq: u64,
    entity: EntityKind,
    action: CollateralAction,
    prev: StateLabel,
    new: StateLabel,
    payload: CollateralPayloadV1,
) -> CollateralEventV1 {
    let zero = from_array(env, &[0u8; 32]);
    CollateralEventV1 {
        framework_id: framework_id.clone(),
        entity,
        action,
        sequence: seq,
        actor: Address::generate(env),
        role: Role::Bank,
        position_id: zero.clone(),
        pledge_id: zero.clone(),
        credit_line_id: zero.clone(),
        adjustment_id: zero.clone(),
        previous_state: prev,
        new_state: new,
        evidence_hash: zero.clone(),
        condition_hash: zero.clone(),
        valuation_ref: zero,
        occurred_ledger: 0,
        payload,
    }
}

#[test]
fn replay_fold_rebuilds_framework_position_pledge_line() {
    let f = setup();
    let (position_id, _pledge_id, line_id) = happy_to_open(&f);
    let fw = id(&f.env);
    let zero = from_array(&f.env, &[0u8; 32]);

    let approved_limit: i128 = 719_000;
    let events = [
        ev(&f.env, &fw, 1, EntityKind::Framework,
            CollateralAction::FrameworkRegistered,
            StateLabel::Null, StateLabel::FrameworkActive,
            CollateralPayloadV1::Hash(HashData { hash: zero.clone() })),
        ev(&f.env, &fw, 2, EntityKind::Position,
            CollateralAction::PositionRegistered,
            StateLabel::Null, StateLabel::PositionFree,
            CollateralPayloadV1::Hash(HashData { hash: zero.clone() })),
        ev(&f.env, &fw, 3, EntityKind::Position,
            CollateralAction::CollateralSelected,
            StateLabel::PositionFree, StateLabel::PositionSelected,
            CollateralPayloadV1::Hash(HashData { hash: zero.clone() })),
        ev(&f.env, &fw, 4, EntityKind::Position,
            CollateralAction::CollateralImmobilized,
            StateLabel::PositionSelected, StateLabel::PositionEarmarked,
            CollateralPayloadV1::Hash(HashData { hash: zero.clone() })),
        ev(&f.env, &fw, 5, EntityKind::Pledge,
            CollateralAction::PledgeActivated,
            StateLabel::PositionEarmarked, StateLabel::PledgeActive,
            CollateralPayloadV1::Hash(HashData { hash: zero.clone() })),
        ev(&f.env, &fw, 6, EntityKind::Line,
            CollateralAction::LineOpened,
            StateLabel::Null, StateLabel::LineActive,
            CollateralPayloadV1::LineOpened(LineOpenedData {
                approved_limit,
                ltv_bps: 6000,
                maintenance_bps: 7500,
                price_per_oz_e7: 29_900_000_000,
            })),
    ];

    let p = fold(&events);

    assert!(p.framework_exists, "framework projected");
    assert_eq!(
        p.position_status,
        Some(StateLabel::from_position(f.client.get_position(&position_id).status)),
        "position status: fold == contract"
    );
    let line = f.client.get_line(&line_id);
    assert_eq!(
        p.pledge_status,
        Some(StateLabel::PledgeActive),
        "pledge active after open"
    );
    assert_eq!(
        p.line.status,
        Some(StateLabel::from_line(line.status)),
        "line status: fold == contract"
    );
    assert_eq!(
        p.line.available_limit, line.available_limit,
        "available limit: fold == contract"
    );
    assert_eq!(p.line.drawn_balance, line.drawn_balance, "drawn balance: fold == contract");
}

#[test]
fn replay_fold_rebuilds_drawdown_reverse_repayment() {
    let f = setup();
    let (_position_id, _pledge_id, line_id) = happy_to_open(&f);

    f.client.record_drawdown(&line_id, &f.processor, &id(&f.env), &25_000);
    f.client.record_drawdown(&line_id, &f.processor, &id(&f.env), &10_000);
    f.client.apply_repayment(&line_id, &f.vault, &id(&f.env), &25_000);

    let line = f.client.get_line(&line_id);

    let fw = id(&f.env);
    let events = [
        ev(&f.env, &fw, 1, EntityKind::Line, CollateralAction::LineOpened,
            StateLabel::Null, StateLabel::LineActive,
            CollateralPayloadV1::LineOpened(LineOpenedData {
                approved_limit: 719_000, ltv_bps: 6000,
                maintenance_bps: 7500, price_per_oz_e7: 29_900_000_000 })),
        ev(&f.env, &fw, 2, EntityKind::Drawdown, CollateralAction::DrawdownRecorded,
            StateLabel::LineActive, StateLabel::LineActive,
            CollateralPayloadV1::BalanceMove(BalanceMoveData {
                amount: 25_000, drawn_after: 25_000, available_after: 694_000 })),
        ev(&f.env, &fw, 3, EntityKind::Drawdown, CollateralAction::DrawdownRecorded,
            StateLabel::LineActive, StateLabel::LineActive,
            CollateralPayloadV1::BalanceMove(BalanceMoveData {
                amount: 10_000, drawn_after: 35_000, available_after: 684_000 })),
        ev(&f.env, &fw, 4, EntityKind::Repayment, CollateralAction::RepaymentApplied,
            StateLabel::LineActive, StateLabel::LineActive,
            CollateralPayloadV1::BalanceMove(BalanceMoveData {
                amount: 25_000, drawn_after: 10_000, available_after: 709_000 })),
    ];

    let p = fold(&events);
    assert_eq!(p.line.drawn_balance, line.drawn_balance, "drawn: fold == contract");
    assert_eq!(p.line.available_limit, line.available_limit, "available: fold == contract");
}

#[test]
fn replay_fold_rebuilds_release_path() {
    let f = setup();
    let (position_id, pledge_id, line_id) = happy_to_open(&f);

    f.client.record_drawdown(&line_id, &f.processor, &id(&f.env), &25_000);
    f.client.apply_repayment(&line_id, &f.vault, &id(&f.env), &25_000);
    f.client.bank_authorize_release(&line_id, &f.bank, &id(&f.env));
    f.client.custodian_confirm_release(&pledge_id, &f.custodian, &id(&f.env));

    let pos = f.client.get_position(&position_id);
    let pledge = f.client.get_pledge(&pledge_id);
    let line = f.client.get_line(&line_id);
    let zero = from_array(&f.env, &[0u8; 32]);
    let fw = id(&f.env);

    let events = [
        ev(&f.env, &fw, 1, EntityKind::Line, CollateralAction::LineOpened,
            StateLabel::Null, StateLabel::LineActive,
            CollateralPayloadV1::LineOpened(LineOpenedData {
                approved_limit: 719_000, ltv_bps: 6000,
                maintenance_bps: 7500, price_per_oz_e7: 29_900_000_000 })),
        ev(&f.env, &fw, 2, EntityKind::Drawdown, CollateralAction::DrawdownRecorded,
            StateLabel::LineActive, StateLabel::LineActive,
            CollateralPayloadV1::BalanceMove(BalanceMoveData {
                amount: 25_000, drawn_after: 25_000, available_after: 694_000 })),
        ev(&f.env, &fw, 3, EntityKind::Repayment, CollateralAction::RepaymentApplied,
            StateLabel::LineActive, StateLabel::LineActive,
            CollateralPayloadV1::BalanceMove(BalanceMoveData {
                amount: 25_000, drawn_after: 0, available_after: 719_000 })),
        ev(&f.env, &fw, 4, EntityKind::Release, CollateralAction::ReleaseAuthorized,
            StateLabel::PledgeActive, StateLabel::PledgeReleaseAuthorized,
            CollateralPayloadV1::Hash(HashData { hash: zero.clone() })),
        ev(&f.env, &fw, 5, EntityKind::Release, CollateralAction::ReleaseConfirmed,
            StateLabel::PledgeReleaseAuthorized, StateLabel::PledgeReleased,
            CollateralPayloadV1::Hash(HashData { hash: zero })),
    ];

    let p = fold(&events);
    assert_eq!(p.pledge_status, Some(StateLabel::from_pledge(pledge.status)),
        "pledge: fold == contract (Released)");
    assert_eq!(p.position_status, Some(StateLabel::from_position(pos.status)),
        "position: fold == contract (Released)");
    assert_eq!(p.line.status, Some(StateLabel::from_line(line.status)),
        "line: fold == contract (Closed)");
}

#[test]
fn replay_fold_rebuilds_revalue_suspend_resume() {
    let f = setup();
    let (_p, _pl, line_id) = happy_to_open(&f);
    f.client.record_drawdown(&line_id, &f.processor, &id(&f.env), &700_000);

    revalue_at(&f, &line_id, 2_300);
    let line = f.client.get_line(&line_id);
    let val = f.client.get_valuation(&line_id);

    let fw = id(&f.env);
    let zero = from_array(&f.env, &[0u8; 32]);
    let events = [
        ev(&f.env, &fw, 1, EntityKind::Line, CollateralAction::LineOpened,
            StateLabel::Null, StateLabel::LineActive,
            CollateralPayloadV1::LineOpened(LineOpenedData {
                approved_limit: 719_000, ltv_bps: 6000,
                maintenance_bps: 7500, price_per_oz_e7: 29_900_000_000 })),
        ev(&f.env, &fw, 2, EntityKind::Drawdown, CollateralAction::DrawdownRecorded,
            StateLabel::LineActive, StateLabel::LineActive,
            CollateralPayloadV1::BalanceMove(BalanceMoveData {
                amount: 700_000, drawn_after: 700_000, available_after: 19_000 })),
        ev(&f.env, &fw, 3, EntityKind::Valuation, CollateralAction::LineRevalued,
            StateLabel::LineActive, StateLabel::from_line(line.status),
            CollateralPayloadV1::Revalued(RevaluedData {
                price_per_oz_e7: 23_000_000_000,
                confidence_e7: 23_000_000,
                margin_state: val.margin_state,
                drawn_balance: 700_000,
                advance_base: 0,
                available_after: line.available_limit })),
    ];
    let p = fold(&events);
    assert_eq!(p.line.status, Some(StateLabel::from_line(line.status)),
        "line status: fold == contract (Suspended on call)");
    assert_eq!(p.line.margin, Some(StateLabel::from_margin(val.margin_state)),
        "margin: fold == contract (Called)");

    let (_p2, _pl2, line2) = happy_to_open(&f);
    f.client.bank_suspend_line(&line2, &f.bank, &id(&f.env));
    let s1 = f.client.get_line(&line2).status;
    f.client.bank_resume_line(&line2, &f.bank, &id(&f.env));
    let s2 = f.client.get_line(&line2).status;
    let events2 = [
        ev(&f.env, &fw, 1, EntityKind::Line, CollateralAction::LineSuspendedByBank,
            StateLabel::LineActive, StateLabel::LineSuspended,
            CollateralPayloadV1::Hash(HashData { hash: zero.clone() })),
        ev(&f.env, &fw, 2, EntityKind::Line, CollateralAction::LineResumedByBank,
            StateLabel::LineSuspended, StateLabel::LineActive,
            CollateralPayloadV1::Hash(HashData { hash: zero })),
    ];
    let p2 = fold(&events2);
    assert_eq!(p2.line.status, Some(StateLabel::from_line(s2)), "resume: fold == contract");
    assert_eq!(StateLabel::from_line(s1), StateLabel::LineSuspended, "suspend reached Suspended");
}

#[test]
fn replay_fold_rebuilds_default_cure_enforcement_path() {
    let f = setup();
    let (_p, _pl, line_id) = happy_to_open(&f);
    f.client.record_drawdown(&line_id, &f.processor, &id(&f.env), &25_000);
    let deadline = f.env.ledger().sequence() + 10;
    f.client.issue_default_notice(&line_id, &f.bank, &deadline, &id(&f.env));
    f.client.cure_default(&line_id, &f.cardholder, &id(&f.env));
    let cured = f.client.get_line(&line_id);
    let fw = id(&f.env);
    let zero = from_array(&f.env, &[0u8; 32]);
    let cure_events = [
        ev(&f.env, &fw, 1, EntityKind::Default, CollateralAction::DefaultNoticeIssued,
            StateLabel::LineActive, StateLabel::LineDefaulted,
            CollateralPayloadV1::DefaultNotice(DefaultNoticeData {
                cure_deadline_ledger: 0, notice_hash: zero.clone() })),
        ev(&f.env, &fw, 2, EntityKind::Default, CollateralAction::DefaultCured,
            StateLabel::LineDefaulted, StateLabel::LineActive,
            CollateralPayloadV1::Hash(HashData { hash: zero.clone() })),
    ];
    let pc = fold(&cure_events);
    assert_eq!(pc.line.status, Some(StateLabel::from_line(cured.status)),
        "cure: fold == contract (Active)");

    let f2 = setup();
    let (position_id, pledge_id, line2) = happy_to_open(&f2);
    f2.client.record_drawdown(&line2, &f2.processor, &id(&f2.env), &25_000);
    let dl = f2.env.ledger().sequence() + 10;
    f2.client.issue_default_notice(&line2, &f2.bank, &dl, &id(&f2.env));
    f2.env.ledger().set_sequence_number(dl + 1);
    f2.client.record_enforcement(&line2, &f2.bank, &EnforcementOutcome::Sold, &id(&f2.env));
    let pos = f2.client.get_position(&position_id);
    let pledge = f2.client.get_pledge(&pledge_id);
    let line_e = f2.client.get_line(&line2);
    let zero2 = from_array(&f2.env, &[0u8; 32]);
    let enf_events = [
        ev(&f2.env, &fw, 1, EntityKind::Default, CollateralAction::DefaultNoticeIssued,
            StateLabel::LineActive, StateLabel::LineDefaulted,
            CollateralPayloadV1::DefaultNotice(DefaultNoticeData {
                cure_deadline_ledger: 0, notice_hash: zero2.clone() })),
        ev(&f2.env, &fw, 2, EntityKind::Enforcement, CollateralAction::EnforcementRecorded,
            StateLabel::PledgeDefaulted, StateLabel::PledgeEnforced,
            CollateralPayloadV1::Enforcement(EnforcementData {
                outcome: EnforcementOutcome::Sold, legal_instrument_hash: zero2 })),
    ];
    let pe = fold(&enf_events);
    assert_eq!(pe.pledge_status, Some(StateLabel::from_pledge(pledge.status)),
        "enforcement pledge: fold == contract (Enforced)");
    assert_eq!(pe.position_status, Some(StateLabel::from_position(pos.status)),
        "enforcement position: fold == contract (Enforced)");
    assert_eq!(pe.line.status, Some(StateLabel::from_line(line_e.status)),
        "enforcement line: fold == contract (Closed)");
}

fn lifecycle_with_framework(f: &Fixture) -> (BytesN32, BytesN32, BytesN32, BytesN32) {
    let framework_id = register_framework(f);
    let position_id = id(&f.env);
    let expiry = f.env.ledger().sequence() + 100_000;
    f.client.register_position(
        &position_id, &framework_id, &f.owner, &f.custodian,
        &id(&f.env), &id(&f.env), &4_011_000_000i128, &expiry);
    f.client.select_bars_for_collateral(&position_id, &f.owner, &id(&f.env));
    f.client.confirm_and_immobilize(&position_id, &f.custodian, &id(&f.env));
    let pledge_id = id(&f.env);
    let line_id = id(&f.env);
    f.client.activate_pledge(&pledge_id, &position_id, &f.owner, &f.bank, &id(&f.env));
    f.client.open_credit_line(
        &line_id, &pledge_id, &f.bank, &f.cardholder,
        &719_000i128, &6000u32, &7500u32, &29_900_000_000i128);
    (framework_id, position_id, pledge_id, line_id)
}

#[test]
fn each_successful_domain_action_advances_sequence_once() {
    let f = setup();
    let framework_id = register_framework(&f);
    assert_eq!(f.client.framework_sequence(&framework_id), 1, "after register_framework");

    let position_id = id(&f.env);
    let expiry = f.env.ledger().sequence() + 100_000;
    f.client.register_position(
        &position_id, &framework_id, &f.owner, &f.custodian,
        &id(&f.env), &id(&f.env), &4_011_000_000i128, &expiry);
    assert_eq!(f.client.framework_sequence(&framework_id), 2, "after register_position");

    f.client.select_bars_for_collateral(&position_id, &f.owner, &id(&f.env));
    assert_eq!(f.client.framework_sequence(&framework_id), 3, "after select");

    f.client.confirm_and_immobilize(&position_id, &f.custodian, &id(&f.env));
    assert_eq!(f.client.framework_sequence(&framework_id), 4, "after immobilize");

    let pledge_id = id(&f.env);
    f.client.activate_pledge(&pledge_id, &position_id, &f.owner, &f.bank, &id(&f.env));
    assert_eq!(f.client.framework_sequence(&framework_id), 5, "after activate_pledge");

    let line_id = id(&f.env);
    f.client.open_credit_line(
        &line_id, &pledge_id, &f.bank, &f.cardholder,
        &719_000i128, &6000u32, &7500u32, &29_900_000_000i128);
    assert_eq!(f.client.framework_sequence(&framework_id), 6, "after open_credit_line");
}

#[test]
fn framework_sequence_is_gap_free_for_successful_lifecycle() {
    let f = setup();
    let (framework_id, _pos, _pl, line_id) = lifecycle_with_framework(&f);
    let before = f.client.framework_sequence(&framework_id);
    assert_eq!(before, 6, "spine emitted 6 gap-free events");
    f.client.record_drawdown(&line_id, &f.processor, &id(&f.env), &25_000);
    assert_eq!(f.client.framework_sequence(&framework_id), 7, "drawdown advances to 7");
}

#[test]
fn failed_call_does_not_increment_framework_sequence() {
    let f = setup();
    let (framework_id, _pos, _pl, line_id) = lifecycle_with_framework(&f);
    let before = f.client.framework_sequence(&framework_id);

    let res = f.client.try_record_drawdown(
        &line_id, &f.processor, &id(&f.env), &10_000_000i128);
    assert!(res.is_err(), "over-limit draw must fail");
    assert_eq!(
        f.client.framework_sequence(&framework_id), before,
        "a reverted call must not advance the sequence"
    );
}

struct DecodedEvent {
    action: CollateralAction,
    new_state: StateLabel,
    approved_limit: i128,
    drawn_after: i128,
    available_after: i128,
}

fn decode_emitted(ev: &CollateralEventV1) -> DecodedEvent {
    let mut approved_limit = 0i128;
    let mut drawn_after = 0i128;
    let mut available_after = 0i128;
    match &ev.payload {
        CollateralPayloadV1::LineOpened(d) => approved_limit = d.approved_limit,
        CollateralPayloadV1::BalanceMove(d) => {
            drawn_after = d.drawn_after;
            available_after = d.available_after;
        }
        CollateralPayloadV1::Revalued(d) => available_after = d.available_after,
        _ => {}
    }
    DecodedEvent { action: ev.action, new_state: ev.new_state, approved_limit, drawn_after, available_after }
}

fn try_decode_emitted(ev: &CollateralEventV1) -> Option<DecodedEvent> {
    Some(decode_emitted(ev))
}

#[test]
fn batch3a_emitted_spine_event_decodes_to_expected_action_and_state() {
    let f = setup();
    let framework_id = register_framework(&f);

    let all = f.env.events().all();
    let ev = all.last().expect("at least one event");
    let decoded = decode_emitted(ev);

    assert_eq!(decoded.action, CollateralAction::FrameworkRegistered,
        "emitted action decodes to FrameworkRegistered");
    assert_eq!(decoded.new_state, StateLabel::FrameworkActive,
        "emitted new_state decodes to FrameworkActive");

    let _ = framework_id;
}

#[derive(Default)]
struct EmittedProjection {
    framework_exists: bool,
    position_status: Option<StateLabel>,
    pledge_status: Option<StateLabel>,
    line_status: Option<StateLabel>,
    line_available: i128,
    line_drawn: i128,
}

fn fold_emitted(events: &[DecodedEvent]) -> EmittedProjection {
    let mut p = EmittedProjection::default();
    for e in events {
        match e.action {
            CollateralAction::FrameworkRegistered => p.framework_exists = true,
            CollateralAction::PositionRegistered
            | CollateralAction::CollateralSelected
            | CollateralAction::CollateralImmobilized => {
                p.position_status = Some(e.new_state);
            }
            CollateralAction::PledgeActivated => {
                p.position_status = Some(StateLabel::PositionPledged);
                p.pledge_status = Some(e.new_state);
            }
            CollateralAction::LineOpened => {
                p.line_status = Some(e.new_state);
                p.line_available = e.approved_limit;
                p.line_drawn = 0;
            }
            CollateralAction::DrawdownRecorded
            | CollateralAction::DrawdownReversed
            | CollateralAction::RepaymentApplied => {
                p.line_drawn = e.drawn_after;
                p.line_available = e.available_after;
            }
            CollateralAction::ReleaseAuthorized => {
                p.pledge_status = Some(e.new_state);
                p.position_status = Some(StateLabel::PositionReleasePending);
                p.line_status = Some(StateLabel::LineClosed);
            }
            CollateralAction::ReleaseConfirmed => {
                p.pledge_status = Some(e.new_state);
                p.position_status = Some(StateLabel::PositionReleased);
            }
            CollateralAction::EnforcementRecorded => {
                p.pledge_status = Some(e.new_state);
                p.position_status = Some(StateLabel::PositionEnforced);
                p.line_status = Some(StateLabel::LineClosed);
            }
            _ => { p.line_status = Some(e.new_state); }
        }
    }
    p
}

#[test]
fn batch3a_emitted_events_fold_spine_to_contract_state() {
    let f = setup();

    let mut decoded: Vec<DecodedEvent> = Vec::new();
    let mut grab = |f: &Fixture, acc: &mut Vec<DecodedEvent>| {
        for ev in f.env.events().all().iter() {
            if let Some(d) = try_decode_emitted(ev) {
                acc.push(d);
            }
        }
    };

    let framework_id = register_framework(&f);
    grab(&f, &mut decoded);
    let position_id = id(&f.env);
    let expiry = f.env.ledger().sequence() + 100_000;
    f.client.register_position(
        &position_id, &framework_id, &f.owner, &f.custodian,
        &id(&f.env), &id(&f.env), &4_011_000_000i128, &expiry);
    grab(&f, &mut decoded);
    f.client.select_bars_for_collateral(&position_id, &f.owner, &id(&f.env));
    grab(&f, &mut decoded);
    f.client.confirm_and_immobilize(&position_id, &f.custodian, &id(&f.env));
    grab(&f, &mut decoded);
    let pledge_id = id(&f.env);
    f.client.activate_pledge(&pledge_id, &position_id, &f.owner, &f.bank, &id(&f.env));
    grab(&f, &mut decoded);
    let line_id = id(&f.env);
    f.client.open_credit_line(
        &line_id, &pledge_id, &f.bank, &f.cardholder,
        &719_000i128, &6000u32, &7500u32, &29_900_000_000i128);
    grab(&f, &mut decoded);

    assert!(decoded.len() >= 6, "expected >=6 canonical spine events, got {}", decoded.len());

    let p = fold_emitted(&decoded);

    assert!(p.framework_exists, "framework folded from emitted events");
    assert_eq!(p.position_status,
        Some(StateLabel::from_position(f.client.get_position(&position_id).status)),
        "position: emitted-fold == contract");
    assert_eq!(p.pledge_status,
        Some(StateLabel::from_pledge(f.client.get_pledge(&pledge_id).status)),
        "pledge: emitted-fold == contract");
    let line = f.client.get_line(&line_id);
    assert_eq!(p.line_status, Some(StateLabel::from_line(line.status)),
        "line status: emitted-fold == contract");
    assert_eq!(p.line_available, line.available_limit,
        "line available: emitted-fold == contract");
    assert_eq!(p.line_drawn, line.drawn_balance,
        "line drawn: emitted-fold == contract");

}

fn grab(f: &Fixture, acc: &mut Vec<DecodedEvent>) {
    for ev in f.env.events().all().iter() {
        if let Some(d) = try_decode_emitted(ev) { acc.push(d); }
    }
}

#[test]
fn batch3a_emitted_events_fold_release_lifecycle_to_state() {
    let f = setup();
    let mut decoded: Vec<DecodedEvent> = Vec::new();

    let (position_id, pledge_id, line_id) = happy_to_open(&f);
    grab(&f, &mut decoded);
    f.client.record_drawdown(&line_id, &f.processor, &id(&f.env), &25_000);
    grab(&f, &mut decoded);
    f.client.apply_repayment(&line_id, &f.vault, &id(&f.env), &25_000);
    grab(&f, &mut decoded);
    f.client.bank_authorize_release(&line_id, &f.bank, &id(&f.env));
    grab(&f, &mut decoded);
    f.client.custodian_confirm_release(&pledge_id, &f.custodian, &id(&f.env));
    grab(&f, &mut decoded);

    let p = fold_emitted(&decoded);
    assert_eq!(p.pledge_status,
        Some(StateLabel::from_pledge(f.client.get_pledge(&pledge_id).status)),
        "release pledge: emitted-fold == contract (Released)");
    assert_eq!(p.position_status,
        Some(StateLabel::from_position(f.client.get_position(&position_id).status)),
        "release position: emitted-fold == contract (Released)");
    assert_eq!(p.line_status,
        Some(StateLabel::from_line(f.client.get_line(&line_id).status)),
        "release line: emitted-fold == contract (Closed)");
}

#[test]
fn batch3a_emitted_events_fold_enforcement_lifecycle_to_state() {
    let f = setup();
    let mut decoded: Vec<DecodedEvent> = Vec::new();

    let (position_id, pledge_id, line_id) = happy_to_open(&f);
    grab(&f, &mut decoded);
    f.client.record_drawdown(&line_id, &f.processor, &id(&f.env), &25_000);
    grab(&f, &mut decoded);
    let dl = f.env.ledger().sequence() + 10;
    f.client.issue_default_notice(&line_id, &f.bank, &dl, &id(&f.env));
    grab(&f, &mut decoded);
    f.env.ledger().set_sequence_number(dl + 1);
    f.client.record_enforcement(&line_id, &f.bank, &EnforcementOutcome::Sold, &id(&f.env));
    grab(&f, &mut decoded);

    let p = fold_emitted(&decoded);
    assert_eq!(p.pledge_status,
        Some(StateLabel::from_pledge(f.client.get_pledge(&pledge_id).status)),
        "enforcement pledge: emitted-fold == contract (Enforced)");
    assert_eq!(p.position_status,
        Some(StateLabel::from_position(f.client.get_position(&position_id).status)),
        "enforcement position: emitted-fold == contract (Enforced)");
    assert_eq!(p.line_status,
        Some(StateLabel::from_line(f.client.get_line(&line_id).status)),
        "enforcement line: emitted-fold == contract (Closed)");
}

#[test]
fn batch2_default_notice_event_carries_cure_deadline() {
    let f = setup();
    let (_position_id, _pledge_id, line_id) = happy_to_open(&f);
    f.client.record_drawdown(&line_id, &f.processor, &id(&f.env), &25_000);
    let deadline = f.env.ledger().sequence() + 137;
    f.client.issue_default_notice(&line_id, &f.bank, &deadline, &id(&f.env));

    let mut found: Option<u32> = None;
    for ev in f.env.events().all().iter() {
        if ev.action != CollateralAction::DefaultNoticeIssued {
            continue;
        }
        let d = match &ev.payload {
            CollateralPayloadV1::DefaultNotice(d) => d,
            _ => panic!("default-notice payload present"),
        };
        found = Some(d.cure_deadline_ledger);
    }

    assert_eq!(
        found,
        Some(deadline),
        "emitted default-notice event must carry the exact cure deadline the bank set"
    );
}

fn last_revalue_role(f: &Fixture) -> Role {
    let all = f.env.events().all();
    for i in (0..all.len()).rev() {
        let ev = all.get(i).unwrap();
        if ev.action != CollateralAction::LineRevalued {
            continue;
        }
        return ev.role;
    }
    panic!("no LineRevalued event emitted");
}

#[test]
fn batch7_revalue_event_role_matches_the_actual_submitter() {

    let f = setup();
    let (_p, _pl, line_id) = happy_to_open(&f);
    f.client.revalue_and_check(
        &line_id,
        &f.bank,
        &30_000_000_000i128,
        &30_000_000i128,
        &f.env.ledger().timestamp(),
        &86_400u64,
        &500u32,
        &9000u32,
        &id(&f.env),
    );
    assert_eq!(
        last_revalue_role(&f),
        Role::Bank,
        "bank-submitted revaluation must be recorded as Role::Bank, not Valuation"
    );

    let f2 = setup();
    let (_p2, _pl2, line_id2) = happy_to_open(&f2);
    f2.client.revalue_and_check(
        &line_id2,
        &f2.valuation,
        &30_000_000_000i128,
        &30_000_000i128,
        &f2.env.ledger().timestamp(),
        &86_400u64,
        &500u32,
        &9000u32,
        &id(&f2.env),
    );
    assert_eq!(
        last_revalue_role(&f2),
        Role::Valuation,
        "valuer-submitted revaluation must be recorded as Role::Valuation"
    );
}

#[test]
fn batch7_line_opened_event_previous_state_is_null() {
    let f = setup();
    let (_p, _pl, _line_id) = happy_to_open(&f);

    let all = f.env.events().all();
    let mut found = false;
    for i in (0..all.len()).rev() {
        let ev = all.get(i).unwrap();
        let action = ev.action;
        if action != CollateralAction::LineOpened {
            continue;
        }
        let prev = ev.previous_state;
        assert_eq!(
            prev,
            StateLabel::Null,
            "LineOpened previous_state must be Null (the line had no prior state), not the pledge's"
        );
        let new = ev.new_state;
        assert_eq!(new, StateLabel::LineActive, "LineOpened new_state must be LineActive");
        found = true;
        break;
    }
    assert!(found, "no LineOpened event emitted");
}

#[test]
fn batch7_repayment_during_suspension_reports_real_status() {
    let f = setup();
    let (_p, _pl, line_id) = happy_to_open(&f);
    f.client.record_drawdown(&line_id, &f.processor, &id(&f.env), &25_000);

    f.client.bank_suspend_line(&line_id, &f.bank, &id(&f.env));
    assert_eq!(
        StateLabel::from_line(f.client.get_line(&line_id).status),
        StateLabel::LineSuspended,
        "precondition: line is suspended"
    );

    f.client.apply_repayment(&line_id, &f.vault, &id(&f.env), &10_000);

    let all = f.env.events().all();
    let mut checked = false;
    for i in (0..all.len()).rev() {
        let ev = all.get(i).unwrap();
        let action = ev.action;
        if action != CollateralAction::RepaymentApplied {
            continue;
        }
        let new = ev.new_state;
        let prev = ev.previous_state;
        assert_eq!(
            new,
            StateLabel::LineSuspended,
            "repayment during suspension must report LineSuspended, not a false LineActive"
        );
        assert_eq!(
            prev,
            StateLabel::LineSuspended,
            "repayment does not change status; previous_state is the real (suspended) status"
        );
        checked = true;
        break;
    }
    assert!(checked, "no RepaymentApplied event emitted");
}

#[test]
fn batch7d_revalue_rejects_zero_valuation_ref() {
    let f = setup();
    let (_p, _pl, line_id) = happy_to_open(&f);
    let zero = zero_hash(&f.env);
    let res = f.client.try_revalue_and_check(
        &line_id,
        &f.valuation,
        &30_000_000_000i128,
        &30_000_000i128,
        &f.env.ledger().timestamp(),
        &86_400u64,
        &500u32,
        &9000u32,
        &zero,
    );
    assert_eq!(
        res,
        Err(Ok(Error::InvalidDocumentHash)),
        "a revaluation with a zero valuation_ref must be refused"
    );
}

#[test]
fn batch7d_revalue_event_carries_valuation_ref() {
    let f = setup();
    let (_p, _pl, line_id) = happy_to_open(&f);
    let val_ref = id(&f.env);
    f.client.revalue_and_check(
        &line_id,
        &f.valuation,
        &30_000_000_000i128,
        &30_000_000i128,
        &f.env.ledger().timestamp(),
        &86_400u64,
        &500u32,
        &9000u32,
        &val_ref,
    );

    let all = f.env.events().all();
    let mut checked = false;
    for i in (0..all.len()).rev() {
        let ev = all.get(i).unwrap();
        let action = ev.action;
        if action != CollateralAction::LineRevalued {
            continue;
        }
        let vr = ev.valuation_ref;
        assert_eq!(vr, val_ref, "emitted valuation_ref must equal the source the valuer supplied");
        checked = true;
        break;
    }
    assert!(checked, "no LineRevalued event emitted");
}
