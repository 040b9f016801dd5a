//! The settlement vault: the payment rail of a repayment. It checks the
//! request against the credit line, names the settlement-asset transfer from
//! the cardholder to the line's bank, and applies the repayment on the bound
//! credit ledger; the transfer and the ledger change commit together.
use vstd::prelude::*;

use crate::primitives::{Address, Bytes32};
use crate::credit_ledger::error::Error as LedgerError;
use crate::credit_ledger::event::CollateralEventV1;
use crate::credit_ledger::state::lines::{repay_fits, step_apply_repayment};
use crate::credit_ledger::state::{CreditLedger, LedgerState};
use crate::credit_ledger::types::{CreditLine, LedgerEnv, LineStatus};

verus! {

/// Refusals of the settlement vault.
#[derive(Clone, Copy, Debug, PartialEq, Eq, Structural)]
pub enum Error {
    AlreadyInitialized,
    NotInitialized,
    AmountNotPositive,
    LineNotRepayable,
    RepaymentExceedsOutstandingBalance,
    NotAuthorizedBankDestination,
}

pub open spec fn error_code(e: Error) -> u32 {
    match e {
        Error::AlreadyInitialized => 1,
        Error::NotInitialized => 2,
        Error::AmountNotPositive => 3,
        Error::LineNotRepayable => 4,
        Error::RepaymentExceedsOutstandingBalance => 5,
        Error::NotAuthorizedBankDestination => 6,
    }
}

impl Error {
    /// The stable number of this refusal.
    pub fn code(&self) -> (r: u32)
        ensures
            r == error_code(*self),
    {
        match self {
            Error::AlreadyInitialized => 1,
            Error::NotInitialized => 2,
            Error::AmountNotPositive => 3,
            Error::LineNotRepayable => 4,
            Error::RepaymentExceedsOutstandingBalance => 5,
            Error::NotAuthorizedBankDestination => 6,
        }
    }
}

/// Why a settlement failed: the vault's own refusal, or the credit ledger's.
#[derive(Clone, Copy, Debug, PartialEq, Eq, Structural)]
pub enum SettleError {
    Vault(Error),
    Ledger(LedgerError),
}

/// A transfer of the settlement asset that a settlement commits together
/// with its ledger change.
#[derive(Clone, Copy, Debug, PartialEq, Eq, Structural)]
pub struct TokenTransfer {
    pub token: Address,
    pub from: Address,
    pub to: Address,
    pub amount: i128,
}

/// The vault's bindings: its admin, settlement asset and credit ledger.
pub struct SettlementVault {
    admin: Option<Address>,
    settlement_token: Option<Address>,
    credit_ledger: Option<Address>,
}

impl SettlementVault {
    pub closed spec fn spec_admin(&self) -> Option<Address> {
        self.admin
    }

    pub closed spec fn spec_settlement_token(&self) -> Option<Address> {
        self.settlement_token
    }

    pub closed spec fn spec_credit_ledger(&self) -> Option<Address> {
        self.credit_ledger
    }

    /// A vault not yet bound to anything.
    pub fn new() -> (r: SettlementVault)
        ensures
            r.spec_admin() is None,
            r.spec_settlement_token() is None,
            r.spec_credit_ledger() is None,
    {
        SettlementVault { admin: None, settlement_token: None, credit_ledger: None }
    }

    /// Bind the vault to a settlement asset and a credit ledger, once.
    pub fn initialize(&mut self, admin: Address, settlement_token: Address, credit_ledger: Address) -> (r:
        Result<(), Error>)
        ensures
            old(self).spec_credit_ledger() is Some ==> {
                &&& r == Err::<(), Error>(Error::AlreadyInitialized)
                &&& final(self).spec_admin() == old(self).spec_admin()
                &&& final(self).spec_settlement_token() == old(self).spec_settlement_token()
                &&& final(self).spec_credit_ledger() == old(self).spec_credit_ledger()
            },
            old(self).spec_credit_ledger() is None ==> {
                &&& r == Ok::<(), Error>(())
                &&& final(self).spec_admin() == Some(admin)
                &&& final(self).spec_settlement_token() == Some(settlement_token)
                &&& final(self).spec_credit_ledger() == Some(credit_ledger)
            },
    {
        if self.credit_ledger.is_some() {
            return Err(Error::AlreadyInitialized);
        }
        self.admin = Some(admin);
        self.settlement_token = Some(settlement_token);
        self.credit_ledger = Some(credit_ledger);
        Ok(())
    }

    /// The credit ledger this vault is bound to.
    pub fn get_credit_ledger(&self) -> (r: Result<Address, Error>)
        ensures
            r == (match self.spec_credit_ledger() {
                Some(a) => Ok::<Address, Error>(a),
                None => Err(Error::NotInitialized),
            }),
    {
        match self.credit_ledger {
            Some(a) => Ok(a),
            None => Err(Error::NotInitialized),
        }
    }

    /// The settlement asset this vault settles in.
    pub fn get_settlement_token(&self) -> (r: Result<Address, Error>)
        ensures
            r == (match self.spec_settlement_token() {
                Some(a) => Ok::<Address, Error>(a),
                None => Err(Error::NotInitialized),
            }),
    {
        match self.settlement_token {
            Some(a) => Ok(a),
            None => Err(Error::NotInitialized),
        }
    }

    /// The admin set at initialization.
    pub fn get_admin(&self) -> (r: Result<Address, Error>)
        ensures
            r == (match self.spec_admin() {
                Some(a) => Ok::<Address, Error>(a),
                None => Err(Error::NotInitialized),
            }),
    {
        match self.admin {
            Some(a) => Ok(a),
            None => Err(Error::NotInitialized),
        }
    }

    /// The vault's own checks of a repayment against the credit line as the
    /// ledger reports it (`None`: the ledger has no such line), and the
    /// transfer of the settlement asset, cardholder to bank, they name.
    pub open spec fn plan_spec(
        &self,
        line: Option<CreditLine>,
        cardholder: Address,
        bank: Address,
        amount: i128,
    ) -> Result<TokenTransfer, SettleError> {
        if amount <= 0 {
            Err(SettleError::Vault(Error::AmountNotPositive))
        } else if self.spec_settlement_token() is None || self.spec_credit_ledger() is None {
            Err(SettleError::Vault(Error::NotInitialized))
        } else {
            match line {
                None => Err(SettleError::Ledger(LedgerError::LineNotFound)),
                Some(l) => if l.bank != bank {
                    Err(SettleError::Vault(Error::NotAuthorizedBankDestination))
                } else if l.status == LineStatus::Closed || l.drawn_balance <= 0 {
                    Err(SettleError::Vault(Error::LineNotRepayable))
                } else if amount > l.drawn_balance {
                    Err(SettleError::Vault(Error::RepaymentExceedsOutstandingBalance))
                } else {
                    Ok(TokenTransfer { token: self.spec_settlement_token().unwrap(), from: cardholder, to: bank, amount })
                },
            }
        }
    }

    /// Check a repayment against the credit line read from the bound ledger
    /// and name the transfer to make before the ledger applies it.
    pub fn plan_settlement(&self, line: Option<CreditLine>, cardholder: Address, bank: Address, amount: i128) -> (r:
        Result<TokenTransfer, SettleError>)
        ensures
            r == self.plan_spec(line, cardholder, bank, amount),
    {
        if amount <= 0 {
            return Err(SettleError::Vault(Error::AmountNotPositive));
        }
        let token = match self.settlement_token {
            Some(t) => t,
            None => {
                return Err(SettleError::Vault(Error::NotInitialized));
            },
        };
        if self.credit_ledger.is_none() {
            return Err(SettleError::Vault(Error::NotInitialized));
        }
        let l = match line {
            Some(l) => l,
            None => {
                return Err(SettleError::Ledger(LedgerError::LineNotFound));
            },
        };
        if l.bank != bank {
            return Err(SettleError::Vault(Error::NotAuthorizedBankDestination));
        }
        if l.status == LineStatus::Closed || l.drawn_balance <= 0 {
            return Err(SettleError::Vault(Error::LineNotRepayable));
        }
        if amount > l.drawn_balance {
            return Err(SettleError::Vault(Error::RepaymentExceedsOutstandingBalance));
        }
        Ok(TokenTransfer { token, from: cardholder, to: bank, amount })
    }

    /// What a settlement does, given the vault's bindings and the ledger's
    /// state: the vault's own checks against the line, then the ledger's
    /// repayment, naming the transfer from the cardholder to the line's bank.
    pub open spec fn settle_step(
        &self,
        s: LedgerState,
        vault_address: Address,
        credit_line_id: Bytes32,
        cardholder: Address,
        bank: Address,
        payment_ref: Bytes32,
        amount: i128,
        env: LedgerEnv,
    ) -> Result<(LedgerState, (TokenTransfer, CollateralEventV1)), SettleError> {
        let line = if s.lines.contains_key(credit_line_id) {
            Some(s.lines[credit_line_id])
        } else {
            None
        };
        match self.plan_spec(line, cardholder, bank, amount) {
            Err(e) => Err(e),
            Ok(transfer) => match step_apply_repayment(s, credit_line_id, vault_address, payment_ref, amount, env) {
                Err(e) => Err(SettleError::Ledger(e)),
                Ok(p) => Ok((p.0, (transfer, p.1))),
            },
        }
    }

    /// Settle a repayment atomically. `ledger` is the credit ledger this vault
    /// is bound to and `vault_address` the vault's own address. On success the
    /// repayment is applied and the returned transfer (cardholder -> bank) is
    /// the one to execute in the same transaction; if that transfer fails, the
    /// ledger change must be discarded with it. On failure nothing changes.
    /// The cardholder must authorize the call.
    #[allow(clippy::too_many_arguments)]
    pub fn settle_repayment(
        &self,
        ledger: &mut CreditLedger,
        vault_address: Address,
        credit_line_id: Bytes32,
        cardholder: Address,
        bank: Address,
        payment_ref: Bytes32,
        amount: i128,
        env: LedgerEnv,
    ) -> (r: Result<(TokenTransfer, CollateralEventV1), SettleError>)
        requires
            old(ledger).wf(),
            old(ledger)@.seq_room_for(
                step_apply_repayment(old(ledger)@, credit_line_id, vault_address, payment_ref, amount, env),
            ),
            step_apply_repayment(old(ledger)@, credit_line_id, vault_address, payment_ref, amount, env) is Ok
                ==> repay_fits(old(ledger)@, credit_line_id, amount),
        ensures
            final(ledger).wf(),
            match self.settle_step(
                old(ledger)@,
                vault_address,
                credit_line_id,
                cardholder,
                bank,
                payment_ref,
                amount,
                env,
            ) {
                Ok(p) => r == Ok::<(TokenTransfer, CollateralEventV1), SettleError>(p.1) && final(ledger)@
                    == p.0,
                Err(e) => r == Err::<(TokenTransfer, CollateralEventV1), SettleError>(e) && final(ledger)@
                    == old(ledger)@,
            },
    {
        let line = match ledger.get_line(credit_line_id) {
            Ok(l) => Some(l),
            Err(_) => None,
        };
        let transfer = self.plan_settlement(line, cardholder, bank, amount)?;
        match ledger.apply_repayment(credit_line_id, vault_address, payment_ref, amount, env) {
            Ok(ev) => Ok((transfer, ev)),
            Err(e) => Err(SettleError::Ledger(e)),
        }
    }
}

/// A settlement pays only the line's own bank, moves exactly the repaid
/// amount of the vault's settlement asset from the cardholder, and the
/// ledger records exactly that amount against the line under the payment
/// reference.
pub proof fn law_settlement_pays_line_bank_exactly(
    vault: SettlementVault,
    s: LedgerState,
    vault_address: Address,
    credit_line_id: Bytes32,
    cardholder: Address,
    bank: Address,
    payment_ref: Bytes32,
    amount: i128,
    env: LedgerEnv,
)
    requires
        vault.settle_step(s, vault_address, credit_line_id, cardholder, bank, payment_ref, amount, env) is Ok,
    ensures
        ({
            let p = vault.settle_step(
                s,
                vault_address,
                credit_line_id,
                cardholder,
                bank,
                payment_ref,
                amount,
                env,
            )->Ok_0;
            let t = p.1.0;
            &&& t.to == s.lines[credit_line_id].bank
            &&& t.from == cardholder
            &&& t.amount == amount
            &&& vault.spec_settlement_token() == Some(t.token)
            &&& p.0.repayments[payment_ref].amount_applied == amount
            &&& p.0.repayments[payment_ref].credit_line_id == credit_line_id
            &&& p.0.lines[credit_line_id].drawn_balance == s.lines[credit_line_id].drawn_balance - amount
        }),
{
}

} // verus!
