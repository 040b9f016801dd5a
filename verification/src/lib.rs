//! Collateral-control, rewards and settlement ledgers for gold-backed
//! obligations, written as verified state machines.
//!
//! Each ledger is a value that holds its whole state; every operation checks
//! its inputs in a fixed order, refuses with a typed error, or applies one
//! transition and returns the record of what it did.

pub mod primitives;
pub mod table;
pub mod credit_ledger;
pub mod settlement_vault;
pub mod rewards_ledger;
