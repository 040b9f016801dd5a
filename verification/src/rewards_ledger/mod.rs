//! The rewards ledger: sponsor-funded campaigns that turn eligible card spend
//! into rewards redeemed as allocated gold.
pub mod error;
pub mod types;
pub mod state;
pub mod laws;
pub mod operation_laws;
