//! The credit ledger: tri-party collateral control, secured credit lines,
//! default and enforcement, and enforcement readiness.
pub mod error;
pub mod types;
pub mod event;
pub mod state;
pub mod books;
pub mod laws;
pub mod operation_laws;
