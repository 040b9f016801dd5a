use vstd::prelude::*;

use crate::primitives::{Address, Bytes32};

verus! {

/// Lifecycle of a tri-party control framework.
#[derive(Clone, Copy, Debug, PartialEq, Eq, Structural)]
pub enum FrameworkStatus {
    Active,
    Terminated,
}

/// The tri-party legal and control perimeter for a facility (owner/pledgor,
/// bank/secured party, custodian), anchoring the hashes of the six governing
/// off-chain documents.
#[derive(Clone, Copy, Debug, PartialEq, Eq, Structural)]
pub struct ControlFramework {
    pub owner: Address,
    pub bank: Address,
    pub custodian: Address,
    pub facility_agreement_hash: Bytes32,
    pub pledge_agreement_hash: Bytes32,
    pub custody_agreement_hash: Bytes32,
    pub eligible_schedule_hash: Bytes32,
    pub margin_policy_hash: Bytes32,
    pub enforcement_waterfall_hash: Bytes32,
    pub status: FrameworkStatus,
}

/// Lifecycle of a vaulted gold position.
///
/// Free -> Selected (owner designates) -> Earmarked (custodian immobilizes)
/// -> Pledged (bank accepts) -> ReleasePending -> Released, or -> Enforced.
#[derive(Clone, Copy, Debug, PartialEq, Eq, Structural)]
pub enum PositionStatus {
    Free,
    Selected,
    Earmarked,
    Pledged,
    Enforced,
    ReleasePending,
    Released,
}

/// The owner's signed instruction to designate a registered position as
/// collateral.
#[derive(Clone, Copy, Debug, PartialEq, Eq, Structural)]
pub struct CollateralSelection {
    pub position_id: Bytes32,
    pub owner: Address,
    /// hash of the owner's signed collateral-request instruction
    pub request_hash: Bytes32,
}

/// A recorded repayment against a credit line, keyed by the payment reference.
#[derive(Clone, Copy, Debug, PartialEq, Eq, Structural)]
pub struct RepaymentRecord {
    pub credit_line_id: Bytes32,
    pub amount_applied: i128,
    pub applied_at_ledger: u32,
}

/// A recorded card drawdown, keyed by the authorization reference. A reversed
/// drawdown is kept, marked `reversed`.
#[derive(Clone, Copy, Debug, PartialEq, Eq, Structural)]
pub struct DrawdownRecord {
    pub credit_line_id: Bytes32,
    pub amount: i128,
    pub drawn_at_ledger: u32,
    pub reversed: bool,
}

/// The kind of collateral adjustment an owner can request on a live facility.
#[derive(Clone, Copy, Debug, PartialEq, Eq, Structural)]
pub enum AdjustmentType {
    TopUp,
    Substitution,
    PartialRelease,
}

/// State machine of a collateral-adjustment request.
#[derive(Clone, Copy, Debug, PartialEq, Eq, Structural)]
pub enum AdjustmentStatus {
    Requested,
    CustodianConfirmed,
    Approved,
    Rejected,
}

/// A collateral-adjustment request on a live credit line, carrying the
/// proposed new collateral schedule.
#[derive(Clone, Copy, Debug, PartialEq, Eq, Structural)]
pub struct CollateralAdjustment {
    pub credit_line_id: Bytes32,
    pub adjustment_type: AdjustmentType,
    /// proposed new barlist commitment
    pub new_barlist_hash: Bytes32,
    /// proposed new serials commitment (the bar-set uniqueness key)
    pub new_serials_hash: Bytes32,
    /// proposed new fine weight in troy ounces, scaled by 1e7
    pub new_weight_oz_e7: i128,
    /// hash of the owner's signed adjustment-request instruction
    pub request_hash: Bytes32,
    pub status: AdjustmentStatus,
}

/// Lifecycle of the pledge that locks a position to a bank.
#[derive(Clone, Copy, Debug, PartialEq, Eq, Structural)]
pub enum PledgeStatus {
    Active,
    /// The bank released its security interest; the custodian has not yet
    /// returned possession.
    ReleaseAuthorized,
    Released,
    Defaulted,
    Enforced,
}

/// Lifecycle of the credit line secured by a pledge.
#[derive(Clone, Copy, Debug, PartialEq, Eq, Structural)]
pub enum LineStatus {
    Active,
    Suspended,
    Defaulted,
    Closed,
}

/// Readiness of a facility's enforcement / realization path.
#[derive(Clone, Copy, Debug, PartialEq, Eq, Structural)]
pub enum ReadinessStatus {
    Incomplete,
    Ready,
    Expired,
}

/// The enforcement-readiness record for a credit line.
#[derive(Clone, Copy, Debug, PartialEq, Eq, Structural)]
pub struct EnforcementReadiness {
    pub credit_line_id: Bytes32,
    pub status: ReadinessStatus,
    pub liquidation_agent: Address,
    pub realization_route_hash: Bytes32,
    pub settlement_asset: Address,
    pub valuation_source_hash: Bytes32,
    pub waterfall_hash: Bytes32,
    pub valid_until_ledger: u32,
    /// bumped on each populate
    pub version: u32,
}

/// Roles recognised by the access-control registry.
#[derive(Clone, Copy, Debug, PartialEq, Eq, Structural)]
pub enum Role {
    Admin,
    Bank,
    Custodian,
    Processor,
    Valuation,
    /// The bound settlement vault.
    Vault,
    /// The asset owner / pledgor: named on events, never granted.
    Owner,
}

/// Lifecycle of an instrument in the registry.
#[derive(Clone, Copy, Debug, PartialEq, Eq, Structural)]
pub enum InstrumentStatus {
    Active,
    Retired,
}

/// Lifecycle of a per-framework instrument eligibility record.
#[derive(Clone, Copy, Debug, PartialEq, Eq, Structural)]
pub enum EligibilityStatus {
    Active,
    Retired,
}

/// An attested vaulted-gold position.
#[derive(Clone, Copy, Debug, PartialEq, Eq, Structural)]
pub struct VaultPosition {
    pub owner: Address,
    pub custodian: Address,
    /// the control framework this position is registered under
    pub framework_id: Bytes32,
    /// hash of the off-chain bar list
    pub barlist_hash: Bytes32,
    /// hash of the bar serials: the uniqueness key of the bar set
    pub serials_hash: Bytes32,
    /// fine weight in troy ounces, scaled by 1e7
    pub fine_weight_oz_e7: i128,
    /// ledger sequence after which the custody attestation is stale
    pub attestation_expiry: u32,
    pub status: PositionStatus,
}

/// The outcome of enforcing the security after an uncured default.
#[derive(Clone, Copy, Debug, PartialEq, Eq, Structural)]
pub enum EnforcementOutcome {
    Sold,
    Appropriated,
    Transferred,
}

/// Margin state of a credit line after the latest revaluation.
#[derive(Clone, Copy, Debug, PartialEq, Eq, Structural)]
pub enum MarginState {
    Covered,
    Warning,
    Called,
}

/// The latest revaluation of a credit line.
#[derive(Clone, Copy, Debug, PartialEq, Eq, Structural)]
pub struct LineValuation {
    /// price per troy ounce, scaled by 1e7, last acted on
    pub price_per_oz_e7: i128,
    /// confidence (half-width) of that price, scaled by 1e7
    pub confidence_e7: i128,
    /// source publish time of the price (unix seconds)
    pub priced_at: u64,
    /// ledger sequence at which this revaluation was recorded
    pub valued_at_ledger: u32,
    /// advance base (collateral value at the advance rate) at that price
    pub borrowing_base: i128,
    pub margin_state: MarginState,
}

/// The tri-party control agreement the custodian acted under when it
/// immobilized a position.
#[derive(Clone, Copy, Debug, PartialEq, Eq, Structural)]
pub struct CustodyControl {
    pub position_id: Bytes32,
    pub custodian: Address,
    pub control_agreement_hash: Bytes32,
    pub status: PositionStatus,
}

/// A pledge locks a specific position to a specific secured party (bank).
#[derive(Clone, Copy, Debug, PartialEq, Eq, Structural)]
pub struct Pledge {
    pub position_id: Bytes32,
    pub pledgor: Address,
    pub bank: Address,
    pub legal_terms_hash: Bytes32,
    pub status: PledgeStatus,
}

/// The secured-debt position. Amounts are minor units of the line's currency.
#[derive(Clone, Copy, Debug, PartialEq, Eq, Structural)]
pub struct CreditLine {
    pub pledge_id: Bytes32,
    pub bank: Address,
    pub cardholder: Address,
    pub approved_limit: i128,
    pub drawn_balance: i128,
    pub available_limit: i128,
    /// advance rate in basis points
    pub ltv_bps: u32,
    /// maintenance threshold in basis points
    pub maintenance_bps: u32,
    /// ledger sequence after which an open default may be enforced; 0 when
    /// not in default
    pub cure_expiry_ledger: u32,
    /// set by a deliberate bank stop; only the bank clears it
    pub manual_bank_suspension: bool,
    pub status: LineStatus,
}

/// A role granted to a party: the key of the approval registry.
#[derive(Clone, Copy, Debug, PartialEq, Eq, Structural)]
pub struct Grant {
    pub party: Address,
    pub role: Role,
}

/// The ledger clock an operation runs at.
#[derive(Clone, Copy, Debug, PartialEq, Eq, Structural)]
pub struct LedgerEnv {
    /// ledger sequence number
    pub sequence: u32,
    /// ledger close time, unix seconds
    pub timestamp: u64,
}

} // verus!
