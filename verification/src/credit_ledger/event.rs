//! The canonical, replayable evidence record (`CollateralEventV1`) that every
//! committed control act returns.
use vstd::prelude::*;

use crate::primitives::{Address, Bytes32};
use super::types::{
    AdjustmentStatus, AdjustmentType, EnforcementOutcome, LineStatus, MarginState, PledgeStatus,
    PositionStatus, ReadinessStatus, Role,
};

verus! {

/// The entity kind an event acts on.
#[derive(Clone, Copy, Debug, PartialEq, Eq, Structural)]
pub enum EntityKind {
    Framework,
    Position,
    Pledge,
    Line,
    Drawdown,
    Repayment,
    Valuation,
    Adjustment,
    Release,
    Default,
    Enforcement,
    Readiness,
}

/// The specific control act an event records.
#[derive(Clone, Copy, Debug, PartialEq, Eq, Structural)]
pub enum CollateralAction {
    FrameworkRegistered,
    PositionRegistered,
    CollateralSelected,
    CollateralImmobilized,
    PledgeActivated,
    LineOpened,
    DrawdownRecorded,
    DrawdownReversed,
    RepaymentApplied,
    LineRevalued,
    LineSuspendedByBank,
    LineResumedByBank,
    AdjustmentRequested,
    AdjustmentCustodianConfirmed,
    AdjustmentApproved,
    ReleaseAuthorized,
    ReleaseConfirmed,
    DefaultNoticeIssued,
    DefaultCured,
    EnforcementRecorded,
    ReadinessOpened,
    ReadinessPopulated,
    ReadinessExpired,
}

/// One uniform label for the previous/new state of any entity. `Null` is "no
/// prior state".
#[derive(Clone, Copy, Debug, PartialEq, Eq, Structural)]
pub enum StateLabel {
    Null,
    FrameworkActive,
    PositionFree,
    PositionSelected,
    PositionEarmarked,
    PositionPledged,
    PositionReleasePending,
    PositionReleased,
    PositionEnforced,
    PledgeActive,
    PledgeReleaseAuthorized,
    PledgeReleased,
    PledgeDefaulted,
    PledgeEnforced,
    LineActive,
    LineSuspended,
    LineDefaulted,
    LineClosed,
    MarginCovered,
    MarginWarning,
    MarginCalled,
    AdjustmentRequested,
    AdjustmentCustodianConfirmed,
    AdjustmentApproved,
    AdjustmentRejected,
    ReadinessIncomplete,
    ReadinessReady,
    ReadinessExpired,
}

pub open spec fn position_label(s: PositionStatus) -> StateLabel {
    match s {
        PositionStatus::Free => StateLabel::PositionFree,
        PositionStatus::Selected => StateLabel::PositionSelected,
        PositionStatus::Earmarked => StateLabel::PositionEarmarked,
        PositionStatus::Pledged => StateLabel::PositionPledged,
        PositionStatus::Enforced => StateLabel::PositionEnforced,
        PositionStatus::ReleasePending => StateLabel::PositionReleasePending,
        PositionStatus::Released => StateLabel::PositionReleased,
    }
}

pub open spec fn pledge_label(s: PledgeStatus) -> StateLabel {
    match s {
        PledgeStatus::Active => StateLabel::PledgeActive,
        PledgeStatus::ReleaseAuthorized => StateLabel::PledgeReleaseAuthorized,
        PledgeStatus::Released => StateLabel::PledgeReleased,
        PledgeStatus::Defaulted => StateLabel::PledgeDefaulted,
        PledgeStatus::Enforced => StateLabel::PledgeEnforced,
    }
}

pub open spec fn line_label(s: LineStatus) -> StateLabel {
    match s {
        LineStatus::Active => StateLabel::LineActive,
        LineStatus::Suspended => StateLabel::LineSuspended,
        LineStatus::Defaulted => StateLabel::LineDefaulted,
        LineStatus::Closed => StateLabel::LineClosed,
    }
}

pub open spec fn margin_label(s: MarginState) -> StateLabel {
    match s {
        MarginState::Covered => StateLabel::MarginCovered,
        MarginState::Warning => StateLabel::MarginWarning,
        MarginState::Called => StateLabel::MarginCalled,
    }
}

pub open spec fn adjustment_label(s: AdjustmentStatus) -> StateLabel {
    match s {
        AdjustmentStatus::Requested => StateLabel::AdjustmentRequested,
        AdjustmentStatus::CustodianConfirmed => StateLabel::AdjustmentCustodianConfirmed,
        AdjustmentStatus::Approved => StateLabel::AdjustmentApproved,
        AdjustmentStatus::Rejected => StateLabel::AdjustmentRejected,
    }
}

pub open spec fn readiness_label(s: ReadinessStatus) -> StateLabel {
    match s {
        ReadinessStatus::Incomplete => StateLabel::ReadinessIncomplete,
        ReadinessStatus::Ready => StateLabel::ReadinessReady,
        ReadinessStatus::Expired => StateLabel::ReadinessExpired,
    }
}

impl StateLabel {
    pub fn from_position(s: PositionStatus) -> (r: StateLabel)
        ensures
            r == position_label(s),
    {
        match s {
            PositionStatus::Free => StateLabel::PositionFree,
            PositionStatus::Selected => StateLabel::PositionSelected,
            PositionStatus::Earmarked => StateLabel::PositionEarmarked,
            PositionStatus::Pledged => StateLabel::PositionPledged,
            PositionStatus::Enforced => StateLabel::PositionEnforced,
            PositionStatus::ReleasePending => StateLabel::PositionReleasePending,
            PositionStatus::Released => StateLabel::PositionReleased,
        }
    }

    pub fn from_pledge(s: PledgeStatus) -> (r: StateLabel)
        ensures
            r == pledge_label(s),
    {
        match s {
            PledgeStatus::Active => StateLabel::PledgeActive,
            PledgeStatus::ReleaseAuthorized => StateLabel::PledgeReleaseAuthorized,
            PledgeStatus::Released => StateLabel::PledgeReleased,
            PledgeStatus::Defaulted => StateLabel::PledgeDefaulted,
            PledgeStatus::Enforced => StateLabel::PledgeEnforced,
        }
    }

    pub fn from_line(s: LineStatus) -> (r: StateLabel)
        ensures
            r == line_label(s),
    {
        match s {
            LineStatus::Active => StateLabel::LineActive,
            LineStatus::Suspended => StateLabel::LineSuspended,
            LineStatus::Defaulted => StateLabel::LineDefaulted,
            LineStatus::Closed => StateLabel::LineClosed,
        }
    }

    pub fn from_margin(s: MarginState) -> (r: StateLabel)
        ensures
            r == margin_label(s),
    {
        match s {
            MarginState::Covered => StateLabel::MarginCovered,
            MarginState::Warning => StateLabel::MarginWarning,
            MarginState::Called => StateLabel::MarginCalled,
        }
    }

    pub fn from_adjustment(s: AdjustmentStatus) -> (r: StateLabel)
        ensures
            r == adjustment_label(s),
    {
        match s {
            AdjustmentStatus::Requested => StateLabel::AdjustmentRequested,
            AdjustmentStatus::CustodianConfirmed => StateLabel::AdjustmentCustodianConfirmed,
            AdjustmentStatus::Approved => StateLabel::AdjustmentApproved,
            AdjustmentStatus::Rejected => StateLabel::AdjustmentRejected,
        }
    }

    pub fn from_readiness(s: ReadinessStatus) -> (r: StateLabel)
        ensures
            r == readiness_label(s),
    {
        match s {
            ReadinessStatus::Incomplete => StateLabel::ReadinessIncomplete,
            ReadinessStatus::Ready => StateLabel::ReadinessReady,
            ReadinessStatus::Expired => StateLabel::ReadinessExpired,
        }
    }
}

/// Resolves a facility-level id (pledge, line, adjustment) to its framework,
/// position and pledge.
#[derive(Clone, Copy, Debug, PartialEq, Eq, Structural)]
pub struct FacilityContext {
    pub framework_id: Bytes32,
    pub position_id: Bytes32,
    pub pledge_id: Bytes32,
}

/// Payload for FrameworkRegistered.
#[derive(Clone, Copy, Debug, PartialEq, Eq, Structural)]
pub struct FrameworkRegisteredData {
    pub owner: Address,
    pub bank: Address,
    pub custodian: Address,
    pub facility_agreement_hash: Bytes32,
    pub pledge_agreement_hash: Bytes32,
    pub custody_agreement_hash: Bytes32,
    pub eligible_schedule_hash: Bytes32,
    pub margin_policy_hash: Bytes32,
    pub enforcement_waterfall_hash: Bytes32,
}

/// Payload for DefaultNoticeIssued.
#[derive(Clone, Copy, Debug, PartialEq, Eq, Structural)]
pub struct DefaultNoticeData {
    pub cure_deadline_ledger: u32,
    pub notice_hash: Bytes32,
}

/// A single-hash payload; its meaning is fixed by the event's action.
#[derive(Clone, Copy, Debug, PartialEq, Eq, Structural)]
pub struct HashData {
    pub hash: Bytes32,
}

/// Payload for PositionRegistered.
#[derive(Clone, Copy, Debug, PartialEq, Eq, Structural)]
pub struct PositionRegisteredData {
    pub owner: Address,
    pub custodian: Address,
    pub barlist_hash: Bytes32,
    pub serials_hash: Bytes32,
    pub fine_weight_oz_e7: i128,
    pub attestation_expiry: u32,
}

/// Payload for LineOpened.
#[derive(Clone, Copy, Debug, PartialEq, Eq, Structural)]
pub struct LineOpenedData {
    pub approved_limit: i128,
    pub ltv_bps: u32,
    pub maintenance_bps: u32,
    pub price_per_oz_e7: i128,
}

/// Payload for balance-moving acts: the amount moved and the balances after.
#[derive(Clone, Copy, Debug, PartialEq, Eq, Structural)]
pub struct BalanceMoveData {
    pub amount: i128,
    pub drawn_after: i128,
    pub available_after: i128,
}

/// Payload for LineRevalued.
#[derive(Clone, Copy, Debug, PartialEq, Eq, Structural)]
pub struct RevaluedData {
    pub price_per_oz_e7: i128,
    pub confidence_e7: i128,
    pub margin_state: MarginState,
    pub drawn_balance: i128,
    pub advance_base: i128,
    pub available_after: i128,
}

/// Payload for EnforcementRecorded.
#[derive(Clone, Copy, Debug, PartialEq, Eq, Structural)]
pub struct EnforcementData {
    pub outcome: EnforcementOutcome,
    pub legal_instrument_hash: Bytes32,
}

/// Payload for AdjustmentApproved.
#[derive(Clone, Copy, Debug, PartialEq, Eq, Structural)]
pub struct AdjustmentApprovedData {
    pub adjustment_type: AdjustmentType,
    pub new_barlist_hash: Bytes32,
    pub new_serials_hash: Bytes32,
    pub new_weight_oz_e7: i128,
    pub price_per_oz_e7: i128,
}

/// Payload for ReadinessPopulated.
#[derive(Clone, Copy, Debug, PartialEq, Eq, Structural)]
pub struct ReadinessPopulatedData {
    pub liquidation_agent: Address,
    pub realization_route_hash: Bytes32,
    pub settlement_asset: Address,
    pub valuation_source_hash: Bytes32,
    pub waterfall_hash: Bytes32,
    pub valid_until_ledger: u32,
    pub version: u32,
    pub status: ReadinessStatus,
}

/// Typed payload of a `CollateralEventV1`.
#[derive(Clone, Copy, Debug, PartialEq, Eq, Structural)]
pub enum CollateralPayloadV1 {
    FrameworkRegistered(FrameworkRegisteredData),
    PositionRegistered(PositionRegisteredData),
    LineOpened(LineOpenedData),
    BalanceMove(BalanceMoveData),
    Revalued(RevaluedData),
    Enforcement(EnforcementData),
    AdjustmentApproved(AdjustmentApprovedData),
    ReadinessPopulated(ReadinessPopulatedData),
    DefaultNotice(DefaultNoticeData),
    Hash(HashData),
}

/// The canonical, replayable evidence record for one committed control act.
/// `sequence` is framework-scoped, starts at 1 and has no gaps.
#[derive(Clone, Copy, Debug, PartialEq, Eq, Structural)]
pub struct CollateralEventV1 {
    pub framework_id: Bytes32,
    pub entity: EntityKind,
    pub action: CollateralAction,
    pub sequence: u64,
    pub actor: Address,
    pub role: Role,
    pub position_id: Bytes32,
    pub pledge_id: Bytes32,
    pub credit_line_id: Bytes32,
    pub adjustment_id: Bytes32,
    pub previous_state: StateLabel,
    pub new_state: StateLabel,
    pub evidence_hash: Bytes32,
    pub condition_hash: Bytes32,
    pub valuation_ref: Bytes32,
    pub occurred_ledger: u32,
    pub payload: CollateralPayloadV1,
}

} // verus!
