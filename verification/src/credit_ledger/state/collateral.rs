//! Control frameworks, positions, the owner's selection, the custodian's
//! immobilization and the pledge.
use vstd::prelude::*;

use crate::primitives::{Address, Bytes32};
use crate::credit_ledger::error::Error;
use crate::credit_ledger::event::{
    CollateralAction, CollateralEventV1, CollateralPayloadV1, EntityKind, FacilityContext,
    FrameworkRegisteredData, HashData, PositionRegisteredData, StateLabel,
};
use crate::credit_ledger::types::{
    CollateralSelection, ControlFramework, CustodyControl, FrameworkStatus, LedgerEnv, Pledge,
    PledgeStatus, PositionStatus, Role, VaultPosition,
};
use super::{event_template, outcome, CreditLedger, LedgerState};

verus! {

pub open spec fn step_register_framework(
    s: LedgerState,
    framework_id: Bytes32,
    owner: Address,
    bank: Address,
    custodian: Address,
    facility_agreement_hash: Bytes32,
    pledge_agreement_hash: Bytes32,
    custody_agreement_hash: Bytes32,
    eligible_schedule_hash: Bytes32,
    margin_policy_hash: Bytes32,
    enforcement_waterfall_hash: Bytes32,
    env: LedgerEnv,
) -> Result<(LedgerState, CollateralEventV1), Error> {
    if !s.approved(bank, Role::Bank) {
        Err(Error::PartyNotApproved)
    } else if !s.approved(custodian, Role::Custodian) {
        Err(Error::PartyNotApproved)
    } else if s.frameworks.contains_key(framework_id) {
        Err(Error::FrameworkExists)
    } else if facility_agreement_hash.spec_is_zero() || pledge_agreement_hash.spec_is_zero()
        || custody_agreement_hash.spec_is_zero() || eligible_schedule_hash.spec_is_zero()
        || margin_policy_hash.spec_is_zero() || enforcement_waterfall_hash.spec_is_zero() {
        Err(Error::InvalidDocumentHash)
    } else {
        let framework = ControlFramework {
            owner,
            bank,
            custodian,
            facility_agreement_hash,
            pledge_agreement_hash,
            custody_agreement_hash,
            eligible_schedule_hash,
            margin_policy_hash,
            enforcement_waterfall_hash,
            status: FrameworkStatus::Active,
        };
        let zero = Bytes32::spec_zero();
        let s1 = LedgerState { frameworks: s.frameworks.insert(framework_id, framework), ..s };
        Ok(
            s1.emit(
                event_template(
                    framework_id,
                    EntityKind::Framework,
                    CollateralAction::FrameworkRegistered,
                    owner,
                    Role::Owner,
                    zero,
                    zero,
                    zero,
                    zero,
                    StateLabel::Null,
                    StateLabel::FrameworkActive,
                    facility_agreement_hash,
                    zero,
                    CollateralPayloadV1::FrameworkRegistered(
                        FrameworkRegisteredData {
                            owner,
                            bank,
                            custodian,
                            facility_agreement_hash,
                            pledge_agreement_hash,
                            custody_agreement_hash,
                            eligible_schedule_hash,
                            margin_policy_hash,
                            enforcement_waterfall_hash,
                        },
                    ),
                ),
                env,
            ),
        )
    }
}

pub open spec fn step_register_position(
    s: LedgerState,
    position_id: Bytes32,
    framework_id: Bytes32,
    owner: Address,
    custodian: Address,
    barlist_hash: Bytes32,
    serials_hash: Bytes32,
    fine_weight_oz_e7: i128,
    attestation_expiry: u32,
    env: LedgerEnv,
) -> Result<(LedgerState, CollateralEventV1), Error> {
    if !s.approved(custodian, Role::Custodian) {
        Err(Error::PartyNotApproved)
    } else if s.active_framework(framework_id) is Err {
        Err(Error::FrameworkNotActive)
    } else if s.frameworks[framework_id].owner != owner || s.frameworks[framework_id].custodian
        != custodian {
        Err(Error::FrameworkPartyMismatch)
    } else if s.positions.contains_key(position_id) {
        Err(Error::PositionExists)
    } else if barlist_hash.spec_is_zero() || serials_hash.spec_is_zero() {
        Err(Error::InvalidDocumentHash)
    } else if s.bar_sets.contains_key(serials_hash) {
        Err(Error::BarSetAlreadyActive)
    } else if attestation_expiry < env.sequence {
        Err(Error::AttestationStale)
    } else if fine_weight_oz_e7 <= 0 {
        Err(Error::AmountNotPositive)
    } else {
        let pos = VaultPosition {
            owner,
            custodian,
            framework_id,
            barlist_hash,
            serials_hash,
            fine_weight_oz_e7,
            attestation_expiry,
            status: PositionStatus::Free,
        };
        let zero = Bytes32::spec_zero();
        let s1 = LedgerState {
            positions: s.positions.insert(position_id, pos),
            bar_sets: s.bar_sets.insert(serials_hash, position_id),
            ctx_position: s.ctx_position.insert(position_id, framework_id),
            ..s
        };
        Ok(
            s1.emit(
                event_template(
                    framework_id,
                    EntityKind::Position,
                    CollateralAction::PositionRegistered,
                    custodian,
                    Role::Custodian,
                    position_id,
                    zero,
                    zero,
                    zero,
                    StateLabel::Null,
                    StateLabel::PositionFree,
                    barlist_hash,
                    zero,
                    CollateralPayloadV1::PositionRegistered(
                        PositionRegisteredData {
                            owner,
                            custodian,
                            barlist_hash,
                            serials_hash,
                            fine_weight_oz_e7,
                            attestation_expiry,
                        },
                    ),
                ),
                env,
            ),
        )
    }
}

/// The framework a position's events are sequenced under.
pub open spec fn position_framework(s: LedgerState, position_id: Bytes32) -> Bytes32 {
    if s.ctx_position.contains_key(position_id) {
        s.ctx_position[position_id]
    } else {
        s.positions[position_id].framework_id
    }
}

pub open spec fn step_select_bars(
    s: LedgerState,
    position_id: Bytes32,
    owner: Address,
    request_hash: Bytes32,
    env: LedgerEnv,
) -> Result<(LedgerState, CollateralEventV1), Error> {
    if !s.positions.contains_key(position_id) {
        Err(Error::PositionNotFound)
    } else if s.positions[position_id].owner != owner {
        Err(Error::NotAuthorized)
    } else if s.positions[position_id].status != PositionStatus::Free {
        Err(Error::PositionNotFree)
    } else if s.positions[position_id].attestation_expiry < env.sequence {
        Err(Error::AttestationStale)
    } else if request_hash.spec_is_zero() {
        Err(Error::InvalidDocumentHash)
    } else {
        let pos = VaultPosition { status: PositionStatus::Selected, ..s.positions[position_id] };
        let selection = CollateralSelection { position_id, owner, request_hash };
        let zero = Bytes32::spec_zero();
        let s1 = LedgerState {
            positions: s.positions.insert(position_id, pos),
            selections: s.selections.insert(position_id, selection),
            ..s
        };
        Ok(
            s1.emit(
                event_template(
                    position_framework(s, position_id),
                    EntityKind::Position,
                    CollateralAction::CollateralSelected,
                    owner,
                    Role::Owner,
                    position_id,
                    zero,
                    zero,
                    zero,
                    StateLabel::PositionFree,
                    StateLabel::PositionSelected,
                    request_hash,
                    zero,
                    CollateralPayloadV1::Hash(HashData { hash: request_hash }),
                ),
                env,
            ),
        )
    }
}

pub open spec fn step_confirm_and_immobilize(
    s: LedgerState,
    position_id: Bytes32,
    custodian: Address,
    control_agreement_hash: Bytes32,
    env: LedgerEnv,
) -> Result<(LedgerState, CollateralEventV1), Error> {
    if !s.approved(custodian, Role::Custodian) {
        Err(Error::PartyNotApproved)
    } else if !s.positions.contains_key(position_id) {
        Err(Error::PositionNotFound)
    } else if s.positions[position_id].custodian != custodian {
        Err(Error::NotAuthorized)
    } else if s.positions[position_id].status != PositionStatus::Selected {
        Err(Error::PositionNotSelected)
    } else if s.positions[position_id].attestation_expiry < env.sequence {
        Err(Error::AttestationStale)
    } else if control_agreement_hash.spec_is_zero() {
        Err(Error::InvalidDocumentHash)
    } else {
        let pos = VaultPosition { status: PositionStatus::Earmarked, ..s.positions[position_id] };
        let control = CustodyControl {
            position_id,
            custodian,
            control_agreement_hash,
            status: PositionStatus::Earmarked,
        };
        let zero = Bytes32::spec_zero();
        let s1 = LedgerState {
            positions: s.positions.insert(position_id, pos),
            controls: s.controls.insert(position_id, control),
            ..s
        };
        Ok(
            s1.emit(
                event_template(
                    position_framework(s, position_id),
                    EntityKind::Position,
                    CollateralAction::CollateralImmobilized,
                    custodian,
                    Role::Custodian,
                    position_id,
                    zero,
                    zero,
                    zero,
                    StateLabel::PositionSelected,
                    StateLabel::PositionEarmarked,
                    control_agreement_hash,
                    zero,
                    CollateralPayloadV1::Hash(HashData { hash: control_agreement_hash }),
                ),
                env,
            ),
        )
    }
}

pub open spec fn step_activate_pledge(
    s: LedgerState,
    pledge_id: Bytes32,
    position_id: Bytes32,
    owner: Address,
    bank: Address,
    legal_terms_hash: Bytes32,
    env: LedgerEnv,
) -> Result<(LedgerState, CollateralEventV1), Error> {
    if s.pledges.contains_key(pledge_id) {
        Err(Error::PledgeExists)
    } else if !s.approved(bank, Role::Bank) {
        Err(Error::PartyNotApproved)
    } else if !s.positions.contains_key(position_id) {
        Err(Error::PositionNotFound)
    } else if s.positions[position_id].owner != owner {
        Err(Error::NotAuthorized)
    } else if s.active_framework(s.positions[position_id].framework_id) is Err {
        Err(Error::FrameworkNotActive)
    } else if s.frameworks[s.positions[position_id].framework_id].bank != bank {
        Err(Error::FrameworkPartyMismatch)
    } else if s.positions[position_id].status != PositionStatus::Earmarked {
        Err(Error::PositionNotEarmarked)
    } else if s.positions[position_id].attestation_expiry < env.sequence {
        Err(Error::AttestationStale)
    } else {
        let framework_id = s.positions[position_id].framework_id;
        let pos = VaultPosition { status: PositionStatus::Pledged, ..s.positions[position_id] };
        let pledge = Pledge {
            position_id,
            pledgor: owner,
            bank,
            legal_terms_hash,
            status: PledgeStatus::Active,
        };
        let ctx = FacilityContext { framework_id, position_id, pledge_id };
        let zero = Bytes32::spec_zero();
        let s1 = LedgerState {
            positions: s.positions.insert(position_id, pos),
            pledges: s.pledges.insert(pledge_id, pledge),
            ctx_pledge: s.ctx_pledge.insert(pledge_id, ctx),
            ..s
        };
        Ok(
            s1.emit(
                event_template(
                    framework_id,
                    EntityKind::Pledge,
                    CollateralAction::PledgeActivated,
                    bank,
                    Role::Bank,
                    position_id,
                    pledge_id,
                    zero,
                    zero,
                    StateLabel::PositionEarmarked,
                    StateLabel::PledgeActive,
                    legal_terms_hash,
                    zero,
                    CollateralPayloadV1::Hash(HashData { hash: legal_terms_hash }),
                ),
                env,
            ),
        )
    }
}

impl CreditLedger {
    /// Establish the tri-party control framework binding owner, bank and
    /// custodian to the six governing documents. All three parties sign; the
    /// bank and custodian must be approved; no document hash may be zero.
    #[allow(clippy::too_many_arguments)]
    pub fn register_framework(
        &mut self,
        framework_id: Bytes32,
        owner: Address,
        bank: Address,
        custodian: Address,
        facility_agreement_hash: Bytes32,
        pledge_agreement_hash: Bytes32,
        custody_agreement_hash: Bytes32,
        eligible_schedule_hash: Bytes32,
        margin_policy_hash: Bytes32,
        enforcement_waterfall_hash: Bytes32,
        env: LedgerEnv,
    ) -> (r: Result<CollateralEventV1, Error>)
        requires
            old(self).wf(),
            old(self)@.seq_room_for(
                step_register_framework(
                    old(self)@,
                    framework_id,
                    owner,
                    bank,
                    custodian,
                    facility_agreement_hash,
                    pledge_agreement_hash,
                    custody_agreement_hash,
                    eligible_schedule_hash,
                    margin_policy_hash,
                    enforcement_waterfall_hash,
                    env,
                ),
            ),
        ensures
            final(self).wf(),
            outcome(
                old(self)@,
                final(self)@,
                r,
                step_register_framework(
                    old(self)@,
                    framework_id,
                    owner,
                    bank,
                    custodian,
                    facility_agreement_hash,
                    pledge_agreement_hash,
                    custody_agreement_hash,
                    eligible_schedule_hash,
                    margin_policy_hash,
                    enforcement_waterfall_hash,
                    env,
                ),
            ),
    {
        if !self.is_approved(bank, Role::Bank) {
            return Err(Error::PartyNotApproved);
        }
        if !self.is_approved(custodian, Role::Custodian) {
            return Err(Error::PartyNotApproved);
        }
        if self.frameworks.contains(&framework_id) {
            return Err(Error::FrameworkExists);
        }
        if facility_agreement_hash.is_zero() || pledge_agreement_hash.is_zero()
            || custody_agreement_hash.is_zero() || eligible_schedule_hash.is_zero()
            || margin_policy_hash.is_zero() || enforcement_waterfall_hash.is_zero() {
            return Err(Error::InvalidDocumentHash);
        }
        let framework = ControlFramework {
            owner,
            bank,
            custodian,
            facility_agreement_hash,
            pledge_agreement_hash,
            custody_agreement_hash,
            eligible_schedule_hash,
            margin_policy_hash,
            enforcement_waterfall_hash,
            status: FrameworkStatus::Active,
        };
        self.frameworks.set(framework_id, framework);
        let zero = Bytes32::zero();
        let ev = Self::template(
            framework_id,
            EntityKind::Framework,
            CollateralAction::FrameworkRegistered,
            owner,
            Role::Owner,
            zero,
            zero,
            zero,
            zero,
            StateLabel::Null,
            StateLabel::FrameworkActive,
            facility_agreement_hash,
            zero,
            CollateralPayloadV1::FrameworkRegistered(
                FrameworkRegisteredData {
                    owner,
                    bank,
                    custodian,
                    facility_agreement_hash,
                    pledge_agreement_hash,
                    custody_agreement_hash,
                    eligible_schedule_hash,
                    margin_policy_hash,
                    enforcement_waterfall_hash,
                },
            ),
        );
        let ghost s1 = self@;
        let out = self.emit(ev, env);
        proof {
            let expected = step_register_framework(
                old(self)@,
                framework_id,
                owner,
                bank,
                custodian,
                facility_agreement_hash,
                pledge_agreement_hash,
                custody_agreement_hash,
                eligible_schedule_hash,
                margin_policy_hash,
                enforcement_waterfall_hash,
                env,
            );
            assert(s1 =~= LedgerState {
                frameworks: old(self)@.frameworks.insert(framework_id, framework),
                ..old(self)@
            });
            assert(expected == Ok::<(LedgerState, CollateralEventV1), Error>((self@, out)));
        }
        Ok(out)
    }

    /// Read a control framework.
    pub fn get_framework(&self, framework_id: Bytes32) -> (r: Result<ControlFramework, Error>)
        requires
            self.wf(),
        ensures
            r == (if self@.frameworks.contains_key(framework_id) {
                Ok::<ControlFramework, Error>(self@.frameworks[framework_id])
            } else {
                Err(Error::FrameworkNotActive)
            }),
    {
        match self.frameworks.get(&framework_id) {
            Some(f) => Ok(f),
            None => Err(Error::FrameworkNotActive),
        }
    }
}


impl CreditLedger {
    /// Register an attested vaulted-gold position under an active framework
    /// whose owner and custodian it names. Owner and custodian sign. The bar
    /// serials must not be held by another live position.
    #[allow(clippy::too_many_arguments)]
    pub fn register_position(
        &mut self,
        position_id: Bytes32,
        framework_id: Bytes32,
        owner: Address,
        custodian: Address,
        barlist_hash: Bytes32,
        serials_hash: Bytes32,
        fine_weight_oz_e7: i128,
        attestation_expiry: u32,
        env: LedgerEnv,
    ) -> (r: Result<CollateralEventV1, Error>)
        requires
            old(self).wf(),
            old(self)@.seq_room_for(
                step_register_position(
                    old(self)@,
                    position_id,
                    framework_id,
                    owner,
                    custodian,
                    barlist_hash,
                    serials_hash,
                    fine_weight_oz_e7,
                    attestation_expiry,
                    env,
                ),
            ),
        ensures
            final(self).wf(),
            outcome(
                old(self)@,
                final(self)@,
                r,
                step_register_position(
                    old(self)@,
                    position_id,
                    framework_id,
                    owner,
                    custodian,
                    barlist_hash,
                    serials_hash,
                    fine_weight_oz_e7,
                    attestation_expiry,
                    env,
                ),
            ),
    {
        if !self.is_approved(custodian, Role::Custodian) {
            return Err(Error::PartyNotApproved);
        }
        let framework = self.active_framework(&framework_id)?;
        if framework.owner != owner || framework.custodian != custodian {
            return Err(Error::FrameworkPartyMismatch);
        }
        if self.positions.contains(&position_id) {
            return Err(Error::PositionExists);
        }
        if barlist_hash.is_zero() || serials_hash.is_zero() {
            return Err(Error::InvalidDocumentHash);
        }
        if self.bar_sets.contains(&serials_hash) {
            return Err(Error::BarSetAlreadyActive);
        }
        if attestation_expiry < env.sequence {
            return Err(Error::AttestationStale);
        }
        if fine_weight_oz_e7 <= 0 {
            return Err(Error::AmountNotPositive);
        }
        let pos = VaultPosition {
            owner,
            custodian,
            framework_id,
            barlist_hash,
            serials_hash,
            fine_weight_oz_e7,
            attestation_expiry,
            status: PositionStatus::Free,
        };
        self.positions.set(position_id, pos);
        self.bar_sets.set(serials_hash, position_id);
        self.ctx_position.set(position_id, framework_id);
        let zero = Bytes32::zero();
        let ev = Self::template(
            framework_id,
            EntityKind::Position,
            CollateralAction::PositionRegistered,
            custodian,
            Role::Custodian,
            position_id,
            zero,
            zero,
            zero,
            StateLabel::Null,
            StateLabel::PositionFree,
            barlist_hash,
            zero,
            CollateralPayloadV1::PositionRegistered(
                PositionRegisteredData {
                    owner,
                    custodian,
                    barlist_hash,
                    serials_hash,
                    fine_weight_oz_e7,
                    attestation_expiry,
                },
            ),
        );
        proof {
            assert(self@ =~= LedgerState {
                positions: old(self)@.positions.insert(position_id, pos),
                bar_sets: old(self)@.bar_sets.insert(serials_hash, position_id),
                ctx_position: old(self)@.ctx_position.insert(position_id, framework_id),
                ..old(self)@
            });
        }
        Ok(self.emit(ev, env))
    }

    fn framework_of_position(&self, position_id: &Bytes32, pos: &VaultPosition) -> (r: Bytes32)
        requires
            self.wf(),
            self@.positions.contains_key(*position_id),
            self@.positions[*position_id] == *pos,
        ensures
            r == position_framework(self@, *position_id),
    {
        match self.ctx_position.get(position_id) {
            Some(f) => f,
            None => pos.framework_id,
        }
    }

    /// The owner designates a Free position as collateral, signing a
    /// collateral-request instruction: Free -> Selected.
    pub fn select_bars_for_collateral(
        &mut self,
        position_id: Bytes32,
        owner: Address,
        request_hash: Bytes32,
        env: LedgerEnv,
    ) -> (r: Result<CollateralEventV1, Error>)
        requires
            old(self).wf(),
            old(self)@.seq_room_for(
                step_select_bars(
                    old(self)@,
                    position_id,
                    owner,
                    request_hash,
                    env,
                ),
            ),
        ensures
            final(self).wf(),
            outcome(
                old(self)@,
                final(self)@,
                r,
                step_select_bars(old(self)@, position_id, owner, request_hash, env),
            ),
    {
        let pos0 = self.load_position(&position_id)?;
        if pos0.owner != owner {
            return Err(Error::NotAuthorized);
        }
        if pos0.status != PositionStatus::Free {
            return Err(Error::PositionNotFree);
        }
        if pos0.attestation_expiry < env.sequence {
            return Err(Error::AttestationStale);
        }
        if request_hash.is_zero() {
            return Err(Error::InvalidDocumentHash);
        }
        let framework_id = self.framework_of_position(&position_id, &pos0);
        let pos = VaultPosition { status: PositionStatus::Selected, ..pos0 };
        self.positions.set(position_id, pos);
        let selection = CollateralSelection { position_id, owner, request_hash };
        self.selections.set(position_id, selection);
        let zero = Bytes32::zero();
        let ev = Self::template(
            framework_id,
            EntityKind::Position,
            CollateralAction::CollateralSelected,
            owner,
            Role::Owner,
            position_id,
            zero,
            zero,
            zero,
            StateLabel::PositionFree,
            StateLabel::PositionSelected,
            request_hash,
            zero,
            CollateralPayloadV1::Hash(HashData { hash: request_hash }),
        );
        proof {
            assert(self@ =~= LedgerState {
                positions: old(self)@.positions.insert(position_id, pos),
                selections: old(self)@.selections.insert(position_id, selection),
                ..old(self)@
            });
        }
        Ok(self.emit(ev, env))
    }

    /// Read the owner's selection instruction for a position.
    pub fn get_selection(&self, position_id: Bytes32) -> (r: Result<CollateralSelection, Error>)
        requires
            self.wf(),
        ensures
            r == (if self@.selections.contains_key(position_id) {
                Ok::<CollateralSelection, Error>(self@.selections[position_id])
            } else {
                Err(Error::PositionNotFound)
            }),
    {
        match self.selections.get(&position_id) {
            Some(v) => Ok(v),
            None => Err(Error::PositionNotFound),
        }
    }

    /// The position's own, approved custodian confirms the owner's selection
    /// and immobilizes the bars under the control agreement:
    /// Selected -> Earmarked.
    pub fn confirm_and_immobilize(
        &mut self,
        position_id: Bytes32,
        custodian: Address,
        control_agreement_hash: Bytes32,
        env: LedgerEnv,
    ) -> (r: Result<CollateralEventV1, Error>)
        requires
            old(self).wf(),
            old(self)@.seq_room_for(
                step_confirm_and_immobilize(
                    old(self)@,
                    position_id,
                    custodian,
                    control_agreement_hash,
                    env,
                ),
            ),
        ensures
            final(self).wf(),
            outcome(
                old(self)@,
                final(self)@,
                r,
                step_confirm_and_immobilize(
                    old(self)@,
                    position_id,
                    custodian,
                    control_agreement_hash,
                    env,
                ),
            ),
    {
        if !self.is_approved(custodian, Role::Custodian) {
            return Err(Error::PartyNotApproved);
        }
        let pos0 = self.load_position(&position_id)?;
        if pos0.custodian != custodian {
            return Err(Error::NotAuthorized);
        }
        if pos0.status != PositionStatus::Selected {
            return Err(Error::PositionNotSelected);
        }
        if pos0.attestation_expiry < env.sequence {
            return Err(Error::AttestationStale);
        }
        if control_agreement_hash.is_zero() {
            return Err(Error::InvalidDocumentHash);
        }
        let framework_id = self.framework_of_position(&position_id, &pos0);
        let pos = VaultPosition { status: PositionStatus::Earmarked, ..pos0 };
        self.positions.set(position_id, pos);
        let control = CustodyControl {
            position_id,
            custodian,
            control_agreement_hash,
            status: PositionStatus::Earmarked,
        };
        self.controls.set(position_id, control);
        let zero = Bytes32::zero();
        let ev = Self::template(
            framework_id,
            EntityKind::Position,
            CollateralAction::CollateralImmobilized,
            custodian,
            Role::Custodian,
            position_id,
            zero,
            zero,
            zero,
            StateLabel::PositionSelected,
            StateLabel::PositionEarmarked,
            control_agreement_hash,
            zero,
            CollateralPayloadV1::Hash(HashData { hash: control_agreement_hash }),
        );
        proof {
            assert(self@ =~= LedgerState {
                positions: old(self)@.positions.insert(position_id, pos),
                controls: old(self)@.controls.insert(position_id, control),
                ..old(self)@
            });
        }
        Ok(self.emit(ev, env))
    }

    /// Read the control agreement recorded when a position was immobilized.
    pub fn get_custody_control(&self, position_id: Bytes32) -> (r: Result<CustodyControl, Error>)
        requires
            self.wf(),
        ensures
            r == (if self@.controls.contains_key(position_id) {
                Ok::<CustodyControl, Error>(self@.controls[position_id])
            } else {
                Err(Error::PositionNotFound)
            }),
    {
        match self.controls.get(&position_id) {
            Some(v) => Ok(v),
            None => Err(Error::PositionNotFound),
        }
    }

    /// Lock an Earmarked position to the framework's approved bank. Owner and
    /// bank sign: Earmarked -> Pledged, and a new Active pledge.
    pub fn activate_pledge(
        &mut self,
        pledge_id: Bytes32,
        position_id: Bytes32,
        owner: Address,
        bank: Address,
        legal_terms_hash: Bytes32,
        env: LedgerEnv,
    ) -> (r: Result<CollateralEventV1, Error>)
        requires
            old(self).wf(),
            old(self)@.seq_room_for(
                step_activate_pledge(
                    old(self)@,
                    pledge_id,
                    position_id,
                    owner,
                    bank,
                    legal_terms_hash,
                    env,
                ),
            ),
        ensures
            final(self).wf(),
            outcome(
                old(self)@,
                final(self)@,
                r,
                step_activate_pledge(old(self)@, pledge_id, position_id, owner, bank, legal_terms_hash, env),
            ),
    {
        if self.pledges.contains(&pledge_id) {
            return Err(Error::PledgeExists);
        }
        if !self.is_approved(bank, Role::Bank) {
            return Err(Error::PartyNotApproved);
        }
        let pos0 = self.load_position(&position_id)?;
        if pos0.owner != owner {
            return Err(Error::NotAuthorized);
        }
        let framework = self.active_framework(&pos0.framework_id)?;
        if framework.bank != bank {
            return Err(Error::FrameworkPartyMismatch);
        }
        if pos0.status != PositionStatus::Earmarked {
            return Err(Error::PositionNotEarmarked);
        }
        if pos0.attestation_expiry < env.sequence {
            return Err(Error::AttestationStale);
        }
        let framework_id = pos0.framework_id;
        let pos = VaultPosition { status: PositionStatus::Pledged, ..pos0 };
        self.positions.set(position_id, pos);
        let pledge = Pledge {
            position_id,
            pledgor: owner,
            bank,
            legal_terms_hash,
            status: PledgeStatus::Active,
        };
        self.pledges.set(pledge_id, pledge);
        let ctx = FacilityContext { framework_id, position_id, pledge_id };
        self.ctx_pledge.set(pledge_id, ctx);
        let zero = Bytes32::zero();
        let ev = Self::template(
            framework_id,
            EntityKind::Pledge,
            CollateralAction::PledgeActivated,
            bank,
            Role::Bank,
            position_id,
            pledge_id,
            zero,
            zero,
            StateLabel::PositionEarmarked,
            StateLabel::PledgeActive,
            legal_terms_hash,
            zero,
            CollateralPayloadV1::Hash(HashData { hash: legal_terms_hash }),
        );
        proof {
            assert(self@ =~= LedgerState {
                positions: old(self)@.positions.insert(position_id, pos),
                pledges: old(self)@.pledges.insert(pledge_id, pledge),
                ctx_pledge: old(self)@.ctx_pledge.insert(pledge_id, ctx),
                ..old(self)@
            });
        }
        Ok(self.emit(ev, env))
    }

    /// Read a position.
    pub fn get_position(&self, position_id: Bytes32) -> (r: Result<VaultPosition, Error>)
        requires
            self.wf(),
        ensures
            r == (if self@.positions.contains_key(position_id) {
                Ok::<VaultPosition, Error>(self@.positions[position_id])
            } else {
                Err(Error::PositionNotFound)
            }),
    {
        self.load_position(&position_id)
    }

    /// Read a pledge.
    pub fn get_pledge(&self, pledge_id: Bytes32) -> (r: Result<Pledge, Error>)
        requires
            self.wf(),
        ensures
            r == (if self@.pledges.contains_key(pledge_id) {
                Ok::<Pledge, Error>(self@.pledges[pledge_id])
            } else {
                Err(Error::PledgeNotFound)
            }),
    {
        self.load_pledge(&pledge_id)
    }
}

} // verus!
