//! A scene commander hands a piece of available equipment to an operator,
//! within an active incident that the commander opened.
use vstd::prelude::*;
use crate::error::TrazLogError;
use crate::events::EquipmentAssigned;
use crate::state::{
    EquipmentAccount, EquipmentStatus, GlobalState, IncidentAccount, PersonnelAccount, Pubkey, Role,
};

verus! {

/// The accounts that an assignment reads and writes.
pub struct AssignEquipment {
    pub signer: Pubkey,
    pub global_state: GlobalState,
    /// The signer's personnel account.
    pub signer_personnel: PersonnelAccount,
    /// Written.
    pub equipment: EquipmentAccount,
    pub incident: IncidentAccount,
    /// The operator's personnel account; written.
    pub operator_personnel: PersonnelAccount,
    pub operator_wallet: Pubkey,
}

/// Whether an operator who is committed to `current` may not take equipment
/// in incident `incident_id`: committed to another incident.
pub open spec fn committed_elsewhere(current: Option<u64>, incident_id: u64) -> bool {
    match current {
        Some(id) => id != incident_id,
        None => false,
    }
}

impl AssignEquipment {
    /// The error with which the program refuses these accounts, checked in
    /// this order; `None` when it assigns.
    pub open spec fn refusal(self) -> Option<TrazLogError> {
        if self.signer_personnel.role != Role::SceneCommander {
            Some(TrazLogError::Unauthorized)
        } else if !self.signer_personnel.is_active {
            Some(TrazLogError::InactivePersonnel)
        } else if self.equipment.status != EquipmentStatus::Available {
            Some(TrazLogError::EquipmentNotAvailable)
        } else if !self.incident.is_active {
            Some(TrazLogError::IncidentNotActive)
        } else if self.incident.commander != self.signer {
            Some(TrazLogError::NotIncidentCommander)
        } else if self.operator_personnel.role != Role::Operator {
            Some(TrazLogError::InvalidOperatorRole)
        } else if !self.operator_personnel.is_active {
            Some(TrazLogError::InactivePersonnel)
        } else if committed_elsewhere(
            self.operator_personnel.current_incident,
            self.incident.incident_id,
        ) {
            Some(TrazLogError::OperatorAlreadyAssigned)
        } else if self.global_state.is_paused {
            Some(TrazLogError::SystemPaused)
        } else {
            None
        }
    }

    /// Makes the checks of `refusal`, in its order.
    pub fn check(&self) -> (r: Option<TrazLogError>)
        ensures
            r == self.refusal(),
    {
        if self.signer_personnel.role != Role::SceneCommander {
            return Some(TrazLogError::Unauthorized);
        }
        if !self.signer_personnel.is_active {
            return Some(TrazLogError::InactivePersonnel);
        }
        if self.equipment.status != EquipmentStatus::Available {
            return Some(TrazLogError::EquipmentNotAvailable);
        }
        if !self.incident.is_active {
            return Some(TrazLogError::IncidentNotActive);
        }
        if !(self.incident.commander == self.signer) {
            return Some(TrazLogError::NotIncidentCommander);
        }
        if self.operator_personnel.role != Role::Operator {
            return Some(TrazLogError::InvalidOperatorRole);
        }
        if !self.operator_personnel.is_active {
            return Some(TrazLogError::InactivePersonnel);
        }
        if let Some(id) = self.operator_personnel.current_incident {
            if id != self.incident.incident_id {
                return Some(TrazLogError::OperatorAlreadyAssigned);
            }
        }
        if self.global_state.is_paused {
            return Some(TrazLogError::SystemPaused);
        }
        None
    }

    /// The accounts after the assignment, made at time `now`: the equipment
    /// is in use by the operator in the incident, and the operator holds one
    /// more piece of equipment in that incident.
    pub open spec fn assigned(self, now: i64) -> AssignEquipment {
        AssignEquipment {
            equipment: EquipmentAccount {
                status: EquipmentStatus::InUse,
                custodian: self.operator_wallet,
                incident_id: self.incident.incident_id,
                use_start_time: now,
                ..self.equipment
            },
            operator_personnel: PersonnelAccount {
                current_incident: Some(self.incident.incident_id),
                active_assignments: (self.operator_personnel.active_assignments + 1) as u8,
                ..self.operator_personnel
            },
            ..self
        }
    }
}

/// Checks the accounts and assigns the equipment at time `now`; on a refusal
/// nothing changes.
pub fn handler(
    ctx: &mut AssignEquipment,
    equipment_code: [u8; 32],
    _incident_id: u64,
    now: i64,
) -> (r: Result<EquipmentAssigned, TrazLogError>)
    requires
        old(ctx).refusal() is None ==> old(ctx).operator_personnel.active_assignments < u8::MAX,
    ensures
        match old(ctx).refusal() {
            Some(e) => r == Err::<EquipmentAssigned, TrazLogError>(e) && *final(ctx) == *old(ctx),
            None => {
                &&& r == Ok::<EquipmentAssigned, TrazLogError>(
                    EquipmentAssigned {
                        incident_id: old(ctx).incident.incident_id,
                        equipment_code,
                        operator: old(ctx).operator_wallet,
                    },
                )
                &&& *final(ctx) == old(ctx).assigned(now)
            },
        },
{
    if let Some(e) = ctx.check() {
        return Err(e);
    }
    let incident_id: u64 = ctx.incident.incident_id;
    ctx.equipment.status = EquipmentStatus::InUse;
    ctx.equipment.custodian = ctx.operator_wallet;
    ctx.equipment.incident_id = incident_id;
    ctx.equipment.use_start_time = now;
    ctx.operator_personnel.current_incident = Some(incident_id);
    ctx.operator_personnel.active_assignments = ctx.operator_personnel.active_assignments + 1;
    Ok(EquipmentAssigned { incident_id, equipment_code, operator: ctx.operator_wallet })
}

} // verus!
