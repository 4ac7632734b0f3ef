//! An active member of the operational base enters a piece of equipment into
//! the inventory.
use vstd::prelude::*;
use crate::error::TrazLogError;
use crate::events::EquipmentRegistered;
use crate::state::{
    EquipmentAccount, EquipmentStatus, GlobalState, PersonnelAccount, Pubkey, ReportedCondition, Role,
};

verus! {

/// The accounts that a registration of equipment reads and writes.
pub struct RegisterEquipment {
    pub signer: Pubkey,
    pub global_state: GlobalState,
    /// The signer's personnel account.
    pub signer_personnel: PersonnelAccount,
    /// Created by the instruction; written.
    pub equipment: EquipmentAccount,
}

impl RegisterEquipment {
    /// The error with which the program refuses the registration, checked in
    /// this order; `None` when it registers.
    pub open spec fn refusal(self) -> Option<TrazLogError> {
        if self.signer_personnel.role != Role::OperationalBase {
            Some(TrazLogError::Unauthorized)
        } else if !self.signer_personnel.is_active {
            Some(TrazLogError::InactivePersonnel)
        } else if self.global_state.is_paused {
            Some(TrazLogError::SystemPaused)
        } else {
            None
        }
    }

    /// The accounts after the registration: the equipment is available,
    /// reported operational, held by nobody and in no incident.
    pub open spec fn registered(
        self,
        code: [u8; 32],
        description: String,
        nominal_consumption: u64,
        bump: u8,
    ) -> RegisterEquipment {
        RegisterEquipment {
            equipment: EquipmentAccount {
                code,
                description,
                nominal_consumption,
                status: EquipmentStatus::Available,
                reported_condition: ReportedCondition::Operational,
                custodian: Pubkey::spec_zero(),
                incident_id: 0,
                use_start_time: 0,
                bump,
                ..self.equipment
            },
            ..self
        }
    }
}

/// Checks the signer and fills the new equipment account, with `bump` the
/// bump of its address; on a refusal nothing changes.
pub fn handler(
    ctx: &mut RegisterEquipment,
    code: [u8; 32],
    description: String,
    nominal_consumption: u64,
    bump: u8,
) -> (r: Result<EquipmentRegistered, TrazLogError>)
    ensures
        match old(ctx).refusal() {
            Some(e) => r == Err::<EquipmentRegistered, TrazLogError>(e) && *final(ctx) == *old(ctx),
            None => {
                &&& r == Ok::<EquipmentRegistered, TrazLogError>(EquipmentRegistered { code })
                &&& *final(ctx) == old(ctx).registered(code, description, nominal_consumption, bump)
            },
        },
{
    if ctx.signer_personnel.role != Role::OperationalBase {
        return Err(TrazLogError::Unauthorized);
    }
    if !ctx.signer_personnel.is_active {
        return Err(TrazLogError::InactivePersonnel);
    }
    if ctx.global_state.is_paused {
        return Err(TrazLogError::SystemPaused);
    }
    ctx.equipment.code = code;
    ctx.equipment.description = description;
    ctx.equipment.nominal_consumption = nominal_consumption;
    ctx.equipment.status = EquipmentStatus::Available;
    ctx.equipment.reported_condition = ReportedCondition::Operational;
    ctx.equipment.custodian = Pubkey::default();
    ctx.equipment.incident_id = 0;
    ctx.equipment.use_start_time = 0;
    ctx.equipment.bump = bump;
    Ok(EquipmentRegistered { code })
}

} // verus!
