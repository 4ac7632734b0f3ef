//! The operator who holds a piece of equipment starts its return; the
//! equipment moves from in use to returning.
use vstd::prelude::*;
use crate::error::TrazLogError;
use crate::state::{EquipmentAccount, EquipmentStatus, GlobalState, PersonnelAccount, Pubkey, Role};

verus! {

/// The accounts that a return reads and writes.
pub struct InitiateReturn {
    pub signer: Pubkey,
    pub global_state: GlobalState,
    /// The signer's personnel account; written.
    pub signer_personnel: PersonnelAccount,
    /// Written.
    pub equipment: EquipmentAccount,
}

/// The operator's commitment after giving back one piece of equipment: one
/// piece fewer (never below 0), and no incident once none is left.
pub open spec fn released(p: PersonnelAccount) -> PersonnelAccount {
    let left: u8 = if p.active_assignments == 0 { 0 } else { (p.active_assignments - 1) as u8 };
    PersonnelAccount {
        active_assignments: left,
        current_incident: if left == 0 { None } else { p.current_incident },
        ..p
    }
}

impl InitiateReturn {
    /// The error with which the program refuses the return, checked in this
    /// order; `None` when it starts it.
    pub open spec fn refusal(self) -> Option<TrazLogError> {
        if self.signer_personnel.role != Role::Operator {
            Some(TrazLogError::Unauthorized)
        } else if !self.signer_personnel.is_active {
            Some(TrazLogError::InactivePersonnel)
        } else if self.equipment.custodian != self.signer {
            Some(TrazLogError::NotCustodian)
        } else if self.global_state.is_paused {
            Some(TrazLogError::SystemPaused)
        } else if self.equipment.status != EquipmentStatus::InUse {
            Some(TrazLogError::EquipmentNotInUse)
        } else {
            None
        }
    }

    /// The accounts after the return has started.
    pub open spec fn returning(self) -> InitiateReturn {
        InitiateReturn {
            equipment: EquipmentAccount { status: EquipmentStatus::Returning, ..self.equipment },
            signer_personnel: released(self.signer_personnel),
            ..self
        }
    }
}

/// Checks the signer and the equipment, then starts the return; on a refusal
/// nothing changes.
pub fn handler(ctx: &mut InitiateReturn, _equipment_code: [u8; 32]) -> (r: Result<(), TrazLogError>)
    ensures
        match old(ctx).refusal() {
            Some(e) => r == Err::<(), TrazLogError>(e) && *final(ctx) == *old(ctx),
            None => r == Ok::<(), TrazLogError>(()) && *final(ctx) == old(ctx).returning(),
        },
{
    if ctx.signer_personnel.role != Role::Operator {
        return Err(TrazLogError::Unauthorized);
    }
    if !ctx.signer_personnel.is_active {
        return Err(TrazLogError::InactivePersonnel);
    }
    if !(ctx.equipment.custodian == ctx.signer) {
        return Err(TrazLogError::NotCustodian);
    }
    if ctx.global_state.is_paused {
        return Err(TrazLogError::SystemPaused);
    }
    if ctx.equipment.status != EquipmentStatus::InUse {
        return Err(TrazLogError::EquipmentNotInUse);
    }
    ctx.equipment.status = EquipmentStatus::Returning;
    ctx.signer_personnel.active_assignments = ctx.signer_personnel.active_assignments.saturating_sub(1);
    if ctx.signer_personnel.active_assignments == 0 {
        ctx.signer_personnel.current_incident = None;
    }
    Ok(())
}

} // verus!
