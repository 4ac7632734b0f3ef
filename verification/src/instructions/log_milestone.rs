//! The operator who holds a piece of equipment reports its condition from the
//! field; each report is kept as a log entry of its own.
use vstd::prelude::*;
use crate::error::TrazLogError;
use crate::state::{
    EquipmentAccount, EquipmentStatus, GlobalState, LogEntry, PersonnelAccount, Pubkey,
    ReportedCondition, Role,
};

verus! {

/// The accounts that a report reads and writes.
pub struct LogMilestone {
    pub signer: Pubkey,
    pub global_state: GlobalState,
    /// The signer's personnel account.
    pub signer_personnel: PersonnelAccount,
    /// Written.
    pub equipment: EquipmentAccount,
    /// Created by the instruction, at the equipment's current log count;
    /// written.
    pub log_entry: LogEntry,
}

impl LogMilestone {
    /// The error with which the program refuses the report, checked in this
    /// order; `None` when it records it.
    pub open spec fn refusal(self) -> Option<TrazLogError> {
        if self.signer_personnel.role != Role::Operator {
            Some(TrazLogError::Unauthorized)
        } else if !self.signer_personnel.is_active {
            Some(TrazLogError::InactivePersonnel)
        } else if self.equipment.custodian != self.signer {
            Some(TrazLogError::NotCustodian)
        } else if self.equipment.status != EquipmentStatus::InUse {
            Some(TrazLogError::EquipmentNotInUse)
        } else if self.global_state.is_paused {
            Some(TrazLogError::SystemPaused)
        } else {
            None
        }
    }

    /// Makes the checks of `refusal`, in its order.
    pub fn check(&self) -> (r: Option<TrazLogError>)
        ensures
            r == self.refusal(),
    {
        if self.signer_personnel.role != Role::Operator {
            return Some(TrazLogError::Unauthorized);
        }
        if !self.signer_personnel.is_active {
            return Some(TrazLogError::InactivePersonnel);
        }
        if !(self.equipment.custodian == self.signer) {
            return Some(TrazLogError::NotCustodian);
        }
        if self.equipment.status != EquipmentStatus::InUse {
            return Some(TrazLogError::EquipmentNotInUse);
        }
        if self.global_state.is_paused {
            return Some(TrazLogError::SystemPaused);
        }
        None
    }

    /// The accounts after the report at time `now`: the entry holds it under
    /// the equipment's log count, which advances, and the equipment's reported
    /// condition is the one reported.
    pub open spec fn logged(
        self,
        notes: String,
        condition: ReportedCondition,
        now: i64,
        bump: u8,
    ) -> LogMilestone {
        LogMilestone {
            log_entry: LogEntry {
                equipment_code: self.equipment.code,
                notes,
                condition,
                operator: self.signer,
                timestamp: now,
                entry_index: self.equipment.log_count,
                bump,
            },
            equipment: EquipmentAccount {
                reported_condition: condition,
                log_count: (self.equipment.log_count + 1) as u64,
                ..self.equipment
            },
            ..self
        }
    }
}

/// Checks the signer and the equipment, then records the report at time
/// `now`, with `bump` the bump of the entry's address; on a refusal nothing
/// changes.
pub fn handler(
    ctx: &mut LogMilestone,
    _equipment_code: [u8; 32],
    notes: String,
    condition: ReportedCondition,
    now: i64,
    bump: u8,
) -> (r: Result<(), TrazLogError>)
    requires
        old(ctx).refusal() is None ==> old(ctx).equipment.log_count < u64::MAX,
    ensures
        match old(ctx).refusal() {
            Some(e) => r == Err::<(), TrazLogError>(e) && *final(ctx) == *old(ctx),
            None => r == Ok::<(), TrazLogError>(()) && *final(ctx) == old(ctx).logged(
                notes,
                condition,
                now,
                bump,
            ),
        },
{
    if let Some(e) = ctx.check() {
        return Err(e);
    }
    ctx.log_entry.equipment_code = ctx.equipment.code;
    ctx.log_entry.notes = notes;
    ctx.log_entry.condition = condition;
    ctx.log_entry.operator = ctx.signer;
    ctx.log_entry.timestamp = now;
    ctx.log_entry.entry_index = ctx.equipment.log_count;
    ctx.log_entry.bump = bump;
    ctx.equipment.reported_condition = condition;
    ctx.equipment.log_count = ctx.equipment.log_count + 1;
    Ok(())
}

} // verus!
