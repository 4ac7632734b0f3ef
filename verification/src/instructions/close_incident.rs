//! An active scene commander closes an incident. Closing is lazy: the
//! equipment stays with its operators until each of them starts its return.
use vstd::prelude::*;
use crate::error::TrazLogError;
use crate::events::IncidentClosed;
use crate::state::{GlobalState, IncidentAccount, PersonnelAccount, Pubkey, Role};

verus! {

/// The accounts that closing an incident reads and writes.
pub struct CloseIncident {
    pub signer: Pubkey,
    pub global_state: GlobalState,
    /// The signer's personnel account.
    pub signer_personnel: PersonnelAccount,
    /// Written.
    pub incident: IncidentAccount,
}

impl CloseIncident {
    /// The error with which the program refuses to close the incident,
    /// checked in this order; `None` when it closes it.
    pub open spec fn refusal(self) -> Option<TrazLogError> {
        if self.signer_personnel.role != Role::SceneCommander {
            Some(TrazLogError::Unauthorized)
        } else if !self.signer_personnel.is_active {
            Some(TrazLogError::InactivePersonnel)
        } else if !self.incident.is_active {
            Some(TrazLogError::IncidentAlreadyClosed)
        } else if self.global_state.is_paused {
            Some(TrazLogError::SystemPaused)
        } else {
            None
        }
    }

    /// The accounts after the incident is closed.
    pub open spec fn closed(self) -> CloseIncident {
        CloseIncident { incident: IncidentAccount { is_active: false, ..self.incident }, ..self }
    }
}

/// Checks the signer and the incident, then marks the incident inactive; on a
/// refusal nothing changes.
pub fn handler(ctx: &mut CloseIncident, _incident_id: u64) -> (r: Result<IncidentClosed, TrazLogError>)
    ensures
        match old(ctx).refusal() {
            Some(e) => r == Err::<IncidentClosed, TrazLogError>(e) && *final(ctx) == *old(ctx),
            None => {
                &&& r == Ok::<IncidentClosed, TrazLogError>(
                    IncidentClosed { incident_id: old(ctx).incident.incident_id },
                )
                &&& *final(ctx) == old(ctx).closed()
            },
        },
{
    if ctx.signer_personnel.role != Role::SceneCommander {
        return Err(TrazLogError::Unauthorized);
    }
    if !ctx.signer_personnel.is_active {
        return Err(TrazLogError::InactivePersonnel);
    }
    if !ctx.incident.is_active {
        return Err(TrazLogError::IncidentAlreadyClosed);
    }
    if ctx.global_state.is_paused {
        return Err(TrazLogError::SystemPaused);
    }
    ctx.incident.is_active = false;
    Ok(IncidentClosed { incident_id: ctx.incident.incident_id })
}

} // verus!
