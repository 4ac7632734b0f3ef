//! An active scene commander opens a fire incident under the next number of
//! the counter.
use vstd::prelude::*;
use crate::error::TrazLogError;
use crate::events::IncidentOpened;
use crate::state::{GlobalState, IncidentAccount, PersonnelAccount, Pubkey, Role};

verus! {

/// The accounts that opening an incident reads and writes.
pub struct OpenFireIncident {
    pub signer: Pubkey,
    /// Written: the counter advances.
    pub global_state: GlobalState,
    /// The signer's personnel account.
    pub signer_personnel: PersonnelAccount,
    /// Created by the instruction; written.
    pub incident: IncidentAccount,
}

/// Whether a risk level is one of 1 to 5.
pub open spec fn valid_risk_level(risk_level: u8) -> bool {
    1 <= risk_level <= 5
}

impl OpenFireIncident {
    /// The error with which the program refuses to open incident
    /// `incident_id`, checked in this order; `None` when it opens it.
    pub open spec fn refusal(self, incident_id: u64, risk_level: u8) -> Option<TrazLogError> {
        if self.signer_personnel.role != Role::SceneCommander {
            Some(TrazLogError::Unauthorized)
        } else if !self.signer_personnel.is_active {
            Some(TrazLogError::InactivePersonnel)
        } else if self.global_state.is_paused {
            Some(TrazLogError::SystemPaused)
        } else if !valid_risk_level(risk_level) {
            Some(TrazLogError::InvalidRiskLevel)
        } else if incident_id != self.global_state.next_incident_id {
            Some(TrazLogError::InvalidIncidentId)
        } else {
            None
        }
    }

    /// Makes the checks of `refusal`, in its order.
    pub fn check(&self, incident_id: u64, risk_level: u8) -> (r: Option<TrazLogError>)
        ensures
            r == self.refusal(incident_id, risk_level),
    {
        if self.signer_personnel.role != Role::SceneCommander {
            return Some(TrazLogError::Unauthorized);
        }
        if !self.signer_personnel.is_active {
            return Some(TrazLogError::InactivePersonnel);
        }
        if self.global_state.is_paused {
            return Some(TrazLogError::SystemPaused);
        }
        if !(risk_level >= 1 && risk_level <= 5) {
            return Some(TrazLogError::InvalidRiskLevel);
        }
        if incident_id != self.global_state.next_incident_id {
            return Some(TrazLogError::InvalidIncidentId);
        }
        None
    }

    /// The accounts after the incident is opened at time `now`: it is active,
    /// commanded by the signer, and the counter has moved past it.
    pub open spec fn opened(
        self,
        incident_id: u64,
        coordinates: String,
        risk_level: u8,
        now: i64,
        bump: u8,
    ) -> OpenFireIncident {
        OpenFireIncident {
            global_state: GlobalState {
                next_incident_id: (self.global_state.next_incident_id + 1) as u64,
                ..self.global_state
            },
            incident: IncidentAccount {
                incident_id,
                coordinates,
                risk_level,
                is_active: true,
                opened_at: now,
                commander: self.signer,
                bump,
            },
            ..self
        }
    }
}

/// Checks the signer and the arguments, then opens the incident at time `now`,
/// with `bump` the bump of its address; on a refusal nothing changes.
pub fn handler(
    ctx: &mut OpenFireIncident,
    incident_id: u64,
    coordinates: String,
    risk_level: u8,
    now: i64,
    bump: u8,
) -> (r: Result<IncidentOpened, TrazLogError>)
    requires
        old(ctx).refusal(incident_id, risk_level) is None
            ==> old(ctx).global_state.next_incident_id < u64::MAX,
    ensures
        match old(ctx).refusal(incident_id, risk_level) {
            Some(e) => r == Err::<IncidentOpened, TrazLogError>(e) && *final(ctx) == *old(ctx),
            None => {
                &&& r == Ok::<IncidentOpened, TrazLogError>(
                    IncidentOpened { incident_id, commander: old(ctx).signer, risk_level },
                )
                &&& *final(ctx) == old(ctx).opened(
                    incident_id,
                    coordinates,
                    risk_level,
                    now,
                    bump,
                )
            },
        },
{
    if let Some(e) = ctx.check(incident_id, risk_level) {
        return Err(e);
    }
    ctx.incident.incident_id = incident_id;
    ctx.incident.coordinates = coordinates;
    ctx.incident.risk_level = risk_level;
    ctx.incident.is_active = true;
    ctx.incident.opened_at = now;
    ctx.incident.commander = ctx.signer;
    ctx.incident.bump = bump;
    let commander = ctx.incident.commander;
    ctx.global_state.next_incident_id = ctx.global_state.next_incident_id + 1;
    Ok(IncidentOpened { incident_id, commander, risk_level })
}

} // verus!
