//! The events that the instructions emit.
use vstd::prelude::*;
use crate::state::{Pubkey, Role};

verus! {

/// Emitted when a member of the brigade is registered.
#[derive(Clone, Copy, Debug, PartialEq)]
pub struct PersonnelRegistered {
    pub wallet: Pubkey,
    pub role: Role,
}

/// Emitted when a piece of equipment enters the inventory.
#[derive(Clone, Copy, Debug, PartialEq)]
pub struct EquipmentRegistered {
    pub code: [u8; 32],
}

/// Emitted when an incident is opened.
#[derive(Clone, Copy, Debug, PartialEq)]
pub struct IncidentOpened {
    pub incident_id: u64,
    pub commander: Pubkey,
    pub risk_level: u8,
}

/// Emitted when a piece of equipment is assigned to an operator.
#[derive(Clone, Copy, Debug, PartialEq)]
pub struct EquipmentAssigned {
    pub incident_id: u64,
    pub equipment_code: [u8; 32],
    pub operator: Pubkey,
}

/// Emitted when an incident is closed.
#[derive(Clone, Copy, Debug, PartialEq)]
pub struct IncidentClosed {
    pub incident_id: u64,
}

} // verus!
