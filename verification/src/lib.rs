//! FireOPS logistics traceability: the chain of custody of firefighting
//! equipment, as a verified state machine over the program's accounts.
pub mod error;
pub mod events;
pub mod instructions;
pub mod invariants;
pub mod laws;
pub mod ledger;
pub mod program;
pub mod state;

pub use error::{InstructionError, TrazLogError};
pub use events::{
    EquipmentAssigned, EquipmentRegistered, IncidentClosed, IncidentOpened, PersonnelRegistered,
};
pub use ledger::Ledger;
pub use state::{
    EquipmentAccount, EquipmentStatus, GlobalState, IncidentAccount, LogEntry, PersonnelAccount,
    Pubkey, ReportedCondition, Role,
};
