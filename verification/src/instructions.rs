//! The program's instructions, one module each: the accounts an instruction
//! reads and writes, the checks it makes, and what it changes.
pub mod assign_equipment;
pub mod close_incident;
pub mod initialize;
pub mod initiate_return;
pub mod log_milestone;
pub mod open_fire_incident;
pub mod register_equipment;
pub mod register_personnel;
pub mod toggle_pause;
