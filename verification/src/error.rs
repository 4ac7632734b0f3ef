//! The errors with which the program refuses an instruction.
use vstd::prelude::*;

verus! {

/// The program's own refusals.
#[derive(Clone, Copy, Debug, PartialEq, Eq, Structural)]
pub enum TrazLogError {
    /// Unauthorized: insufficient role for this action.
    Unauthorized,
    /// System is currently paused.
    SystemPaused,
    /// Personnel account is inactive.
    InactivePersonnel,
    /// Equipment is not available for assignment.
    EquipmentNotAvailable,
    /// Equipment is not in use.
    EquipmentNotInUse,
    /// Caller is not the equipment custodian.
    NotCustodian,
    /// Incident is not active.
    IncidentNotActive,
    /// Incident is already closed.
    IncidentAlreadyClosed,
    /// Assigned operator must have the Operator role.
    InvalidOperatorRole,
    /// Invalid equipment status for this operation.
    InvalidEquipmentStatus,
    /// Risk level must be between 1 and 5.
    InvalidRiskLevel,
    /// Provided incident ID does not match current counter.
    InvalidIncidentId,
    /// Operator is already assigned to a different active incident.
    OperatorAlreadyAssigned,
    /// Only the commander who opened this incident can assign equipment to it.
    NotIncidentCommander,
}

/// Why an instruction failed as a whole: a refusal of the program, or one
/// of the account checks that come with the accounts the instruction names.
#[derive(Clone, Copy, Debug, PartialEq, Eq, Structural)]
pub enum InstructionError {
    /// The program refused the instruction.
    Program(TrazLogError),
    /// An account that the instruction reads does not exist.
    AccountNotInitialized,
    /// An account that the instruction creates exists already.
    AccountAlreadyInUse,
    /// An account the instruction wrote does not fit in the space allocated to it.
    AccountDidNotSerialize,
    /// The program aborted: a counter would have overflowed.
    ArithmeticOverflow,
}

} // verus!
