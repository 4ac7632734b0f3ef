//! The program's instructions as they run against its accounts. An
//! instruction first reads the accounts it names (each must exist), then
//! creates the accounts it initializes (none may exist), then makes the
//! program's checks and changes, and finally writes back every account it
//! changed, each of which must fit in the space allocated to it. When any
//! step fails, no account changes.
use vstd::prelude::*;
use crate::error::{InstructionError, TrazLogError};
use crate::events::{
    EquipmentAssigned, EquipmentRegistered, IncidentClosed, IncidentOpened, PersonnelRegistered,
};
use crate::instructions::assign_equipment::{self, AssignEquipment};
use crate::instructions::close_incident::{self, CloseIncident};
use crate::instructions::initialize::{self, initial_state, Initialize};
use crate::instructions::initiate_return::{self, InitiateReturn};
use crate::instructions::log_milestone::{self, LogMilestone};
use crate::instructions::open_fire_incident::{self, OpenFireIncident};
use crate::instructions::register_equipment::{self, RegisterEquipment};
use crate::instructions::register_personnel::{self, RegisterPersonnel};
use crate::instructions::toggle_pause::{self, TogglePause};
use crate::invariants::{
    lemma_assign_equipment_keeps, lemma_close_incident_keeps, lemma_initialize_keeps,
    lemma_initiate_return_keeps, lemma_log_milestone_keeps, lemma_open_fire_incident_keeps,
    lemma_register_equipment_keeps, lemma_register_personnel_keeps, lemma_toggle_pause_keeps,
};
use crate::ledger::{Ledger, LedgerView};
use crate::state::{
    EquipmentAccount, EquipmentStatus, GlobalState, IncidentAccount, LogEntry, PersonnelAccount,
    Pubkey, ReportedCondition, Role,
};

verus! {

/// A new member of the brigade, as registration writes it.
pub open spec fn new_personnel(
    wallet: Pubkey,
    name: String,
    specialty: String,
    role: Role,
    bump: u8,
) -> PersonnelAccount {
    PersonnelAccount {
        wallet,
        name,
        specialty,
        is_active: true,
        role,
        current_incident: None,
        active_assignments: 0,
        bump,
    }
}

/// A new piece of equipment, as registration writes it.
pub open spec fn new_equipment(
    code: [u8; 32],
    description: String,
    nominal_consumption: u64,
    bump: u8,
) -> EquipmentAccount {
    EquipmentAccount {
        code,
        description,
        nominal_consumption,
        status: EquipmentStatus::Available,
        reported_condition: ReportedCondition::Operational,
        custodian: Pubkey::spec_zero(),
        incident_id: 0,
        use_start_time: 0,
        log_count: 0,
        bump,
    }
}

impl LedgerView {
    /// `initialize` by `admin`.
    pub open spec fn initialize(self, admin: Pubkey, bump: u8) -> (
        Result<(), InstructionError>,
        LedgerView,
    ) {
        if self.global_state is Some {
            (Err(InstructionError::AccountAlreadyInUse), self)
        } else {
            (Ok(()), LedgerView { global_state: Some(initial_state(admin, bump)), ..self })
        }
    }

    /// `toggle_pause` signed by `signer`.
    pub open spec fn toggle_pause(self, signer: Pubkey) -> (Result<(), InstructionError>, LedgerView) {
        match self.global_state {
            None => (Err(InstructionError::AccountNotInitialized), self),
            Some(g) => match (TogglePause { signer, global_state: g }).refusal() {
                Some(e) => (Err(InstructionError::Program(e)), self),
                None => (
                    Ok(()),
                    LedgerView {
                        global_state: Some(GlobalState { is_paused: !g.is_paused, ..g }),
                        ..self
                    },
                ),
            },
        }
    }

    /// `register_personnel` of `wallet`, signed by `signer`.
    pub open spec fn register_personnel(
        self,
        signer: Pubkey,
        wallet: Pubkey,
        name: String,
        specialty: String,
        role: Role,
        bump: u8,
    ) -> (Result<PersonnelRegistered, InstructionError>, LedgerView) {
        let p = new_personnel(wallet, name, specialty, role, bump);
        match self.global_state {
            None => (Err(InstructionError::AccountNotInitialized), self),
            Some(g) => if self.personnel.contains_key(wallet) {
                (Err(InstructionError::AccountAlreadyInUse), self)
            } else {
                let ctx = RegisterPersonnel {
                    signer,
                    global_state: g,
                    signer_personnel: self.personnel.get(signer),
                    new_personnel: p,
                    wallet,
                };
                match ctx.refusal() {
                    Some(e) => (Err(InstructionError::Program(e)), self),
                    None => if !p.fits() {
                        (Err(InstructionError::AccountDidNotSerialize), self)
                    } else {
                        (
                            Ok(PersonnelRegistered { wallet, role }),
                            LedgerView { personnel: self.personnel.insert(wallet, p), ..self },
                        )
                    },
                }
            },
        }
    }

    /// `register_equipment` of `code`, signed by `signer`.
    pub open spec fn register_equipment(
        self,
        signer: Pubkey,
        code: [u8; 32],
        description: String,
        nominal_consumption: u64,
        bump: u8,
    ) -> (Result<EquipmentRegistered, InstructionError>, LedgerView) {
        let e = new_equipment(code, description, nominal_consumption, bump);
        if self.global_state is None || !self.personnel.contains_key(signer) {
            (Err(InstructionError::AccountNotInitialized), self)
        } else if self.equipment.contains_key(code) {
            (Err(InstructionError::AccountAlreadyInUse), self)
        } else {
            let ctx = RegisterEquipment {
                signer,
                global_state: self.global_state.unwrap(),
                signer_personnel: self.personnel[signer],
                equipment: e,
            };
            match ctx.refusal() {
                Some(err) => (Err(InstructionError::Program(err)), self),
                None => if !e.fits() {
                    (Err(InstructionError::AccountDidNotSerialize), self)
                } else {
                    (
                        Ok(EquipmentRegistered { code }),
                        LedgerView { equipment: self.equipment.insert(code, e), ..self },
                    )
                },
            }
        }
    }

    /// `open_fire_incident` numbered `incident_id`, signed by `signer` at time
    /// `now`; the description is not stored.
    pub open spec fn open_fire_incident(
        self,
        signer: Pubkey,
        incident_id: u64,
        description: String,
        coordinates: String,
        risk_level: u8,
        now: i64,
        bump: u8,
    ) -> (Result<IncidentOpened, InstructionError>, LedgerView) {
        if self.global_state is None || !self.personnel.contains_key(signer) {
            (Err(InstructionError::AccountNotInitialized), self)
        } else if self.incidents.contains_key(incident_id) {
            (Err(InstructionError::AccountAlreadyInUse), self)
        } else {
            let g = self.global_state.unwrap();
            let n = IncidentAccount {
                incident_id,
                coordinates,
                risk_level,
                is_active: true,
                opened_at: now,
                commander: signer,
                bump,
            };
            let ctx = OpenFireIncident {
                signer,
                global_state: g,
                signer_personnel: self.personnel[signer],
                incident: n,
            };
            match ctx.refusal(incident_id, risk_level) {
                Some(err) => (Err(InstructionError::Program(err)), self),
                None => if g.next_incident_id == u64::MAX {
                    (Err(InstructionError::ArithmeticOverflow), self)
                } else if !n.fits() {
                    (Err(InstructionError::AccountDidNotSerialize), self)
                } else {
                    (
                        Ok(IncidentOpened { incident_id, commander: signer, risk_level }),
                        LedgerView {
                            global_state: Some(
                                GlobalState {
                                    next_incident_id: (g.next_incident_id + 1) as u64,
                                    ..g
                                },
                            ),
                            incidents: self.incidents.insert(incident_id, n),
                            ..self
                        },
                    )
                },
            }
        }
    }

    /// The accounts that `assign_equipment` reads, once they all exist.
    pub open spec fn assign_context(
        self,
        signer: Pubkey,
        equipment_code: [u8; 32],
        incident_id: u64,
        operator_wallet: Pubkey,
    ) -> AssignEquipment {
        AssignEquipment {
            signer,
            global_state: self.global_state.unwrap(),
            signer_personnel: self.personnel[signer],
            equipment: self.equipment[equipment_code],
            incident: self.incidents[incident_id],
            operator_personnel: self.personnel[operator_wallet],
            operator_wallet,
        }
    }

    /// `assign_equipment` of `equipment_code` to `operator_wallet` in
    /// incident `incident_id`, signed by `signer` at time `now`.
    pub open spec fn assign_equipment(
        self,
        signer: Pubkey,
        equipment_code: [u8; 32],
        incident_id: u64,
        operator_wallet: Pubkey,
        now: i64,
    ) -> (Result<EquipmentAssigned, InstructionError>, LedgerView) {
        if self.global_state is None || !self.personnel.contains_key(signer)
            || !self.equipment.contains_key(equipment_code) || !self.incidents.contains_key(
            incident_id,
        ) || !self.personnel.contains_key(operator_wallet) {
            (Err(InstructionError::AccountNotInitialized), self)
        } else {
            let ctx = self.assign_context(signer, equipment_code, incident_id, operator_wallet);
            match ctx.refusal() {
                Some(err) => (Err(InstructionError::Program(err)), self),
                None => if ctx.operator_personnel.active_assignments == u8::MAX {
                    (Err(InstructionError::ArithmeticOverflow), self)
                } else {
                    let after = ctx.assigned(now);
                    if !(after.equipment.fits() && after.operator_personnel.fits()) {
                        (Err(InstructionError::AccountDidNotSerialize), self)
                    } else {
                        (
                            Ok(
                                EquipmentAssigned {
                                    incident_id: ctx.incident.incident_id,
                                    equipment_code,
                                    operator: operator_wallet,
                                },
                            ),
                            LedgerView {
                                equipment: self.equipment.insert(equipment_code, after.equipment),
                                personnel: self.personnel.insert(
                                    operator_wallet,
                                    after.operator_personnel,
                                ),
                                ..self
                            },
                        )
                    }
                },
            }
        }
    }

    /// `log_milestone` on `equipment_code`, signed by `signer` at time `now`.
    pub open spec fn log_milestone(
        self,
        signer: Pubkey,
        equipment_code: [u8; 32],
        notes: String,
        condition: ReportedCondition,
        now: i64,
        bump: u8,
    ) -> (Result<(), InstructionError>, LedgerView) {
        if self.global_state is None || !self.personnel.contains_key(signer)
            || !self.equipment.contains_key(equipment_code) {
            (Err(InstructionError::AccountNotInitialized), self)
        } else {
            let e = self.equipment[equipment_code];
            if self.log_entries.contains_key((equipment_code, e.log_count)) {
                (Err(InstructionError::AccountAlreadyInUse), self)
            } else {
                let entry = LogEntry {
                    equipment_code: e.code,
                    notes,
                    condition,
                    operator: signer,
                    timestamp: now,
                    entry_index: e.log_count,
                    bump,
                };
                let ctx = LogMilestone {
                    signer,
                    global_state: self.global_state.unwrap(),
                    signer_personnel: self.personnel[signer],
                    equipment: e,
                    log_entry: entry,
                };
                match ctx.refusal() {
                    Some(err) => (Err(InstructionError::Program(err)), self),
                    None => if e.log_count == u64::MAX {
                        (Err(InstructionError::ArithmeticOverflow), self)
                    } else {
                        let e2 = EquipmentAccount {
                            reported_condition: condition,
                            log_count: (e.log_count + 1) as u64,
                            ..e
                        };
                        if !(e2.fits() && entry.fits()) {
                            (Err(InstructionError::AccountDidNotSerialize), self)
                        } else {
                            (
                                Ok(()),
                                LedgerView {
                                    equipment: self.equipment.insert(equipment_code, e2),
                                    log_entries: self.log_entries.insert(
                                        (equipment_code, e.log_count),
                                        entry,
                                    ),
                                    ..self
                                },
                            )
                        }
                    },
                }
            }
        }
    }

    /// `initiate_return` of `equipment_code`, signed by `signer`.
    pub open spec fn initiate_return(self, signer: Pubkey, equipment_code: [u8; 32]) -> (
        Result<(), InstructionError>,
        LedgerView,
    ) {
        if self.global_state is None || !self.personnel.contains_key(signer)
            || !self.equipment.contains_key(equipment_code) {
            (Err(InstructionError::AccountNotInitialized), self)
        } else {
            let ctx = InitiateReturn {
                signer,
                global_state: self.global_state.unwrap(),
                signer_personnel: self.personnel[signer],
                equipment: self.equipment[equipment_code],
            };
            match ctx.refusal() {
                Some(err) => (Err(InstructionError::Program(err)), self),
                None => {
                    let after = ctx.returning();
                    if !(after.signer_personnel.fits() && after.equipment.fits()) {
                        (Err(InstructionError::AccountDidNotSerialize), self)
                    } else {
                        (
                            Ok(()),
                            LedgerView {
                                personnel: self.personnel.insert(signer, after.signer_personnel),
                                equipment: self.equipment.insert(equipment_code, after.equipment),
                                ..self
                            },
                        )
                    }
                },
            }
        }
    }

    /// `close_incident` numbered `incident_id`, signed by `signer`.
    pub open spec fn close_incident(self, signer: Pubkey, incident_id: u64) -> (
        Result<IncidentClosed, InstructionError>,
        LedgerView,
    ) {
        if self.global_state is None || !self.personnel.contains_key(signer)
            || !self.incidents.contains_key(incident_id) {
            (Err(InstructionError::AccountNotInitialized), self)
        } else {
            let ctx = CloseIncident {
                signer,
                global_state: self.global_state.unwrap(),
                signer_personnel: self.personnel[signer],
                incident: self.incidents[incident_id],
            };
            match ctx.refusal() {
                Some(err) => (Err(InstructionError::Program(err)), self),
                None => {
                    let after = ctx.closed();
                    if !after.incident.fits() {
                        (Err(InstructionError::AccountDidNotSerialize), self)
                    } else {
                        (
                            Ok(IncidentClosed { incident_id }),
                            LedgerView {
                                incidents: self.incidents.insert(incident_id, after.incident),
                                ..self
                            },
                        )
                    }
                },
            }
        }
    }
}

/// Creates the configuration account; `admin` becomes the admin and `bump`
/// is the bump of the account's address.
pub fn initialize(ledger: &mut Ledger, admin: Pubkey, bump: u8) -> (r: Result<(), InstructionError>)
    requires
        old(ledger).wf(),
    ensures
        final(ledger).wf(),
        (r, final(ledger)@) == old(ledger)@.initialize(admin, bump),
{
    proof {
        lemma_initialize_keeps(ledger@, admin, bump);
    }
    if ledger.global_state().is_some() {
        return Err(InstructionError::AccountAlreadyInUse);
    }
    let mut ctx = Initialize {
        admin,
        global_state: GlobalState { next_incident_id: 0, is_paused: false, admin, bump: 0 },
    };
    let _ = initialize::handler(&mut ctx, bump);
    ledger.put_global_state(ctx.global_state);
    proof {
        ledger.lemma_well_keyed();
    }
    Ok(())
}

/// Pauses or resumes the system, signed by `signer`.
pub fn toggle_pause(ledger: &mut Ledger, signer: Pubkey) -> (r: Result<(), InstructionError>)
    requires
        old(ledger).wf(),
    ensures
        final(ledger).wf(),
        (r, final(ledger)@) == old(ledger)@.toggle_pause(signer),
{
    proof {
        lemma_toggle_pause_keeps(ledger@, signer);
    }
    let global_state = match ledger.global_state() {
        Some(g) => g,
        None => return Err(InstructionError::AccountNotInitialized),
    };
    let mut ctx = TogglePause { signer, global_state };
    match toggle_pause::handler(&mut ctx) {
        Ok(()) => {},
        Err(e) => return Err(InstructionError::Program(e)),
    }
    ledger.put_global_state(ctx.global_state);
    proof {
        ledger.lemma_well_keyed();
    }
    Ok(())
}

/// Registers `wallet` as a member of the brigade with `role`, signed by
/// `signer`; `bump` is the bump of the new account's address.
pub fn register_personnel(
    ledger: &mut Ledger,
    signer: Pubkey,
    wallet: Pubkey,
    name: String,
    specialty: String,
    role: Role,
    bump: u8,
) -> (r: Result<PersonnelRegistered, InstructionError>)
    requires
        old(ledger).wf(),
    ensures
        final(ledger).wf(),
        (r, final(ledger)@) == old(ledger)@.register_personnel(
            signer,
            wallet,
            name,
            specialty,
            role,
            bump,
        ),
{
    proof {
        lemma_register_personnel_keeps(ledger@, signer, wallet, name, specialty, role, bump);
    }
    let global_state = match ledger.global_state() {
        Some(g) => g,
        None => return Err(InstructionError::AccountNotInitialized),
    };
    if ledger.personnel(&wallet).is_some() {
        return Err(InstructionError::AccountAlreadyInUse);
    }
    let signer_personnel = match ledger.personnel(&signer) {
        Some(p) => Some(p.clone()),
        None => None,
    };
    let mut ctx = RegisterPersonnel {
        signer,
        global_state,
        signer_personnel,
        new_personnel: PersonnelAccount::zeroed(),
        wallet,
    };
    let event = match register_personnel::handler(&mut ctx, name, specialty, role, bump) {
        Ok(ev) => ev,
        Err(e) => return Err(InstructionError::Program(e)),
    };
    if !ctx.new_personnel.fits_space() {
        return Err(InstructionError::AccountDidNotSerialize);
    }
    ledger.put_personnel(ctx.new_personnel);
    proof {
        ledger.lemma_well_keyed();
    }
    Ok(event)
}

/// Enters the equipment `code` into the inventory, signed by `signer`;
/// `bump` is the bump of the new account's address.
pub fn register_equipment(
    ledger: &mut Ledger,
    signer: Pubkey,
    code: [u8; 32],
    description: String,
    nominal_consumption: u64,
    bump: u8,
) -> (r: Result<EquipmentRegistered, InstructionError>)
    requires
        old(ledger).wf(),
    ensures
        final(ledger).wf(),
        (r, final(ledger)@) == old(ledger)@.register_equipment(
            signer,
            code,
            description,
            nominal_consumption,
            bump,
        ),
{
    proof {
        lemma_register_equipment_keeps(ledger@, signer, code, description, nominal_consumption, bump);
    }
    let global_state = match ledger.global_state() {
        Some(g) => g,
        None => return Err(InstructionError::AccountNotInitialized),
    };
    let signer_personnel = match ledger.personnel(&signer) {
        Some(p) => p.clone(),
        None => return Err(InstructionError::AccountNotInitialized),
    };
    if ledger.equipment(&code).is_some() {
        return Err(InstructionError::AccountAlreadyInUse);
    }
    let mut ctx = RegisterEquipment {
        signer,
        global_state,
        signer_personnel,
        equipment: EquipmentAccount::zeroed(),
    };
    let event = match register_equipment::handler(
        &mut ctx,
        code,
        description,
        nominal_consumption,
        bump,
    ) {
        Ok(ev) => ev,
        Err(e) => return Err(InstructionError::Program(e)),
    };
    if !ctx.equipment.fits_space() {
        return Err(InstructionError::AccountDidNotSerialize);
    }
    ledger.put_equipment(ctx.equipment);
    proof {
        ledger.lemma_well_keyed();
    }
    Ok(event)
}

/// Opens incident `incident_id`, signed by `signer` at time `now`; `bump`
/// is the bump of the new account's address. The description is accepted and
/// not stored: the incident keeps its coordinates, which also describe the place.
pub fn open_fire_incident(
    ledger: &mut Ledger,
    signer: Pubkey,
    incident_id: u64,
    description: String,
    coordinates: String,
    risk_level: u8,
    now: i64,
    bump: u8,
) -> (r: Result<IncidentOpened, InstructionError>)
    requires
        old(ledger).wf(),
    ensures
        final(ledger).wf(),
        (r, final(ledger)@) == old(ledger)@.open_fire_incident(
            signer,
            incident_id,
            description,
            coordinates,
            risk_level,
            now,
            bump,
        ),
{
    proof {
        lemma_open_fire_incident_keeps(ledger@, signer, incident_id, description, coordinates, risk_level, now, bump);
    }
    let global_state = match ledger.global_state() {
        Some(g) => g,
        None => return Err(InstructionError::AccountNotInitialized),
    };
    let signer_personnel = match ledger.personnel(&signer) {
        Some(p) => p.clone(),
        None => return Err(InstructionError::AccountNotInitialized),
    };
    if ledger.incident(incident_id).is_some() {
        return Err(InstructionError::AccountAlreadyInUse);
    }
    let mut ctx = OpenFireIncident {
        signer,
        global_state,
        signer_personnel,
        incident: IncidentAccount::zeroed(),
    };
    if let Some(e) = ctx.check(incident_id, risk_level) {
        return Err(InstructionError::Program(e));
    }
    if ctx.global_state.next_incident_id == u64::MAX {
        return Err(InstructionError::ArithmeticOverflow);
    }
    let event = match open_fire_incident::handler(
        &mut ctx,
        incident_id,
        coordinates,
        risk_level,
        now,
        bump,
    ) {
        Ok(ev) => ev,
        Err(e) => return Err(InstructionError::Program(e)),
    };
    if !ctx.incident.fits_space() {
        return Err(InstructionError::AccountDidNotSerialize);
    }
    ledger.put_global_state(ctx.global_state);
    ledger.put_incident(ctx.incident);
    proof {
        ledger.lemma_well_keyed();
    }
    Ok(event)
}

/// Assigns the equipment `equipment_code` to the operator `operator_wallet`
/// within incident `incident_id`, signed by `signer` at time `now`.
pub fn assign_equipment(
    ledger: &mut Ledger,
    signer: Pubkey,
    equipment_code: [u8; 32],
    incident_id: u64,
    operator_wallet: Pubkey,
    now: i64,
) -> (r: Result<EquipmentAssigned, InstructionError>)
    requires
        old(ledger).wf(),
    ensures
        final(ledger).wf(),
        (r, final(ledger)@) == old(ledger)@.assign_equipment(
            signer,
            equipment_code,
            incident_id,
            operator_wallet,
            now,
        ),
{
    proof {
        lemma_assign_equipment_keeps(ledger@, signer, equipment_code, incident_id, operator_wallet, now);
    }
    let global_state = match ledger.global_state() {
        Some(g) => g,
        None => return Err(InstructionError::AccountNotInitialized),
    };
    let signer_personnel = match ledger.personnel(&signer) {
        Some(p) => p.clone(),
        None => return Err(InstructionError::AccountNotInitialized),
    };
    let equipment = match ledger.equipment(&equipment_code) {
        Some(e) => e.clone(),
        None => return Err(InstructionError::AccountNotInitialized),
    };
    let incident = match ledger.incident(incident_id) {
        Some(n) => n.clone(),
        None => return Err(InstructionError::AccountNotInitialized),
    };
    let operator_personnel = match ledger.personnel(&operator_wallet) {
        Some(p) => p.clone(),
        None => return Err(InstructionError::AccountNotInitialized),
    };
    let mut ctx = AssignEquipment {
        signer,
        global_state,
        signer_personnel,
        equipment,
        incident,
        operator_personnel,
        operator_wallet,
    };
    if let Some(e) = ctx.check() {
        return Err(InstructionError::Program(e));
    }
    if ctx.operator_personnel.active_assignments == u8::MAX {
        return Err(InstructionError::ArithmeticOverflow);
    }
    let event = match assign_equipment::handler(&mut ctx, equipment_code, incident_id, now) {
        Ok(ev) => ev,
        Err(e) => return Err(InstructionError::Program(e)),
    };
    if !(ctx.equipment.fits_space() && ctx.operator_personnel.fits_space()) {
        return Err(InstructionError::AccountDidNotSerialize);
    }
    ledger.put_equipment(ctx.equipment);
    ledger.put_personnel(ctx.operator_personnel);
    proof {
        ledger.lemma_well_keyed();
    }
    Ok(event)
}

/// Records a report on the equipment `equipment_code`, signed by `signer` at
/// time `now`; `bump` is the bump of the new entry's address.
pub fn log_milestone(
    ledger: &mut Ledger,
    signer: Pubkey,
    equipment_code: [u8; 32],
    notes: String,
    condition: ReportedCondition,
    now: i64,
    bump: u8,
) -> (r: Result<(), InstructionError>)
    requires
        old(ledger).wf(),
    ensures
        final(ledger).wf(),
        (r, final(ledger)@) == old(ledger)@.log_milestone(
            signer,
            equipment_code,
            notes,
            condition,
            now,
            bump,
        ),
{
    proof {
        lemma_log_milestone_keeps(ledger@, signer, equipment_code, notes, condition, now, bump);
    }
    let global_state = match ledger.global_state() {
        Some(g) => g,
        None => return Err(InstructionError::AccountNotInitialized),
    };
    let signer_personnel = match ledger.personnel(&signer) {
        Some(p) => p.clone(),
        None => return Err(InstructionError::AccountNotInitialized),
    };
    let equipment = match ledger.equipment(&equipment_code) {
        Some(e) => e.clone(),
        None => return Err(InstructionError::AccountNotInitialized),
    };
    if ledger.log_entry(&equipment_code, equipment.log_count).is_some() {
        return Err(InstructionError::AccountAlreadyInUse);
    }
    let mut ctx = LogMilestone {
        signer,
        global_state,
        signer_personnel,
        equipment,
        log_entry: LogEntry::zeroed(),
    };
    if let Some(e) = ctx.check() {
        return Err(InstructionError::Program(e));
    }
    if ctx.equipment.log_count == u64::MAX {
        return Err(InstructionError::ArithmeticOverflow);
    }
    match log_milestone::handler(&mut ctx, equipment_code, notes, condition, now, bump) {
        Ok(()) => {},
        Err(e) => return Err(InstructionError::Program(e)),
    }
    if !(ctx.equipment.fits_space() && ctx.log_entry.fits_space()) {
        return Err(InstructionError::AccountDidNotSerialize);
    }
    ledger.put_equipment(ctx.equipment);
    ledger.put_log_entry(ctx.log_entry);
    proof {
        ledger.lemma_well_keyed();
    }
    Ok(())
}

/// Starts the return of the equipment `equipment_code`, signed by `signer`.
pub fn initiate_return(ledger: &mut Ledger, signer: Pubkey, equipment_code: [u8; 32]) -> (r: Result<
    (),
    InstructionError,
>)
    requires
        old(ledger).wf(),
    ensures
        final(ledger).wf(),
        (r, final(ledger)@) == old(ledger)@.initiate_return(signer, equipment_code),
{
    proof {
        lemma_initiate_return_keeps(ledger@, signer, equipment_code);
    }
    let global_state = match ledger.global_state() {
        Some(g) => g,
        None => return Err(InstructionError::AccountNotInitialized),
    };
    let signer_personnel = match ledger.personnel(&signer) {
        Some(p) => p.clone(),
        None => return Err(InstructionError::AccountNotInitialized),
    };
    let equipment = match ledger.equipment(&equipment_code) {
        Some(e) => e.clone(),
        None => return Err(InstructionError::AccountNotInitialized),
    };
    let mut ctx = InitiateReturn { signer, global_state, signer_personnel, equipment };
    match initiate_return::handler(&mut ctx, equipment_code) {
        Ok(()) => {},
        Err(e) => return Err(InstructionError::Program(e)),
    }
    if !(ctx.signer_personnel.fits_space() && ctx.equipment.fits_space()) {
        return Err(InstructionError::AccountDidNotSerialize);
    }
    ledger.put_personnel(ctx.signer_personnel);
    ledger.put_equipment(ctx.equipment);
    proof {
        ledger.lemma_well_keyed();
    }
    Ok(())
}

/// Closes incident `incident_id`, signed by `signer`.
pub fn close_incident(ledger: &mut Ledger, signer: Pubkey, incident_id: u64) -> (r: Result<
    IncidentClosed,
    InstructionError,
>)
    requires
        old(ledger).wf(),
    ensures
        final(ledger).wf(),
        (r, final(ledger)@) == old(ledger)@.close_incident(signer, incident_id),
{
    proof {
        lemma_close_incident_keeps(ledger@, signer, incident_id);
    }
    let global_state = match ledger.global_state() {
        Some(g) => g,
        None => return Err(InstructionError::AccountNotInitialized),
    };
    let signer_personnel = match ledger.personnel(&signer) {
        Some(p) => p.clone(),
        None => return Err(InstructionError::AccountNotInitialized),
    };
    let incident = match ledger.incident(incident_id) {
        Some(n) => n.clone(),
        None => return Err(InstructionError::AccountNotInitialized),
    };
    let mut ctx = CloseIncident { signer, global_state, signer_personnel, incident };
    let event = match close_incident::handler(&mut ctx, incident_id) {
        Ok(ev) => ev,
        Err(e) => return Err(InstructionError::Program(e)),
    };
    if !ctx.incident.fits_space() {
        return Err(InstructionError::AccountDidNotSerialize);
    }
    ledger.put_incident(ctx.incident);
    proof {
        ledger.lemma_well_keyed();
    }
    Ok(event)
}

} // verus!
