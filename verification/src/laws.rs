//! Laws of the program: what holds of every instruction, of every sequence
//! of them, and of particular pairs.
use vstd::prelude::*;
use crate::error::InstructionError;
use crate::invariants::{
    held_by, lemma_assign_equipment_keeps, lemma_close_incident_keeps, lemma_initialize_keeps,
    lemma_initiate_return_keeps, lemma_log_milestone_keeps, lemma_open_fire_incident_keeps,
    lemma_register_equipment_keeps, lemma_register_personnel_keeps, lemma_toggle_pause_keeps,
};
use crate::ledger::LedgerView;
use crate::instructions::assign_equipment::AssignEquipment;
use crate::instructions::log_milestone::LogMilestone;
use crate::instructions::open_fire_incident::OpenFireIncident;
use crate::state::{str_bytes, EquipmentStatus, GlobalState, Pubkey, ReportedCondition, Role};

verus! {

/// One instruction, with its signer and arguments, as a transaction carries it.
pub enum Transaction {
    Initialize { admin: Pubkey, bump: u8 },
    TogglePause { signer: Pubkey },
    RegisterPersonnel {
        signer: Pubkey,
        wallet: Pubkey,
        name: String,
        specialty: String,
        role: Role,
        bump: u8,
    },
    RegisterEquipment {
        signer: Pubkey,
        code: [u8; 32],
        description: String,
        nominal_consumption: u64,
        bump: u8,
    },
    OpenFireIncident {
        signer: Pubkey,
        incident_id: u64,
        description: String,
        coordinates: String,
        risk_level: u8,
        now: i64,
        bump: u8,
    },
    AssignEquipment {
        signer: Pubkey,
        equipment_code: [u8; 32],
        incident_id: u64,
        operator_wallet: Pubkey,
        now: i64,
    },
    LogMilestone {
        signer: Pubkey,
        equipment_code: [u8; 32],
        notes: String,
        condition: ReportedCondition,
        now: i64,
        bump: u8,
    },
    InitiateReturn { signer: Pubkey, equipment_code: [u8; 32] },
    CloseIncident { signer: Pubkey, incident_id: u64 },
}

/// Whether an outcome is a success.
pub open spec fn succeeded<T>(r: Result<T, InstructionError>) -> bool {
    r is Ok
}

impl LedgerView {
    /// Whether `tx` succeeds, and the accounts after it.
    pub open spec fn execute(self, tx: Transaction) -> (bool, LedgerView) {
        match tx {
            Transaction::Initialize { admin, bump } => {
                let (r, v) = self.initialize(admin, bump);
                (succeeded(r), v)
            },
            Transaction::TogglePause { signer } => {
                let (r, v) = self.toggle_pause(signer);
                (succeeded(r), v)
            },
            Transaction::RegisterPersonnel { signer, wallet, name, specialty, role, bump } => {
                let (r, v) = self.register_personnel(signer, wallet, name, specialty, role, bump);
                (succeeded(r), v)
            },
            Transaction::RegisterEquipment { signer, code, description, nominal_consumption, bump } => {
                let (r, v) = self.register_equipment(
                    signer,
                    code,
                    description,
                    nominal_consumption,
                    bump,
                );
                (succeeded(r), v)
            },
            Transaction::OpenFireIncident {
                signer,
                incident_id,
                description,
                coordinates,
                risk_level,
                now,
                bump,
            } => {
                let (r, v) = self.open_fire_incident(
                    signer,
                    incident_id,
                    description,
                    coordinates,
                    risk_level,
                    now,
                    bump,
                );
                (succeeded(r), v)
            },
            Transaction::AssignEquipment {
                signer,
                equipment_code,
                incident_id,
                operator_wallet,
                now,
            } => {
                let (r, v) = self.assign_equipment(
                    signer,
                    equipment_code,
                    incident_id,
                    operator_wallet,
                    now,
                );
                (succeeded(r), v)
            },
            Transaction::LogMilestone { signer, equipment_code, notes, condition, now, bump } => {
                let (r, v) = self.log_milestone(signer, equipment_code, notes, condition, now, bump);
                (succeeded(r), v)
            },
            Transaction::InitiateReturn { signer, equipment_code } => {
                let (r, v) = self.initiate_return(signer, equipment_code);
                (succeeded(r), v)
            },
            Transaction::CloseIncident { signer, incident_id } => {
                let (r, v) = self.close_incident(signer, incident_id);
                (succeeded(r), v)
            },
        }
    }

    /// The accounts after the transactions of `txs`, one after the other;
    /// the failed ones change nothing.
    pub open spec fn execute_all(self, txs: Seq<Transaction>) -> LedgerView
        decreases txs.len(),
    {
        if txs.len() == 0 {
            self
        } else {
            self.execute(txs[0]).1.execute_all(txs.drop_first())
        }
    }
}

/// The moves that a piece of equipment's status can make in one instruction:
/// none, from available to in use, or from in use to returning.
pub open spec fn allowed_move(before: EquipmentStatus, after: EquipmentStatus) -> bool {
    ||| after == before
    ||| before == EquipmentStatus::Available && after == EquipmentStatus::InUse
    ||| before == EquipmentStatus::InUse && after == EquipmentStatus::Returning
}

/// A transaction that fails changes no account.
pub proof fn law_failure_changes_nothing(v: LedgerView, tx: Transaction)
    ensures
        !v.execute(tx).0 ==> v.execute(tx).1 == v,
{
}

/// Every instruction keeps the program's invariants: incidents and log
/// entries numbered without gaps, and the equipment in use accounted for by
/// the members who hold it.
pub proof fn law_invariants_kept(v: LedgerView, tx: Transaction)
    requires
        v.well_keyed(),
        v.consistent(),
    ensures
        v.execute(tx).1.consistent(),
        v.execute(tx).1.well_keyed(),
{
    match tx {
        Transaction::Initialize { admin, bump } => lemma_initialize_keeps(v, admin, bump),
        Transaction::TogglePause { signer } => lemma_toggle_pause_keeps(v, signer),
        Transaction::RegisterPersonnel { signer, wallet, name, specialty, role, bump } => {
            lemma_register_personnel_keeps(v, signer, wallet, name, specialty, role, bump)
        },
        Transaction::RegisterEquipment { signer, code, description, nominal_consumption, bump } => {
            lemma_register_equipment_keeps(v, signer, code, description, nominal_consumption, bump)
        },
        Transaction::OpenFireIncident {
            signer,
            incident_id,
            description,
            coordinates,
            risk_level,
            now,
            bump,
        } => lemma_open_fire_incident_keeps(
            v,
            signer,
            incident_id,
            description,
            coordinates,
            risk_level,
            now,
            bump,
        ),
        Transaction::AssignEquipment { signer, equipment_code, incident_id, operator_wallet, now } => {
            lemma_assign_equipment_keeps(
                v,
                signer,
                equipment_code,
                incident_id,
                operator_wallet,
                now,
            )
        },
        Transaction::LogMilestone { signer, equipment_code, notes, condition, now, bump } => {
            lemma_log_milestone_keeps(v, signer, equipment_code, notes, condition, now, bump)
        },
        Transaction::InitiateReturn { signer, equipment_code } => {
            lemma_initiate_return_keeps(v, signer, equipment_code)
        },
        Transaction::CloseIncident { signer, incident_id } => {
            lemma_close_incident_keeps(v, signer, incident_id)
        },
    }
}

/// Any sequence of transactions, run from a consistent state, ends in a
/// consistent state.
pub proof fn law_invariants_kept_by_sequences(v: LedgerView, txs: Seq<Transaction>)
    requires
        v.well_keyed(),
        v.consistent(),
    ensures
        v.execute_all(txs).consistent(),
        v.execute_all(txs).well_keyed(),
    decreases txs.len(),
{
    if txs.len() > 0 {
        law_invariants_kept(v, txs[0]);
        law_invariants_kept_by_sequences(v.execute(txs[0]).1, txs.drop_first());
    }
}

/// While the system is paused, every instruction but the pause toggle fails.
pub proof fn law_pause_blocks_everything_else(v: LedgerView, tx: Transaction)
    requires
        v.global_state matches Some(g) && g.is_paused,
        !(tx is TogglePause),
    ensures
        !v.execute(tx).0,
        v.execute(tx).1 == v,
{
}

/// Only the admin toggles the pause, and the system's configuration must exist.
pub proof fn law_only_admin_toggles(v: LedgerView, signer: Pubkey)
    ensures
        v.toggle_pause(signer).0 is Ok <==> (v.global_state matches Some(g) && g.admin == signer),
{
}

/// Toggling the pause twice gives back the accounts as they were.
pub proof fn law_toggle_twice_restores(v: LedgerView, signer: Pubkey)
    requires
        v.toggle_pause(signer).0 is Ok,
    ensures
        v.toggle_pause(signer).1.toggle_pause(signer).0 is Ok,
        v.toggle_pause(signer).1.toggle_pause(signer).1 == v,
{
    let g = v.global_state.unwrap();
    assert(GlobalState { is_paused: !!g.is_paused, ..g } == g);
}

/// Once the system is initialized, no instruction changes its admin or
/// removes its configuration.
pub proof fn law_admin_is_fixed(v: LedgerView, tx: Transaction)
    requires
        v.global_state is Some,
    ensures
        v.execute(tx).1.global_state is Some,
        v.execute(tx).1.global_state.unwrap().admin == v.global_state.unwrap().admin,
{
}

/// No instruction removes an account.
pub proof fn law_accounts_are_never_removed(v: LedgerView, tx: Transaction)
    ensures
        v.global_state is Some ==> v.execute(tx).1.global_state is Some,
        v.personnel.dom().subset_of(v.execute(tx).1.personnel.dom()),
        v.equipment.dom().subset_of(v.execute(tx).1.equipment.dom()),
        v.incidents.dom().subset_of(v.execute(tx).1.incidents.dom()),
        v.log_entries.dom().subset_of(v.execute(tx).1.log_entries.dom()),
{
}

/// The incident counter only moves when an incident is opened, and then by
/// exactly one, to one past the incident opened.
pub proof fn law_counter_counts_incidents(v: LedgerView, tx: Transaction)
    requires
        v.global_state is Some,
    ensures
        ({
            let before: u64 = v.global_state.unwrap().next_incident_id;
            let after: u64 = v.execute(tx).1.global_state.unwrap().next_incident_id;
            if tx is OpenFireIncident && v.execute(tx).0 {
                &&& after == before + 1
                &&& tx->OpenFireIncident_incident_id == before
            } else {
                after == before
            }
        }),
{
}

/// A piece of equipment only moves from available to in use (by an
/// assignment) and from in use to returning (by a return); nothing brings
/// it back from returning.
pub proof fn law_equipment_life_cycle(v: LedgerView, tx: Transaction, c: [u8; 32])
    requires
        v.equipment.contains_key(c),
    ensures
        v.execute(tx).1.equipment.contains_key(c),
        allowed_move(v.equipment[c].status, v.execute(tx).1.equipment[c].status),
        v.execute(tx).1.equipment[c].status != v.equipment[c].status ==> {
            ||| tx is AssignEquipment && v.equipment[c].status == EquipmentStatus::Available
            ||| tx is InitiateReturn && v.equipment[c].status == EquipmentStatus::InUse
        },
{
}

/// Equipment that is returning stays returning, whatever runs after.
pub proof fn law_returning_is_final(v: LedgerView, txs: Seq<Transaction>, c: [u8; 32])
    requires
        v.equipment.contains_key(c),
        v.equipment[c].status == EquipmentStatus::Returning,
    ensures
        v.execute_all(txs).equipment.contains_key(c),
        v.execute_all(txs).equipment[c].status == EquipmentStatus::Returning,
    decreases txs.len(),
{
    if txs.len() > 0 {
        law_equipment_life_cycle(v, txs[0], c);
        law_returning_is_final(v.execute(txs[0]).1, txs.drop_first(), c);
    }
}

/// An operator never holds equipment in use from two different incidents.
pub proof fn law_one_incident_per_operator(v: LedgerView, w: Pubkey, c1: [u8; 32], c2: [u8; 32])
    requires
        v.consistent(),
        held_by(v.equipment, w).contains(c1),
        held_by(v.equipment, w).contains(c2),
    ensures
        v.equipment[c1].incident_id == v.equipment[c2].incident_id,
{
    assert(v.equipment.contains_key(c1) && v.equipment[c1].status == EquipmentStatus::InUse);
    assert(v.equipment.contains_key(c2) && v.equipment[c2].status == EquipmentStatus::InUse);
}

/// Only the commander of an active incident assigns equipment in it, only to
/// an active operator, and only equipment that was available; the
/// equipment then is in use by that operator in that incident.
pub proof fn law_assignment_authority(
    v: LedgerView,
    signer: Pubkey,
    equipment_code: [u8; 32],
    incident_id: u64,
    operator_wallet: Pubkey,
    now: i64,
)
    requires
        v.assign_equipment(signer, equipment_code, incident_id, operator_wallet, now).0 is Ok,
    ensures
        ({
            let after = v.assign_equipment(
                signer,
                equipment_code,
                incident_id,
                operator_wallet,
                now,
            ).1;
            &&& v.personnel[signer].role == Role::SceneCommander
            &&& v.incidents[incident_id].is_active
            &&& v.incidents[incident_id].commander == signer
            &&& v.personnel[operator_wallet].role == Role::Operator
            &&& v.personnel[operator_wallet].is_active
            &&& v.equipment[equipment_code].status == EquipmentStatus::Available
            &&& after.equipment[equipment_code].status == EquipmentStatus::InUse
            &&& after.equipment[equipment_code].custodian == operator_wallet
            &&& after.equipment[equipment_code].incident_id == v.incidents[incident_id].incident_id
            &&& after.personnel[operator_wallet].current_incident == Some(
                v.incidents[incident_id].incident_id,
            )
        }),
{
}

/// Only the operator who holds a piece of equipment reports on it or starts
/// its return, and only while it is in use.
pub proof fn law_custodian_only(
    v: LedgerView,
    signer: Pubkey,
    equipment_code: [u8; 32],
    notes: String,
    condition: ReportedCondition,
    now: i64,
    bump: u8,
)
    ensures
        v.log_milestone(signer, equipment_code, notes, condition, now, bump).0 is Ok ==> {
            &&& v.personnel[signer].role == Role::Operator
            &&& v.equipment[equipment_code].custodian == signer
            &&& v.equipment[equipment_code].status == EquipmentStatus::InUse
        },
        v.initiate_return(signer, equipment_code).0 is Ok ==> {
            &&& v.personnel[signer].role == Role::Operator
            &&& v.equipment[equipment_code].custodian == signer
            &&& v.equipment[equipment_code].status == EquipmentStatus::InUse
        },
{
}

/// Each report is kept under the equipment's log count, which then advances
/// by one; the reported condition changes, the status does not.
pub proof fn law_report_is_logged_in_order(
    v: LedgerView,
    signer: Pubkey,
    equipment_code: [u8; 32],
    notes: String,
    condition: ReportedCondition,
    now: i64,
    bump: u8,
)
    requires
        v.log_milestone(signer, equipment_code, notes, condition, now, bump).0 is Ok,
    ensures
        ({
            let before = v.equipment[equipment_code];
            let after = v.log_milestone(signer, equipment_code, notes, condition, now, bump).1;
            &&& after.equipment[equipment_code].log_count == before.log_count + 1
            &&& after.log_entries.contains_key((equipment_code, before.log_count))
            &&& after.log_entries[(equipment_code, before.log_count)].entry_index == before.log_count
            &&& after.log_entries[(equipment_code, before.log_count)].condition == condition
            &&& after.log_entries[(equipment_code, before.log_count)].notes == notes
            &&& after.log_entries[(equipment_code, before.log_count)].operator == signer
            &&& after.equipment[equipment_code].reported_condition == condition
            &&& after.equipment[equipment_code].status == before.status
        }),
{
}

/// A return changes the status of the equipment, not the condition reported
/// on it.
pub proof fn law_return_keeps_condition(v: LedgerView, signer: Pubkey, equipment_code: [u8; 32])
    requires
        v.initiate_return(signer, equipment_code).0 is Ok,
    ensures
        ({
            let after = v.initiate_return(signer, equipment_code).1;
            &&& after.equipment[equipment_code].status == EquipmentStatus::Returning
            &&& after.equipment[equipment_code].reported_condition
                == v.equipment[equipment_code].reported_condition
        }),
{
}

/// An operator who gives back the last piece of equipment it held is
/// committed to no incident, and may take equipment in any incident again.
pub proof fn law_return_of_last_piece_releases(
    v: LedgerView,
    signer: Pubkey,
    equipment_code: [u8; 32],
)
    requires
        v.well_keyed(),
        v.consistent(),
        v.initiate_return(signer, equipment_code).0 is Ok,
        held_by(v.equipment, signer).len() == 1,
    ensures
        v.initiate_return(signer, equipment_code).1.personnel[signer].active_assignments == 0,
        v.initiate_return(signer, equipment_code).1.personnel[signer].current_incident is None,
{
}

/// An operator who held nothing, is assigned a piece of equipment and then
/// starts its return is back to its commitment before the assignment; the
/// equipment, though, is returning and does not become available again.
pub proof fn law_assign_then_return_releases_operator(
    v: LedgerView,
    signer: Pubkey,
    equipment_code: [u8; 32],
    incident_id: u64,
    operator_wallet: Pubkey,
    now: i64,
)
    requires
        v.well_keyed(),
        v.consistent(),
        v.assign_equipment(signer, equipment_code, incident_id, operator_wallet, now).0 is Ok,
        v.personnel[operator_wallet].active_assignments == 0,
    ensures
        ({
            let v1 = v.assign_equipment(signer, equipment_code, incident_id, operator_wallet, now).1;
            let (r2, v2) = v1.initiate_return(operator_wallet, equipment_code);
            &&& r2 is Ok
            &&& v2.personnel[operator_wallet] == v.personnel[operator_wallet]
            &&& v2.equipment[equipment_code].status == EquipmentStatus::Returning
        }),
{
    let v1 = v.assign_equipment(signer, equipment_code, incident_id, operator_wallet, now).1;
    let p = v.personnel[operator_wallet];
    assert(p.current_incident is None);
    assert(v1.personnel[operator_wallet].active_assignments == 1);
    let released = crate::instructions::initiate_return::released(v1.personnel[operator_wallet]);
    assert(released == p);
}

/// Closing an incident is lazy: it touches no equipment and no member, so
/// equipment in use stays in use until its operator starts the return.
pub proof fn law_close_is_lazy(v: LedgerView, signer: Pubkey, incident_id: u64)
    ensures
        v.close_incident(signer, incident_id).1.equipment == v.equipment,
        v.close_incident(signer, incident_id).1.personnel == v.personnel,
        v.close_incident(signer, incident_id).0 is Ok
            ==> !v.close_incident(signer, incident_id).1.incidents[incident_id].is_active,
{
}

/// A code, a wallet or an incident number is registered at most once: a
/// second registration fails.
pub proof fn law_registration_is_once(v: LedgerView, tx: Transaction)
    ensures
        tx matches Transaction::RegisterPersonnel { wallet, .. } && v.personnel.contains_key(wallet)
            ==> !v.execute(tx).0,
        tx matches Transaction::RegisterEquipment { code, .. } && v.equipment.contains_key(code)
            ==> !v.execute(tx).0,
        tx matches Transaction::OpenFireIncident { incident_id, .. } && v.incidents.contains_key(
            incident_id,
        ) ==> !v.execute(tx).0,
        tx is Initialize && v.global_state is Some ==> !v.execute(tx).0,
{
}

/// An incident is opened at the time of the instruction that opens it.
pub proof fn law_incident_opened_at_now(
    v: LedgerView,
    signer: Pubkey,
    incident_id: u64,
    description: String,
    coordinates: String,
    risk_level: u8,
    now: i64,
    bump: u8,
)
    requires
        v.open_fire_incident(signer, incident_id, description, coordinates, risk_level, now, bump).0 is Ok,
    ensures
        ({
            let after = v.open_fire_incident(
                signer,
                incident_id,
                description,
                coordinates,
                risk_level,
                now,
                bump,
            ).1;
            &&& after.incidents.contains_key(incident_id)
            &&& after.incidents[incident_id].opened_at == now
            &&& after.incidents[incident_id].commander == signer
            &&& after.incidents[incident_id].is_active
        }),
{
}

/// The incident that the handler writes is opened at the time it is given.
pub proof fn law_handler_opens_at_now(
    ctx: OpenFireIncident,
    incident_id: u64,
    coordinates: String,
    risk_level: u8,
    now: i64,
    bump: u8,
)
    ensures
        ctx.opened(incident_id, coordinates, risk_level, now, bump).incident.opened_at == now,
        ctx.opened(incident_id, coordinates, risk_level, now, bump).incident.commander == ctx.signer,
{
}

/// Equipment is put in use at the time of the instruction that assigns it,
/// whenever its incident was opened.
pub proof fn law_use_starts_at_assignment(
    v: LedgerView,
    signer: Pubkey,
    equipment_code: [u8; 32],
    incident_id: u64,
    operator_wallet: Pubkey,
    now: i64,
)
    requires
        v.assign_equipment(signer, equipment_code, incident_id, operator_wallet, now).0 is Ok,
    ensures
        v.assign_equipment(
            signer,
            equipment_code,
            incident_id,
            operator_wallet,
            now,
        ).1.equipment[equipment_code].use_start_time == now,
{
}

/// The equipment that the assignment handler writes is in use from the time
/// it is given.
pub proof fn law_handler_use_starts_at_now(ctx: AssignEquipment, now: i64)
    ensures
        ctx.assigned(now).equipment.use_start_time == now,
        ctx.assigned(now).equipment.status == EquipmentStatus::InUse,
{
}

/// A report carries the time of the instruction that makes it.
pub proof fn law_report_is_stamped_now(
    v: LedgerView,
    signer: Pubkey,
    equipment_code: [u8; 32],
    notes: String,
    condition: ReportedCondition,
    now: i64,
    bump: u8,
)
    requires
        v.log_milestone(signer, equipment_code, notes, condition, now, bump).0 is Ok,
    ensures
        ({
            let k = v.equipment[equipment_code].log_count;
            let after = v.log_milestone(signer, equipment_code, notes, condition, now, bump).1;
            &&& after.log_entries.contains_key((equipment_code, k))
            &&& after.log_entries[(equipment_code, k)].timestamp == now
        }),
{
}

/// The entry that the report handler writes carries the time it is given.
pub proof fn law_handler_stamps_now(
    ctx: LogMilestone,
    notes: String,
    condition: ReportedCondition,
    now: i64,
    bump: u8,
)
    ensures
        ctx.logged(notes, condition, now, bump).log_entry.timestamp == now,
        ctx.logged(notes, condition, now, bump).log_entry.operator == ctx.signer,
{
}

/// A registration of personnel succeeds exactly when the system is
/// initialized and not paused, the wallet is not registered yet, the signer is
/// the admin (whatever personnel account the admin has, if any) or an active
/// member of the operational base, and name and specialty together take at
/// most 136 bytes, the room that the account leaves them.
pub proof fn law_who_registers_personnel(
    v: LedgerView,
    signer: Pubkey,
    wallet: Pubkey,
    name: String,
    specialty: String,
    role: Role,
    bump: u8,
)
    ensures
        v.register_personnel(signer, wallet, name, specialty, role, bump).0 is Ok <==> {
            &&& v.global_state matches Some(g)
            &&& !g.is_paused
            &&& !v.personnel.contains_key(wallet)
            &&& (signer == g.admin || (v.personnel.contains_key(signer)
                && v.personnel[signer].role == Role::OperationalBase
                && v.personnel[signer].is_active))
            &&& str_bytes(name) + str_bytes(specialty) <= 136
        },
        v.register_personnel(signer, wallet, name, specialty, role, bump).0 is Ok ==> {
            let after = v.register_personnel(signer, wallet, name, specialty, role, bump).1;
            &&& after.personnel.contains_key(wallet)
            &&& after.personnel[wallet].role == role
            &&& after.personnel[wallet].is_active
        },
{
}

/// Any active scene commander closes any active incident while the system
/// is not paused, whoever opened it; closing succeeds in no other case.
pub proof fn law_who_closes_incidents(v: LedgerView, signer: Pubkey, incident_id: u64)
    requires
        v.consistent(),
    ensures
        v.close_incident(signer, incident_id).0 is Ok <==> {
            &&& v.global_state matches Some(g)
            &&& !g.is_paused
            &&& v.personnel.contains_key(signer)
            &&& v.personnel[signer].role == Role::SceneCommander
            &&& v.personnel[signer].is_active
            &&& v.incidents.contains_key(incident_id)
            &&& v.incidents[incident_id].is_active
        },
{
    if v.incidents.contains_key(incident_id) {
        assert(v.incidents[incident_id].fits());
    }
}

} // verus!
