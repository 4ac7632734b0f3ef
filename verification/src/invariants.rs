//! What every instruction keeps true of the program's accounts: the
//! incidents and the log entries are numbered without gaps, and every piece
//! of equipment in use is held by a registered member who counts it and is
//! committed to its incident.
use vstd::prelude::*;
use crate::ledger::LedgerView;
use crate::state::{EquipmentAccount, EquipmentStatus, Pubkey, ReportedCondition, Role};

verus! {

broadcast use vstd::set::group_set_axioms;

/// The equipment in use that `w` holds.
pub open spec fn held_by(equipment: Map<[u8; 32], EquipmentAccount>, w: Pubkey) -> Set<[u8; 32]> {
    equipment.dom().filter(
        |c: [u8; 32]| equipment[c].status == EquipmentStatus::InUse && equipment[c].custodian == w,
    )
}

impl LedgerView {
    /// Before initialization there is no account at all.
    pub open spec fn empty_before_initialization(self) -> bool {
        self.global_state is None ==> {
            &&& self.personnel.dom().is_empty()
            &&& self.equipment.dom().is_empty()
            &&& self.incidents.dom().is_empty()
            &&& self.log_entries.dom().is_empty()
        }
    }

    /// The incidents are exactly those numbered below the counter.
    pub open spec fn incidents_numbered(self) -> bool {
        forall|n: u64| #[trigger]
            self.incidents.contains_key(n) <==> (self.global_state matches Some(g)
                && n < g.next_incident_id)
    }

    /// The log entries of each piece of equipment are exactly those numbered
    /// below its log count.
    pub open spec fn log_entries_numbered(self) -> bool {
        forall|c: [u8; 32], k: u64| #[trigger]
            self.log_entries.contains_key((c, k)) <==> (self.equipment.contains_key(c) && k
                < self.equipment[c].log_count)
    }

    /// Every piece of equipment in use is held by a registered member who is
    /// committed to its incident; every member counts the equipment in use
    /// that it holds, and is committed to an incident exactly when it holds
    /// some.
    pub open spec fn custody_accounted(self) -> bool {
        &&& forall|c: [u8; 32]| #[trigger]
            self.equipment.contains_key(c) && self.equipment[c].status == EquipmentStatus::InUse
                ==> {
                &&& self.personnel.contains_key(self.equipment[c].custodian)
                &&& self.personnel[self.equipment[c].custodian].current_incident == Some(
                    self.equipment[c].incident_id,
                )
            }
        &&& forall|w: Pubkey| #[trigger]
            self.personnel.contains_key(w) ==> {
                &&& self.personnel[w].active_assignments == held_by(self.equipment, w).len()
                &&& (self.personnel[w].current_incident is None <==> self.personnel[w].active_assignments
                    == 0)
            }
    }

    /// Every stored account fits in the space allocated to it.
    pub open spec fn accounts_fit(self) -> bool {
        &&& forall|w: Pubkey| #[trigger] self.personnel.contains_key(w) ==> self.personnel[w].fits()
        &&& forall|c: [u8; 32]| #[trigger] self.equipment.contains_key(c) ==> self.equipment[c].fits()
        &&& forall|n: u64| #[trigger] self.incidents.contains_key(n) ==> self.incidents[n].fits()
        &&& forall|k: ([u8; 32], u64)| #[trigger]
            self.log_entries.contains_key(k) ==> self.log_entries[k].fits()
    }

    /// The program's invariants.
    pub open spec fn consistent(self) -> bool {
        &&& self.accounts_fit()
        &&& self.empty_before_initialization()
        &&& self.incidents_numbered()
        &&& self.log_entries_numbered()
        &&& self.custody_accounted()
    }
}

/// How the equipment in use held by `w` changes when equipment `c`, which
/// exists, is written as `e`.
pub proof fn lemma_held_by_write(
    equipment: Map<[u8; 32], EquipmentAccount>,
    c: [u8; 32],
    e: EquipmentAccount,
    w: Pubkey,
)
    requires
        equipment.dom().finite(),
    ensures
        held_by(equipment.insert(c, e), w) == if e.status == EquipmentStatus::InUse && e.custodian
            == w {
            held_by(equipment, w).insert(c)
        } else {
            held_by(equipment, w).remove(c)
        },
        held_by(equipment, w).finite(),
{
    let after = equipment.insert(c, e);
    if e.status == EquipmentStatus::InUse && e.custodian == w {
        assert(held_by(after, w) =~= held_by(equipment, w).insert(c));
    } else {
        assert(held_by(after, w) =~= held_by(equipment, w).remove(c));
    }
    vstd::set_lib::lemma_set_subset_finite(equipment.dom(), held_by(equipment, w));
}

/// `initialize` keeps the invariants.
pub proof fn lemma_initialize_keeps(v: LedgerView, admin: Pubkey, bump: u8)
    requires
        v.well_keyed(),
        v.consistent(),
    ensures
        v.initialize(admin, bump).1.consistent(),
{
}

/// `toggle_pause` keeps the invariants.
pub proof fn lemma_toggle_pause_keeps(v: LedgerView, signer: Pubkey)
    requires
        v.well_keyed(),
        v.consistent(),
    ensures
        v.toggle_pause(signer).1.consistent(),
{
}

/// `register_personnel` keeps the invariants.
pub proof fn lemma_register_personnel_keeps(
    v: LedgerView,
    signer: Pubkey,
    wallet: Pubkey,
    name: String,
    specialty: String,
    role: Role,
    bump: u8,
)
    requires
        v.well_keyed(),
        v.consistent(),
    ensures
        v.register_personnel(signer, wallet, name, specialty, role, bump).1.consistent(),
{
    let v2 = v.register_personnel(signer, wallet, name, specialty, role, bump).1;
    if v2 != v {
        assert(!v.personnel.contains_key(wallet));
        assert(held_by(v.equipment, wallet) =~= Set::empty());
        assert forall|w: Pubkey| #[trigger] v2.personnel.contains_key(w) implies {
            &&& v2.personnel[w].active_assignments == held_by(v2.equipment, w).len()
            &&& (v2.personnel[w].current_incident is None <==> v2.personnel[w].active_assignments
                == 0)
        } by {
            if w != wallet {
                assert(v.personnel.contains_key(w));
            }
        }
    }
}

/// `register_equipment` keeps the invariants.
pub proof fn lemma_register_equipment_keeps(
    v: LedgerView,
    signer: Pubkey,
    code: [u8; 32],
    description: String,
    nominal_consumption: u64,
    bump: u8,
)
    requires
        v.well_keyed(),
        v.consistent(),
    ensures
        v.register_equipment(signer, code, description, nominal_consumption, bump).1.consistent(),
{
    let v2 = v.register_equipment(signer, code, description, nominal_consumption, bump).1;
    if v2 != v {
        assert(!v.equipment.contains_key(code));
        let e = v2.equipment[code];
        assert forall|w: Pubkey| #[trigger] v2.personnel.contains_key(w) implies {
            &&& v2.personnel[w].active_assignments == held_by(v2.equipment, w).len()
            &&& (v2.personnel[w].current_incident is None <==> v2.personnel[w].active_assignments
                == 0)
        } by {
            lemma_held_by_write(v.equipment, code, e, w);
            assert(held_by(v.equipment, w).remove(code) =~= held_by(v.equipment, w));
        }
        assert forall|c: [u8; 32], k: u64| #[trigger]
            v2.log_entries.contains_key((c, k)) <==> (v2.equipment.contains_key(c) && k
                < v2.equipment[c].log_count) by {
            if c == code {
                assert(!v.log_entries.contains_key((c, k)));
            }
        }
    }
}

/// `open_fire_incident` keeps the invariants.
pub proof fn lemma_open_fire_incident_keeps(
    v: LedgerView,
    signer: Pubkey,
    incident_id: u64,
    description: String,
    coordinates: String,
    risk_level: u8,
    now: i64,
    bump: u8,
)
    requires
        v.well_keyed(),
        v.consistent(),
    ensures
        v.open_fire_incident(
            signer,
            incident_id,
            description,
            coordinates,
            risk_level,
            now,
            bump,
        ).1.consistent(),
{
}

/// `assign_equipment` keeps the invariants.
pub proof fn lemma_assign_equipment_keeps(
    v: LedgerView,
    signer: Pubkey,
    equipment_code: [u8; 32],
    incident_id: u64,
    operator_wallet: Pubkey,
    now: i64,
)
    requires
        v.well_keyed(),
        v.consistent(),
    ensures
        v.assign_equipment(signer, equipment_code, incident_id, operator_wallet, now).1.consistent(),
{
    let v2 = v.assign_equipment(signer, equipment_code, incident_id, operator_wallet, now).1;
    if v2 != v {
        let ctx = v.assign_context(signer, equipment_code, incident_id, operator_wallet);
        let after = ctx.assigned(now);
        let e = after.equipment;
        assert(v2.equipment == v.equipment.insert(equipment_code, e));
        assert(v2.personnel == v.personnel.insert(operator_wallet, after.operator_personnel));
        assert(!held_by(v.equipment, operator_wallet).contains(equipment_code));
        assert forall|w: Pubkey| #[trigger] v2.personnel.contains_key(w) implies {
            &&& v2.personnel[w].active_assignments == held_by(v2.equipment, w).len()
            &&& (v2.personnel[w].current_incident is None <==> v2.personnel[w].active_assignments
                == 0)
        } by {
            lemma_held_by_write(v.equipment, equipment_code, e, w);
            if w != operator_wallet {
                assert(!held_by(v.equipment, w).contains(equipment_code));
                assert(held_by(v.equipment, w).remove(equipment_code) =~= held_by(v.equipment, w));
            }
        }
        assert forall|c: [u8; 32]| #[trigger]
            v2.equipment.contains_key(c) && v2.equipment[c].status == EquipmentStatus::InUse
                implies {
            &&& v2.personnel.contains_key(v2.equipment[c].custodian)
            &&& v2.personnel[v2.equipment[c].custodian].current_incident == Some(
                v2.equipment[c].incident_id,
            )
        } by {
            if c != equipment_code {
                assert(v.equipment.contains_key(c));
                let w = v.equipment[c].custodian;
                if w == operator_wallet {
                    assert(held_by(v.equipment, w).contains(c));
                    lemma_held_by_write(v.equipment, equipment_code, e, w);
                    assert(v.personnel[w].active_assignments > 0) by {
                        vstd::set_lib::lemma_set_empty_equivalency_len(held_by(v.equipment, w));
                    }
                }
            }
        }
    }
}

/// `log_milestone` keeps the invariants.
pub proof fn lemma_log_milestone_keeps(
    v: LedgerView,
    signer: Pubkey,
    equipment_code: [u8; 32],
    notes: String,
    condition: ReportedCondition,
    now: i64,
    bump: u8,
)
    requires
        v.well_keyed(),
        v.consistent(),
    ensures
        v.log_milestone(signer, equipment_code, notes, condition, now, bump).1.consistent(),
{
    let v2 = v.log_milestone(signer, equipment_code, notes, condition, now, bump).1;
    if v2 != v {
        let e = v.equipment[equipment_code];
        let e2 = v2.equipment[equipment_code];
        assert(v2.equipment == v.equipment.insert(equipment_code, e2));
        assert forall|w: Pubkey| #[trigger] v2.personnel.contains_key(w) implies {
            &&& v2.personnel[w].active_assignments == held_by(v2.equipment, w).len()
            &&& (v2.personnel[w].current_incident is None <==> v2.personnel[w].active_assignments
                == 0)
        } by {
            lemma_held_by_write(v.equipment, equipment_code, e2, w);
            if e.status == EquipmentStatus::InUse && e.custodian == w {
                assert(held_by(v.equipment, w).insert(equipment_code) =~= held_by(v.equipment, w));
            } else {
                assert(held_by(v.equipment, w).remove(equipment_code) =~= held_by(v.equipment, w));
            }
        }
        assert forall|c: [u8; 32], k: u64| #[trigger]
            v2.log_entries.contains_key((c, k)) <==> (v2.equipment.contains_key(c) && k
                < v2.equipment[c].log_count) by {
            if c == equipment_code && k == e.log_count {
            } else {
                assert(v2.log_entries.contains_key((c, k)) == v.log_entries.contains_key((c, k)));
            }
        }
    }
}

/// `initiate_return` keeps the invariants.
pub proof fn lemma_initiate_return_keeps(v: LedgerView, signer: Pubkey, equipment_code: [u8; 32])
    requires
        v.well_keyed(),
        v.consistent(),
    ensures
        v.initiate_return(signer, equipment_code).1.consistent(),
{
    let v2 = v.initiate_return(signer, equipment_code).1;
    if v2 != v {
        let e = v.equipment[equipment_code];
        let e2 = v2.equipment[equipment_code];
        assert(v2.equipment == v.equipment.insert(equipment_code, e2));
        assert(held_by(v.equipment, signer).contains(equipment_code));
        lemma_held_by_write(v.equipment, equipment_code, e2, signer);
        assert(v.personnel[signer].active_assignments > 0) by {
            vstd::set_lib::lemma_set_empty_equivalency_len(held_by(v.equipment, signer));
        }
        assert forall|w: Pubkey| #[trigger] v2.personnel.contains_key(w) implies {
            &&& v2.personnel[w].active_assignments == held_by(v2.equipment, w).len()
            &&& (v2.personnel[w].current_incident is None <==> v2.personnel[w].active_assignments
                == 0)
        } by {
            lemma_held_by_write(v.equipment, equipment_code, e2, w);
            if w != signer {
                assert(!held_by(v.equipment, w).contains(equipment_code));
                assert(held_by(v.equipment, w).remove(equipment_code) =~= held_by(v.equipment, w));
            }
        }
        assert forall|c: [u8; 32]| #[trigger]
            v2.equipment.contains_key(c) && v2.equipment[c].status == EquipmentStatus::InUse
                implies {
            &&& v2.personnel.contains_key(v2.equipment[c].custodian)
            &&& v2.personnel[v2.equipment[c].custodian].current_incident == Some(
                v2.equipment[c].incident_id,
            )
        } by {
            if c != equipment_code && v.equipment[c].custodian == signer {
                assert(held_by(v2.equipment, signer).contains(c));
                vstd::set_lib::lemma_set_empty_equivalency_len(held_by(v2.equipment, signer));
            }
        }
    }
}

/// `close_incident` keeps the invariants.
pub proof fn lemma_close_incident_keeps(v: LedgerView, signer: Pubkey, incident_id: u64)
    requires
        v.well_keyed(),
        v.consistent(),
    ensures
        v.close_incident(signer, incident_id).1.consistent(),
{
}

} // verus!
