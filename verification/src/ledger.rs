//! The program's accounts, each at the address that its seeds give: the one
//! configuration account, the personnel accounts by wallet, the equipment by
//! code, the incidents by number and the log entries by equipment code and
//! index. An account can be read, written or created; none is ever deleted.
use vstd::prelude::*;
use crate::state::{
    bytes32_eq, EquipmentAccount, GlobalState, IncidentAccount, LogEntry, PersonnelAccount, Pubkey,
};

verus! {

broadcast use vstd::set::group_set_axioms, vstd::seq_lib::seq_to_set_is_finite;

/// The map from keys to the items of `s` that have them.
pub open spec fn keyed<T, K>(s: Seq<T>, key: spec_fn(T) -> K) -> Map<K, T> {
    Map::new(
        |k: K| exists|i: int| 0 <= i < s.len() && #[trigger] key(s[i]) == k,
        |k: K| s[choose|i: int| 0 <= i < s.len() && #[trigger] key(s[i]) == k],
    )
}

/// No two items of `s` have the same key.
pub open spec fn unique_keys<T, K>(s: Seq<T>, key: spec_fn(T) -> K) -> bool {
    forall|i: int, j: int|
        0 <= i < s.len() && 0 <= j < s.len() && #[trigger] key(s[i]) == #[trigger] key(s[j])
            ==> i == j
}

proof fn lemma_keyed_index<T, K>(s: Seq<T>, key: spec_fn(T) -> K, i: int)
    requires
        unique_keys(s, key),
        0 <= i < s.len(),
    ensures
        keyed(s, key).contains_key(key(s[i])),
        keyed(s, key)[key(s[i])] == s[i],
{
    let k = key(s[i]);
    assert(0 <= i < s.len() && key(s[i]) == k);
    let j: int = choose|j: int| 0 <= j < s.len() && #[trigger] key(s[j]) == k;
    assert(key(s[j]) == key(s[i]));
}

proof fn lemma_keyed_key<T, K>(s: Seq<T>, key: spec_fn(T) -> K, k: K)
    requires
        keyed(s, key).contains_key(k),
    ensures
        key(keyed(s, key)[k]) == k,
{
}

proof fn lemma_keyed_finite<T, K>(s: Seq<T>, key: spec_fn(T) -> K)
    ensures
        keyed(s, key).dom().finite(),
{
    let image = s.map_values(key).to_set();
    assert forall|k: K| keyed(s, key).dom().contains(k) implies image.contains(k) by {
        let i: int = choose|i: int| 0 <= i < s.len() && #[trigger] key(s[i]) == k;
        assert(s.map_values(key)[i] == k);
    }
    vstd::set_lib::lemma_set_subset_finite(image, keyed(s, key).dom());
}

proof fn lemma_keyed_update<T, K>(s: Seq<T>, key: spec_fn(T) -> K, i: int, x: T)
    requires
        unique_keys(s, key),
        0 <= i < s.len(),
        key(x) == key(s[i]),
    ensures
        unique_keys(s.update(i, x), key),
        keyed(s.update(i, x), key) == keyed(s, key).insert(key(x), x),
{
    let t = s.update(i, x);
    assert forall|a: int, b: int|
        0 <= a < t.len() && 0 <= b < t.len() && #[trigger] key(t[a]) == #[trigger] key(t[b]) implies a
        == b by {
        assert(key(t[a]) == key(s[a]));
        assert(key(t[b]) == key(s[b]));
    }
    assert forall|k: K| #[trigger] keyed(t, key).contains_key(k) == keyed(s, key).insert(
        key(x),
        x,
    ).contains_key(k) by {
        if keyed(t, key).contains_key(k) {
            let j: int = choose|j: int| 0 <= j < t.len() && #[trigger] key(t[j]) == k;
            assert(key(s[j]) == k);
        }
        if keyed(s, key).contains_key(k) {
            let j: int = choose|j: int| 0 <= j < s.len() && #[trigger] key(s[j]) == k;
            assert(key(t[j]) == k);
        }
        if k == key(x) {
            assert(key(t[i]) == k);
        }
    }
    assert forall|k: K| #[trigger] keyed(t, key).contains_key(k) implies keyed(t, key)[k]
        == keyed(s, key).insert(key(x), x)[k] by {
        let j: int = choose|j: int| 0 <= j < t.len() && #[trigger] key(t[j]) == k;
        lemma_keyed_index(t, key, j);
        if j == i {
        } else {
            lemma_keyed_index(s, key, j);
        }
    }
    assert(keyed(t, key) =~= keyed(s, key).insert(key(x), x));
}

proof fn lemma_keyed_push<T, K>(s: Seq<T>, key: spec_fn(T) -> K, x: T)
    requires
        unique_keys(s, key),
        !keyed(s, key).contains_key(key(x)),
    ensures
        unique_keys(s.push(x), key),
        keyed(s.push(x), key) == keyed(s, key).insert(key(x), x),
{
    let t = s.push(x);
    let n: int = s.len() as int;
    assert forall|a: int, b: int|
        0 <= a < t.len() && 0 <= b < t.len() && #[trigger] key(t[a]) == #[trigger] key(t[b]) implies a
        == b by {
        if a < n && b == n {
            assert(key(s[a]) == key(x));
        }
        if b < n && a == n {
            assert(key(s[b]) == key(x));
        }
    }
    assert forall|k: K| #[trigger] keyed(t, key).contains_key(k) == keyed(s, key).insert(
        key(x),
        x,
    ).contains_key(k) by {
        if keyed(t, key).contains_key(k) {
            let j: int = choose|j: int| 0 <= j < t.len() && #[trigger] key(t[j]) == k;
            if j < n {
                assert(key(s[j]) == k);
            }
        }
        if keyed(s, key).contains_key(k) {
            let j: int = choose|j: int| 0 <= j < s.len() && #[trigger] key(s[j]) == k;
            assert(key(t[j]) == k);
        }
        if k == key(x) {
            assert(key(t[n]) == k);
        }
    }
    assert forall|k: K| #[trigger] keyed(t, key).contains_key(k) implies keyed(t, key)[k]
        == keyed(s, key).insert(key(x), x)[k] by {
        let j: int = choose|j: int| 0 <= j < t.len() && #[trigger] key(t[j]) == k;
        lemma_keyed_index(t, key, j);
        if j < n {
            lemma_keyed_index(s, key, j);
        }
    }
    assert(keyed(t, key) =~= keyed(s, key).insert(key(x), x));
}

/// The key of a personnel account: its wallet.
pub open spec fn wallet_of() -> spec_fn(PersonnelAccount) -> Pubkey {
    |p: PersonnelAccount| p.wallet
}

/// The key of an equipment account: its code.
pub open spec fn code_of() -> spec_fn(EquipmentAccount) -> [u8; 32] {
    |e: EquipmentAccount| e.code
}

/// The key of an incident account: its number.
pub open spec fn number_of() -> spec_fn(IncidentAccount) -> u64 {
    |i: IncidentAccount| i.incident_id
}

/// The key of a log entry: its equipment code and index.
pub open spec fn entry_key_of() -> spec_fn(LogEntry) -> ([u8; 32], u64) {
    |l: LogEntry| (l.equipment_code, l.entry_index)
}

/// The accounts, as maps from the keys that address them.
pub struct LedgerView {
    pub global_state: Option<GlobalState>,
    pub personnel: Map<Pubkey, PersonnelAccount>,
    pub equipment: Map<[u8; 32], EquipmentAccount>,
    pub incidents: Map<u64, IncidentAccount>,
    pub log_entries: Map<([u8; 32], u64), LogEntry>,
}

impl LedgerView {
    /// Each account is stored under its own key, and there are finitely many.
    pub open spec fn well_keyed(self) -> bool {
        &&& self.personnel.dom().finite()
        &&& self.equipment.dom().finite()
        &&& self.incidents.dom().finite()
        &&& self.log_entries.dom().finite()
        &&& forall|w: Pubkey| #[trigger] self.personnel.contains_key(w) ==> self.personnel[w].wallet == w
        &&& forall|c: [u8; 32]| #[trigger] self.equipment.contains_key(c) ==> self.equipment[c].code == c
        &&& forall|n: u64| #[trigger] self.incidents.contains_key(n) ==> self.incidents[n].incident_id == n
        &&& forall|c: [u8; 32], k: u64| #[trigger] self.log_entries.contains_key((c, k))
            ==> self.log_entries[(c, k)].equipment_code == c && self.log_entries[(c, k)].entry_index == k
    }
}

/// The program's accounts.
pub struct Ledger {
    global_state: Option<GlobalState>,
    personnel: Vec<PersonnelAccount>,
    equipment: Vec<EquipmentAccount>,
    incidents: Vec<IncidentAccount>,
    log_entries: Vec<LogEntry>,
}

impl View for Ledger {
    type V = LedgerView;

    closed spec fn view(&self) -> LedgerView {
        LedgerView {
            global_state: self.global_state,
            personnel: keyed(self.personnel@, wallet_of()),
            equipment: keyed(self.equipment@, code_of()),
            incidents: keyed(self.incidents@, number_of()),
            log_entries: keyed(self.log_entries@, entry_key_of()),
        }
    }
}

impl Ledger {
    /// No two stored accounts share an address.
    pub closed spec fn storage_ok(&self) -> bool {
        &&& unique_keys(self.personnel@, wallet_of())
        &&& unique_keys(self.equipment@, code_of())
        &&& unique_keys(self.incidents@, number_of())
        &&& unique_keys(self.log_entries@, entry_key_of())
    }

    /// The accounts are stored consistently and keep the program's invariants.
    pub open spec fn wf(&self) -> bool {
        &&& self.storage_ok()
        &&& self@.well_keyed()
        &&& self@.consistent()
    }

    /// The accounts are stored under their own keys, finitely many.
    pub proof fn lemma_well_keyed(&self)
        ensures
            self@.well_keyed(),
    {
        lemma_keyed_finite(self.personnel@, wallet_of());
        lemma_keyed_finite(self.equipment@, code_of());
        lemma_keyed_finite(self.incidents@, number_of());
        lemma_keyed_finite(self.log_entries@, entry_key_of());
        assert forall|w: Pubkey| #[trigger] self@.personnel.contains_key(w) implies self@.personnel[w].wallet
            == w by {
            lemma_keyed_key(self.personnel@, wallet_of(), w);
        }
        assert forall|c: [u8; 32]| #[trigger] self@.equipment.contains_key(c) implies self@.equipment[c].code
            == c by {
            lemma_keyed_key(self.equipment@, code_of(), c);
        }
        assert forall|n: u64| #[trigger] self@.incidents.contains_key(n) implies self@.incidents[n].incident_id
            == n by {
            lemma_keyed_key(self.incidents@, number_of(), n);
        }
        assert forall|c: [u8; 32], k: u64| #[trigger] self@.log_entries.contains_key((c, k)) implies self@.log_entries[(
        c,
        k,
        )].equipment_code == c && self@.log_entries[(c, k)].entry_index == k by {
            lemma_keyed_key(self.log_entries@, entry_key_of(), (c, k));
        }
    }

    /// A ledger with no account at all: the program before its initialization.
    pub fn new() -> (r: Ledger)
        ensures
            r.wf(),
            r@.global_state is None,
            r@.personnel.is_empty(),
            r@.equipment.is_empty(),
            r@.incidents.is_empty(),
            r@.log_entries.is_empty(),
    {
        let r = Ledger {
            global_state: None,
            personnel: Vec::new(),
            equipment: Vec::new(),
            incidents: Vec::new(),
            log_entries: Vec::new(),
        };
        assert(r@.personnel =~= Map::empty());
        assert(r@.equipment =~= Map::empty());
        assert(r@.incidents =~= Map::empty());
        assert(r@.log_entries =~= Map::empty());
        proof {
            r.lemma_well_keyed();
        }
        r
    }

    /// The configuration account, where it exists.
    pub fn global_state(&self) -> (r: Option<GlobalState>)
        ensures
            r == self@.global_state,
    {
        self.global_state
    }

    /// Writes the configuration account.
    pub(crate) fn put_global_state(&mut self, g: GlobalState)
        requires
            old(self).storage_ok(),
        ensures
            final(self).storage_ok(),
            final(self)@ == (LedgerView { global_state: Some(g), ..old(self)@ }),
    {
        self.global_state = Some(g);
    }

    /// The personnel account of `wallet`, where it exists.
    pub fn personnel(&self, wallet: &Pubkey) -> (r: Option<&PersonnelAccount>)
        requires
            self.storage_ok(),
        ensures
            r is Some <==> self@.personnel.contains_key(*wallet),
            r matches Some(p) ==> *p == self@.personnel[*wallet],
    {
        let mut i: usize = 0;
        while i < self.personnel.len()
            invariant
                i <= self.personnel.len(),
                self.storage_ok(),
                forall|j: int| 0 <= j < i ==> self.personnel@[j].wallet != *wallet,
            decreases self.personnel.len() - i,
        {
            if self.personnel[i].wallet == *wallet {
                proof {
                    lemma_keyed_index(self.personnel@, wallet_of(), i as int);
                }
                return Some(&self.personnel[i]);
            }
            i = i + 1;
        }
        None
    }

    /// Writes the personnel account of `p.wallet`, creating it if there is none.
    pub(crate) fn put_personnel(&mut self, p: PersonnelAccount)
        requires
            old(self).storage_ok(),
        ensures
            final(self).storage_ok(),
            final(self)@ == (LedgerView {
                personnel: old(self)@.personnel.insert(p.wallet, p),
                ..old(self)@
            }),
    {
        let mut i: usize = 0;
        while i < self.personnel.len()
            invariant
                i <= self.personnel.len(),
                self.storage_ok(),
                *self == *old(self),
                forall|j: int| 0 <= j < i ==> self.personnel@[j].wallet != p.wallet,
            decreases self.personnel.len() - i,
        {
            if self.personnel[i].wallet == p.wallet {
                proof {
                    lemma_keyed_update(self.personnel@, wallet_of(), i as int, p);
                }
                self.personnel.set(i, p);
                return;
            }
            i = i + 1;
        }
        proof {
            lemma_keyed_push(self.personnel@, wallet_of(), p);
        }
        self.personnel.push(p);
    }

    /// The equipment account of `code`, where it exists.
    pub fn equipment(&self, code: &[u8; 32]) -> (r: Option<&EquipmentAccount>)
        requires
            self.storage_ok(),
        ensures
            r is Some <==> self@.equipment.contains_key(*code),
            r matches Some(e) ==> *e == self@.equipment[*code],
    {
        let mut i: usize = 0;
        while i < self.equipment.len()
            invariant
                i <= self.equipment.len(),
                self.storage_ok(),
                forall|j: int| 0 <= j < i ==> self.equipment@[j].code != *code,
            decreases self.equipment.len() - i,
        {
            if bytes32_eq(&self.equipment[i].code, code) {
                proof {
                    lemma_keyed_index(self.equipment@, code_of(), i as int);
                }
                return Some(&self.equipment[i]);
            }
            i = i + 1;
        }
        None
    }

    /// Writes the equipment account of `e.code`, creating it if there is none.
    pub(crate) fn put_equipment(&mut self, e: EquipmentAccount)
        requires
            old(self).storage_ok(),
        ensures
            final(self).storage_ok(),
            final(self)@ == (LedgerView {
                equipment: old(self)@.equipment.insert(e.code, e),
                ..old(self)@
            }),
    {
        let mut i: usize = 0;
        while i < self.equipment.len()
            invariant
                i <= self.equipment.len(),
                self.storage_ok(),
                *self == *old(self),
                forall|j: int| 0 <= j < i ==> self.equipment@[j].code != e.code,
            decreases self.equipment.len() - i,
        {
            if bytes32_eq(&self.equipment[i].code, &e.code) {
                proof {
                    lemma_keyed_update(self.equipment@, code_of(), i as int, e);
                }
                self.equipment.set(i, e);
                return;
            }
            i = i + 1;
        }
        proof {
            lemma_keyed_push(self.equipment@, code_of(), e);
        }
        self.equipment.push(e);
    }

    /// The incident numbered `incident_id`, where it exists.
    pub fn incident(&self, incident_id: u64) -> (r: Option<&IncidentAccount>)
        requires
            self.storage_ok(),
        ensures
            r is Some <==> self@.incidents.contains_key(incident_id),
            r matches Some(n) ==> *n == self@.incidents[incident_id],
    {
        let mut i: usize = 0;
        while i < self.incidents.len()
            invariant
                i <= self.incidents.len(),
                self.storage_ok(),
                forall|j: int| 0 <= j < i ==> self.incidents@[j].incident_id != incident_id,
            decreases self.incidents.len() - i,
        {
            if self.incidents[i].incident_id == incident_id {
                proof {
                    lemma_keyed_index(self.incidents@, number_of(), i as int);
                }
                return Some(&self.incidents[i]);
            }
            i = i + 1;
        }
        None
    }

    /// Writes the incident numbered `n.incident_id`, creating it if there is none.
    pub(crate) fn put_incident(&mut self, n: IncidentAccount)
        requires
            old(self).storage_ok(),
        ensures
            final(self).storage_ok(),
            final(self)@ == (LedgerView {
                incidents: old(self)@.incidents.insert(n.incident_id, n),
                ..old(self)@
            }),
    {
        let mut i: usize = 0;
        while i < self.incidents.len()
            invariant
                i <= self.incidents.len(),
                self.storage_ok(),
                *self == *old(self),
                forall|j: int| 0 <= j < i ==> self.incidents@[j].incident_id != n.incident_id,
            decreases self.incidents.len() - i,
        {
            if self.incidents[i].incident_id == n.incident_id {
                proof {
                    lemma_keyed_update(self.incidents@, number_of(), i as int, n);
                }
                self.incidents.set(i, n);
                return;
            }
            i = i + 1;
        }
        proof {
            lemma_keyed_push(self.incidents@, number_of(), n);
        }
        self.incidents.push(n);
    }

    /// The log entry number `index` of the equipment `code`, where it exists.
    pub fn log_entry(&self, code: &[u8; 32], index: u64) -> (r: Option<&LogEntry>)
        requires
            self.storage_ok(),
        ensures
            r is Some <==> self@.log_entries.contains_key((*code, index)),
            r matches Some(l) ==> *l == self@.log_entries[(*code, index)],
    {
        let mut i: usize = 0;
        while i < self.log_entries.len()
            invariant
                i <= self.log_entries.len(),
                self.storage_ok(),
                forall|j: int|
                    0 <= j < i ==> #[trigger] entry_key_of()(self.log_entries@[j]) != (*code, index),
            decreases self.log_entries.len() - i,
        {
            if self.log_entries[i].entry_index == index && bytes32_eq(
                &self.log_entries[i].equipment_code,
                code,
            ) {
                proof {
                    lemma_keyed_index(self.log_entries@, entry_key_of(), i as int);
                }
                return Some(&self.log_entries[i]);
            }
            i = i + 1;
        }
        None
    }

    /// Writes the log entry of `l.equipment_code` and `l.entry_index`,
    /// creating it if there is none.
    pub(crate) fn put_log_entry(&mut self, l: LogEntry)
        requires
            old(self).storage_ok(),
        ensures
            final(self).storage_ok(),
            final(self)@ == (LedgerView {
                log_entries: old(self)@.log_entries.insert((l.equipment_code, l.entry_index), l),
                ..old(self)@
            }),
    {
        let ghost k = (l.equipment_code, l.entry_index);
        let mut i: usize = 0;
        while i < self.log_entries.len()
            invariant
                i <= self.log_entries.len(),
                self.storage_ok(),
                *self == *old(self),
                k == entry_key_of()(l),
                forall|j: int| 0 <= j < i ==> #[trigger] entry_key_of()(self.log_entries@[j]) != k,
            decreases self.log_entries.len() - i,
        {
            if self.log_entries[i].entry_index == l.entry_index && bytes32_eq(
                &self.log_entries[i].equipment_code,
                &l.equipment_code,
            ) {
                proof {
                    lemma_keyed_update(self.log_entries@, entry_key_of(), i as int, l);
                }
                self.log_entries.set(i, l);
                return;
            }
            i = i + 1;
        }
        proof {
            lemma_keyed_push(self.log_entries@, entry_key_of(), l);
        }
        self.log_entries.push(l);
    }
}

} // verus!
