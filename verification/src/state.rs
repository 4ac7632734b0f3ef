//! The accounts that the program keeps, the enums of the domain, and the
//! 32-byte keys that address wallets and equipment.
use vstd::prelude::*;
use vstd::std_specs::cmp::PartialEqSpecImpl;
use vstd::utf8::encode_utf8;
use vstd::array::{array_fill_for_copy_types, spec_array_fill_for_copy_type};

verus! {

broadcast use vstd::array::group_array_axioms;

/// Compares two 32-byte strings byte by byte.
pub fn bytes32_eq(a: &[u8; 32], b: &[u8; 32]) -> (r: bool)
    ensures
        r == (*a == *b),
{
    let mut i: usize = 0;
    while i < 32
        invariant
            0 <= i <= 32,
            forall|j: int| 0 <= j < i ==> a[j] == b[j],
        decreases 32 - i,
    {
        if a[i] != b[i] {
            return false;
        }
        i = i + 1;
    }
    proof {
        assert(*a =~= *b);
    }
    true
}

/// Thirty-two zero bytes.
pub open spec fn zero_bytes() -> [u8; 32] {
    spec_array_fill_for_copy_type::<u8, 32>(0u8)
}

/// The address of a wallet or of an account: 32 bytes.
#[derive(Clone, Copy, Debug)]
pub struct Pubkey {
    pub bytes: [u8; 32],
}

impl Pubkey {
    /// The key whose bytes are `bytes`.
    pub fn new_from_array(bytes: [u8; 32]) -> (r: Pubkey)
        ensures
            r.bytes == bytes,
    {
        Pubkey { bytes }
    }

    /// The bytes of the key.
    pub fn to_bytes(&self) -> (r: [u8; 32])
        ensures
            r == self.bytes,
    {
        self.bytes
    }

    /// The all-zero key, which the program writes as the custodian of
    /// equipment that nobody holds.
    pub open spec fn spec_zero() -> Pubkey {
        Pubkey { bytes: zero_bytes() }
    }
}

impl Default for Pubkey {
    /// The all-zero key.
    fn default() -> (r: Pubkey)
        ensures
            r == Pubkey::spec_zero(),
    {
        Pubkey { bytes: array_fill_for_copy_types(0u8) }
    }
}

impl PartialEq for Pubkey {
    fn eq(&self, other: &Pubkey) -> (r: bool) {
        bytes32_eq(&self.bytes, &other.bytes)
    }
}

impl PartialEqSpecImpl for Pubkey {
    open spec fn obeys_eq_spec() -> bool {
        true
    }

    open spec fn eq_spec(&self, other: &Pubkey) -> bool {
        self.bytes == other.bytes
    }
}

/// Who may do what: each instruction checks the role of the signer's
/// personnel account.
#[derive(Clone, Copy, Debug, PartialEq, Eq, Structural)]
pub enum Role {
    Admin,
    OperationalBase,
    SceneCommander,
    Operator,
}

/// The life cycle of a piece of equipment; only the program moves it
/// (assignment, return).
#[derive(Clone, Copy, Debug, PartialEq, Eq, Structural)]
pub enum EquipmentStatus {
    Available,
    InUse,
    InRepair,
    Lost,
    Returning,
}

/// The condition that the operator reports from the field; it never changes
/// the status.
#[derive(Clone, Copy, Debug, PartialEq, Eq, Structural)]
pub enum ReportedCondition {
    Operational,
    MinorDamage,
    CriticalDamage,
    Lost,
}

/// The number of bytes that a string takes in an account: its UTF-8 encoding.
pub open spec fn str_bytes(s: String) -> int {
    encode_utf8(s@).len() as int
}

/// The UTF-8 length of a string, computed.
pub fn string_byte_len(s: &String) -> (n: usize)
    ensures
        n == str_bytes(*s),
{
    s.as_str().as_bytes().len()
}

/// The bytes that an `Option<u64>` takes: a tag, and the value when there is one.
pub open spec fn option_u64_bytes(o: Option<u64>) -> int {
    match o {
        Some(_) => 9,
        None => 1,
    }
}

/// The program's single configuration account.
#[derive(Clone, Copy, Debug, PartialEq)]
pub struct GlobalState {
    pub next_incident_id: u64,
    pub is_paused: bool,
    /// The only source of admin authority; it does not depend on any role.
    pub admin: Pubkey,
    pub bump: u8,
}

/// The bytes allocated to the configuration account: 8 + 8 + 1 + 32 + 1.
pub const GLOBAL_STATE_SPACE: usize = 50;

/// A registered member of the brigade.
#[derive(Debug, PartialEq)]
pub struct PersonnelAccount {
    pub wallet: Pubkey,
    /// At most 64 bytes are reserved for it.
    pub name: String,
    /// At most 64 bytes are reserved for it.
    pub specialty: String,
    pub is_active: bool,
    pub role: Role,
    /// `Some(id)` while the member holds equipment assigned in incident `id`.
    pub current_incident: Option<u64>,
    /// The pieces of equipment in use that the member holds; `current_incident`
    /// is cleared when it reaches 0.
    pub active_assignments: u8,
    pub bump: u8,
}

/// The bytes allocated to a personnel account:
/// 8 + 32 + (4 + 64) + (4 + 64) + 1 + 1 + (1 + 8) + 1 + 1.
pub const PERSONNEL_ACCOUNT_SPACE: usize = 189;

impl Clone for PersonnelAccount {
    fn clone(&self) -> (r: Self)
        ensures
            r == *self,
    {
        PersonnelAccount {
            wallet: self.wallet,
            name: self.name.clone(),
            specialty: self.specialty.clone(),
            is_active: self.is_active,
            role: self.role,
            current_incident: self.current_incident,
            active_assignments: self.active_assignments,
            bump: self.bump,
        }
    }
}

impl PersonnelAccount {
    /// The account as the program finds it right after creating it: all zero.
    pub fn zeroed() -> (r: PersonnelAccount)
        ensures
            r.wallet == Pubkey::spec_zero(),
            r.name@ == Seq::<char>::empty(),
            r.specialty@ == Seq::<char>::empty(),
            r.is_active == false,
            r.role == Role::Admin,
            r.current_incident == None::<u64>,
            r.active_assignments == 0,
            r.bump == 0,
    {
        PersonnelAccount {
            wallet: Pubkey::default(),
            name: String::new(),
            specialty: String::new(),
            is_active: false,
            role: Role::Admin,
            current_incident: None,
            active_assignments: 0,
            bump: 0,
        }
    }

    /// The size of the serialized account.
    pub open spec fn serialized_len(self) -> int {
        8 + 32 + (4 + str_bytes(self.name)) + (4 + str_bytes(self.specialty)) + 1 + 1
            + option_u64_bytes(self.current_incident) + 1 + 1
    }

    /// Whether the serialized account fits in the space allocated to it.
    pub open spec fn fits(self) -> bool {
        self.serialized_len() <= PERSONNEL_ACCOUNT_SPACE
    }

    /// Tests `fits`.
    pub fn fits_space(&self) -> (r: bool)
        ensures
            r == self.fits(),
    {
        let n: usize = string_byte_len(&self.name);
        let s: usize = string_byte_len(&self.specialty);
        let tag: usize = if self.current_incident.is_some() { 9 } else { 1 };
        n <= PERSONNEL_ACCOUNT_SPACE && s <= PERSONNEL_ACCOUNT_SPACE
            && 8 + 32 + 4 + n + 4 + s + 1 + 1 + tag + 1 + 1 <= PERSONNEL_ACCOUNT_SPACE
    }
}

/// A piece of equipment in the inventory.
#[derive(Debug, PartialEq)]
pub struct EquipmentAccount {
    pub code: [u8; 32],
    /// At most 128 bytes are reserved for it.
    pub description: String,
    /// Millilitres per hour.
    pub nominal_consumption: u64,
    /// Moved by the program (assignment and return).
    pub status: EquipmentStatus,
    /// Reported by the operator in the field; it does not touch `status`.
    pub reported_condition: ReportedCondition,
    pub custodian: Pubkey,
    pub incident_id: u64,
    /// Unix timestamp.
    pub use_start_time: i64,
    /// The number of log entries made for this equipment.
    pub log_count: u64,
    pub bump: u8,
}

/// The bytes allocated to an equipment account:
/// 8 + 32 + (4 + 128) + 8 + 1 + 1 + 32 + 8 + 8 + 8 + 1.
pub const EQUIPMENT_ACCOUNT_SPACE: usize = 239;

impl Clone for EquipmentAccount {
    fn clone(&self) -> (r: Self)
        ensures
            r == *self,
    {
        EquipmentAccount {
            code: self.code,
            description: self.description.clone(),
            nominal_consumption: self.nominal_consumption,
            status: self.status,
            reported_condition: self.reported_condition,
            custodian: self.custodian,
            incident_id: self.incident_id,
            use_start_time: self.use_start_time,
            log_count: self.log_count,
            bump: self.bump,
        }
    }
}

impl EquipmentAccount {
    /// The account as the program finds it right after creating it: all zero.
    pub fn zeroed() -> (r: EquipmentAccount)
        ensures
            r.code == zero_bytes(),
            r.description@ == Seq::<char>::empty(),
            r.nominal_consumption == 0,
            r.status == EquipmentStatus::Available,
            r.reported_condition == ReportedCondition::Operational,
            r.custodian == Pubkey::spec_zero(),
            r.incident_id == 0,
            r.use_start_time == 0,
            r.log_count == 0,
            r.bump == 0,
    {
        EquipmentAccount {
            code: array_fill_for_copy_types(0u8),
            description: String::new(),
            nominal_consumption: 0,
            status: EquipmentStatus::Available,
            reported_condition: ReportedCondition::Operational,
            custodian: Pubkey::default(),
            incident_id: 0,
            use_start_time: 0,
            log_count: 0,
            bump: 0,
        }
    }

    /// The size of the serialized account.
    pub open spec fn serialized_len(self) -> int {
        8 + 32 + (4 + str_bytes(self.description)) + 8 + 1 + 1 + 32 + 8 + 8 + 8 + 1
    }

    /// Whether the serialized account fits in the space allocated to it.
    pub open spec fn fits(self) -> bool {
        self.serialized_len() <= EQUIPMENT_ACCOUNT_SPACE
    }

    /// Tests `fits`.
    pub fn fits_space(&self) -> (r: bool)
        ensures
            r == self.fits(),
    {
        let d: usize = string_byte_len(&self.description);
        d <= EQUIPMENT_ACCOUNT_SPACE && 8 + 32 + 4 + d + 8 + 1 + 1 + 32 + 8 + 8 + 8 + 1
            <= EQUIPMENT_ACCOUNT_SPACE
    }
}

/// A fire incident.
#[derive(Debug, PartialEq)]
pub struct IncidentAccount {
    pub incident_id: u64,
    /// The GPS coordinates, or a description of the place; at most 128 bytes
    /// are reserved for it.
    pub coordinates: String,
    /// From 1 to 5.
    pub risk_level: u8,
    pub is_active: bool,
    /// Unix timestamp.
    pub opened_at: i64,
    /// The only wallet that may assign equipment to this incident.
    pub commander: Pubkey,
    pub bump: u8,
}

/// The bytes allocated to an incident account:
/// 8 + 8 + (4 + 128) + 1 + 1 + 8 + 32 + 1.
pub const INCIDENT_ACCOUNT_SPACE: usize = 191;

impl Clone for IncidentAccount {
    fn clone(&self) -> (r: Self)
        ensures
            r == *self,
    {
        IncidentAccount {
            incident_id: self.incident_id,
            coordinates: self.coordinates.clone(),
            risk_level: self.risk_level,
            is_active: self.is_active,
            opened_at: self.opened_at,
            commander: self.commander,
            bump: self.bump,
        }
    }
}

impl IncidentAccount {
    /// The account as the program finds it right after creating it: all zero.
    pub fn zeroed() -> (r: IncidentAccount)
        ensures
            r.incident_id == 0,
            r.coordinates@ == Seq::<char>::empty(),
            r.risk_level == 0,
            r.is_active == false,
            r.opened_at == 0,
            r.commander == Pubkey::spec_zero(),
            r.bump == 0,
    {
        IncidentAccount {
            incident_id: 0,
            coordinates: String::new(),
            risk_level: 0,
            is_active: false,
            opened_at: 0,
            commander: Pubkey::default(),
            bump: 0,
        }
    }

    /// The size of the serialized account.
    pub open spec fn serialized_len(self) -> int {
        8 + 8 + (4 + str_bytes(self.coordinates)) + 1 + 1 + 8 + 32 + 1
    }

    /// Whether the serialized account fits in the space allocated to it.
    pub open spec fn fits(self) -> bool {
        self.serialized_len() <= INCIDENT_ACCOUNT_SPACE
    }

    /// Tests `fits`.
    pub fn fits_space(&self) -> (r: bool)
        ensures
            r == self.fits(),
    {
        let c: usize = string_byte_len(&self.coordinates);
        c <= INCIDENT_ACCOUNT_SPACE && 8 + 8 + 4 + c + 1 + 1 + 8 + 32 + 1 <= INCIDENT_ACCOUNT_SPACE
    }
}

/// One report from the field, kept as an account of its own so that the
/// whole history of an equipment can be read.
#[derive(Debug, PartialEq)]
pub struct LogEntry {
    pub equipment_code: [u8; 32],
    /// At most 256 bytes are reserved for it.
    pub notes: String,
    pub condition: ReportedCondition,
    pub operator: Pubkey,
    pub timestamp: i64,
    pub entry_index: u64,
    pub bump: u8,
}

/// The bytes allocated to a log entry: 8 + 32 + (4 + 256) + 1 + 32 + 8 + 8 + 1.
pub const LOG_ENTRY_SPACE: usize = 350;

impl Clone for LogEntry {
    fn clone(&self) -> (r: Self)
        ensures
            r == *self,
    {
        LogEntry {
            equipment_code: self.equipment_code,
            notes: self.notes.clone(),
            condition: self.condition,
            operator: self.operator,
            timestamp: self.timestamp,
            entry_index: self.entry_index,
            bump: self.bump,
        }
    }
}

impl LogEntry {
    /// The account as the program finds it right after creating it: all zero.
    pub fn zeroed() -> (r: LogEntry)
        ensures
            r.equipment_code == zero_bytes(),
            r.notes@ == Seq::<char>::empty(),
            r.condition == ReportedCondition::Operational,
            r.operator == Pubkey::spec_zero(),
            r.timestamp == 0,
            r.entry_index == 0,
            r.bump == 0,
    {
        LogEntry {
            equipment_code: array_fill_for_copy_types(0u8),
            notes: String::new(),
            condition: ReportedCondition::Operational,
            operator: Pubkey::default(),
            timestamp: 0,
            entry_index: 0,
            bump: 0,
        }
    }

    /// The size of the serialized account.
    pub open spec fn serialized_len(self) -> int {
        8 + 32 + (4 + str_bytes(self.notes)) + 1 + 32 + 8 + 8 + 1
    }

    /// Whether the serialized account fits in the space allocated to it.
    pub open spec fn fits(self) -> bool {
        self.serialized_len() <= LOG_ENTRY_SPACE
    }

    /// Tests `fits`.
    pub fn fits_space(&self) -> (r: bool)
        ensures
            r == self.fits(),
    {
        let n: usize = string_byte_len(&self.notes);
        n <= LOG_ENTRY_SPACE && 8 + 32 + 4 + n + 1 + 32 + 8 + 8 + 1 <= LOG_ENTRY_SPACE
    }
}

} // verus!
