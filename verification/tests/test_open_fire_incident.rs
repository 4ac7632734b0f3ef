use traz_log::error::{InstructionError, TrazLogError};
use traz_log::events::IncidentOpened;
use traz_log::ledger::Ledger;
use traz_log::program;
use traz_log::state::{Pubkey, Role, INCIDENT_ACCOUNT_SPACE};

fn key(n: u8) -> Pubkey {
    Pubkey::new_from_array([n; 32])
}

/// Initializes the system and registers a scene commander.
fn setup() -> (Ledger, Pubkey, Pubkey) {
    let mut ledger = Ledger::new();
    let admin = key(1);
    let sc = key(2);
    program::initialize(&mut ledger, admin, 254).unwrap();
    program::register_personnel(
        &mut ledger,
        admin,
        sc,
        "Commander".to_string(),
        "Test".to_string(),
        Role::SceneCommander,
        253,
    )
    .unwrap();
    (ledger, admin, sc)
}

fn open_incident(
    ledger: &mut Ledger,
    signer: Pubkey,
    incident_id: u64,
    coordinates: &str,
    risk_level: u8,
) -> Result<IncidentOpened, InstructionError> {
    program::open_fire_incident(
        ledger,
        signer,
        incident_id,
        String::new(),
        coordinates.to_string(),
        risk_level,
        0,
        251,
    )
}

#[test]
fn test_scene_commander_opens_incident_successfully() {
    let (mut ledger, _admin, sc) = setup();
    open_incident(&mut ledger, sc, 0, "10.123,-84.567", 3).unwrap();
    assert!(ledger.incident(0).is_some(), "IncidentAccount PDA must exist after open");
}

#[test]
fn test_incident_account_fields_are_correct() {
    let (mut ledger, _admin, sc) = setup();
    let ev = open_incident(&mut ledger, sc, 0, "9.934,-84.082", 4).unwrap();
    assert_eq!(ev, IncidentOpened { incident_id: 0, commander: sc, risk_level: 4 });
    let inc = ledger.incident(0).unwrap();
    assert_eq!(inc.incident_id, 0);
    assert_eq!(inc.coordinates, "9.934,-84.082");
    assert_eq!(inc.risk_level, 4);
    assert!(inc.is_active, "incident must be active after open");
    assert_eq!(inc.commander, sc);
}

#[test]
fn test_next_incident_id_increments_after_open() {
    let (mut ledger, _admin, sc) = setup();
    let before = ledger.global_state().unwrap().next_incident_id;
    assert_eq!(before, 0);
    open_incident(&mut ledger, sc, 0, "0,0", 2).unwrap();
    let after = ledger.global_state().unwrap().next_incident_id;
    assert_eq!(after, 1, "next_incident_id must increment after opening an incident");
}

#[test]
fn test_incident_account_size_is_191_bytes() {
    let (mut ledger, _admin, sc) = setup();
    open_incident(&mut ledger, sc, 0, "0,0", 1).unwrap();
    assert!(ledger.incident(0).is_some());
    // 8 discriminador + 8 incident_id + (4+128) coordinates + 1 risk_level
    // + 1 is_active + 8 opened_at + 32 commander + 1 bump
    let expected = 8 + 8 + 132 + 1 + 1 + 8 + 32 + 1;
    assert_eq!(
        INCIDENT_ACCOUNT_SPACE, expected,
        "IncidentAccount size mismatch: got {}, expected {}",
        INCIDENT_ACCOUNT_SPACE, expected
    );
    // measured: coordinates of 128 bytes fill the account exactly, and the
    // description takes no room in it
    let full = "c".repeat(128);
    let long_description = "d".repeat(300);
    program::open_fire_incident(&mut ledger, sc, 1, long_description, full.clone(), 1, 0, 250).unwrap();
    assert_eq!(ledger.incident(1).unwrap().coordinates, full);
    let over = "c".repeat(129);
    assert_eq!(
        open_incident(&mut ledger, sc, 2, &over, 1),
        Err(InstructionError::AccountDidNotSerialize)
    );
    assert!(ledger.incident(2).is_none());
}

#[test]
fn test_invalid_risk_level_fails() {
    let (mut ledger, _admin, sc) = setup();
    let r = open_incident(&mut ledger, sc, 0, "0,0", 6);
    assert!(r.is_err(), "risk_level=6 must be rejected");
    assert_eq!(r, Err(InstructionError::Program(TrazLogError::InvalidRiskLevel)));
    assert_eq!(
        open_incident(&mut ledger, sc, 0, "0,0", 0),
        Err(InstructionError::Program(TrazLogError::InvalidRiskLevel))
    );
    assert!(open_incident(&mut ledger, sc, 0, "0,0", 5).is_ok());
}

#[test]
fn test_wrong_incident_id_fails() {
    let (mut ledger, _admin, sc) = setup();
    let r = open_incident(&mut ledger, sc, 1, "0,0", 2);
    assert!(r.is_err(), "mismatched incident_id must be rejected");
    assert_eq!(r, Err(InstructionError::Program(TrazLogError::InvalidIncidentId)));
    assert_eq!(ledger.global_state().unwrap().next_incident_id, 0);
}

#[test]
fn test_incidents_are_numbered_in_order() {
    let (mut ledger, _admin, sc) = setup();
    open_incident(&mut ledger, sc, 0, "0,0", 1).unwrap();
    open_incident(&mut ledger, sc, 1, "0,0", 1).unwrap();
    // an incident cannot be opened twice
    assert_eq!(
        open_incident(&mut ledger, sc, 1, "0,0", 1),
        Err(InstructionError::AccountAlreadyInUse)
    );
    assert_eq!(ledger.global_state().unwrap().next_incident_id, 2);
}

#[test]
fn test_operator_cannot_open_incident() {
    let (mut ledger, admin, _sc) = setup();
    let op = key(3);
    program::register_personnel(
        &mut ledger,
        admin,
        op,
        "Op".to_string(),
        "Ground".to_string(),
        Role::Operator,
        250,
    )
    .unwrap();
    assert_eq!(
        open_incident(&mut ledger, op, 0, "0,0", 1),
        Err(InstructionError::Program(TrazLogError::Unauthorized))
    );
}
