use traz_log::error::{InstructionError, TrazLogError};
use traz_log::ledger::Ledger;
use traz_log::program;
use traz_log::state::{EquipmentStatus, Pubkey, ReportedCondition, Role};

fn key(n: u8) -> Pubkey {
    Pubkey::new_from_array([n; 32])
}

fn to_code(s: &str) -> [u8; 32] {
    let mut code = [0u8; 32];
    let bytes = s.as_bytes();
    let len = bytes.len().min(32);
    code[..len].copy_from_slice(&bytes[..len]);
    code
}

fn register(ledger: &mut Ledger, admin: Pubkey, wallet: Pubkey, role: Role, name: &str) {
    program::register_personnel(ledger, admin, wallet, name.to_string(), "Test".to_string(), role, 250)
        .unwrap();
}

/// Everything up to an equipment assigned to the operator in incident 0.
fn setup() -> (Ledger, Pubkey, Pubkey, Pubkey, [u8; 32]) {
    let mut ledger = Ledger::new();
    let admin = key(1);
    let scene_commander = key(2);
    let operator = key(3);
    let op_base = key(4);
    program::initialize(&mut ledger, admin, 254).unwrap();
    register(&mut ledger, admin, scene_commander, Role::SceneCommander, "Commander");
    register(&mut ledger, admin, operator, Role::Operator, "Operator");
    register(&mut ledger, admin, op_base, Role::OperationalBase, "OpsBase");
    let code = to_code("PUMP-GAMMA");
    program::register_equipment(&mut ledger, op_base, code, "Bomba gamma".to_string(), 800, 249)
        .unwrap();
    program::open_fire_incident(
        &mut ledger,
        scene_commander,
        0,
        "Test Incident".to_string(),
        "10.0,-84.0".to_string(),
        3,
        0,
        248,
    )
    .unwrap();
    program::assign_equipment(&mut ledger, scene_commander, code, 0, operator, 0).unwrap();
    (ledger, admin, scene_commander, operator, code)
}

fn log(
    ledger: &mut Ledger,
    signer: Pubkey,
    code: [u8; 32],
    condition: ReportedCondition,
) -> Result<(), InstructionError> {
    program::log_milestone(ledger, signer, code, "Field report".to_string(), condition, 0, 240)
}

#[test]
fn test_custodian_can_log_milestone() {
    let (mut ledger, _admin, _sc, operator, code) = setup();
    log(&mut ledger, operator, code, ReportedCondition::MinorDamage).unwrap();
    let e = ledger.equipment(&code).unwrap();
    assert_eq!(e.reported_condition, ReportedCondition::MinorDamage);
}

#[test]
fn test_milestone_updates_reported_condition() {
    let (mut ledger, _admin, _sc, operator, code) = setup();
    assert_eq!(ledger.equipment(&code).unwrap().reported_condition, ReportedCondition::Operational);
    log(&mut ledger, operator, code, ReportedCondition::CriticalDamage).unwrap();
    assert_eq!(
        ledger.equipment(&code).unwrap().reported_condition,
        ReportedCondition::CriticalDamage,
        "reported_condition must reflect the last logged milestone"
    );
    assert_eq!(ledger.equipment(&code).unwrap().status, EquipmentStatus::InUse);
}

#[test]
fn test_non_custodian_cannot_log_milestone() {
    let (mut ledger, admin, _sc, _operator, code) = setup();
    let intruder = key(7);
    register(&mut ledger, admin, intruder, Role::Operator, "Intruder Op");
    let r = log(&mut ledger, intruder, code, ReportedCondition::MinorDamage);
    assert!(r.is_err(), "non-custodian operator must not be able to log a milestone");
    assert_eq!(r, Err(InstructionError::Program(TrazLogError::NotCustodian)));
}

#[test]
fn test_wrong_role_cannot_log_milestone() {
    let (mut ledger, _admin, scene_commander, _operator, code) = setup();
    let r = log(&mut ledger, scene_commander, code, ReportedCondition::Lost);
    assert!(r.is_err(), "SceneCommander role must not be able to log a milestone");
    assert_eq!(r, Err(InstructionError::Program(TrazLogError::Unauthorized)));
}

#[test]
fn test_returned_equipment_takes_no_more_reports() {
    let (mut ledger, _admin, _sc, operator, code) = setup();
    program::initiate_return(&mut ledger, operator, code).unwrap();
    assert_eq!(
        log(&mut ledger, operator, code, ReportedCondition::Operational),
        Err(InstructionError::Program(TrazLogError::EquipmentNotInUse))
    );
}
