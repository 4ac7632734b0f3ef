use traz_log::error::{InstructionError, TrazLogError};
use traz_log::ledger::Ledger;
use traz_log::program;
use traz_log::state::{EquipmentStatus, Pubkey, ReportedCondition, Role};

fn key(n: u8) -> Pubkey {
    Pubkey::new_from_array([n; 32])
}

fn to_code(s: &str) -> [u8; 32] {
    let mut c = [0u8; 32];
    let b = s.as_bytes();
    c[..b.len().min(32)].copy_from_slice(&b[..b.len().min(32)]);
    c
}

#[test]
fn test_complete_firefighting_incident_lifecycle() {
    let mut ledger = Ledger::new();
    let admin = key(1);
    let scene_cmd = key(2);
    let operator = key(3);
    let op_base = key(4);
    let code = to_code("ENGINE-01");

    // Step 1: initialize
    program::initialize(&mut ledger, admin, 254).unwrap();
    let gs = ledger.global_state().unwrap();
    assert_eq!(gs.admin, admin, "admin incorrecto en GlobalState");
    assert!(!gs.is_paused, "sistema debe estar activo tras inicialización");
    assert_eq!(gs.next_incident_id, 0, "contador de incidentes debe iniciar en 0");

    // Step 2: personnel
    for (wallet, role, name) in [
        (scene_cmd, Role::SceneCommander, "Cmdr. García"),
        (operator, Role::Operator, "Op. Rodríguez"),
        (op_base, Role::OperationalBase, "Base Logística"),
    ] {
        program::register_personnel(
            &mut ledger,
            admin,
            wallet,
            name.to_string(),
            "Firefighting".to_string(),
            role,
            250,
        )
        .unwrap();
    }
    assert!(ledger.personnel(&scene_cmd).is_some());
    assert!(ledger.personnel(&operator).is_some());
    assert!(ledger.personnel(&op_base).is_some());

    // Step 3: equipment
    program::register_equipment(&mut ledger, op_base, code, "Autobomba pesada".to_string(), 1200, 249)
        .unwrap();
    let eq = ledger.equipment(&code).unwrap();
    assert_eq!(eq.status, EquipmentStatus::Available, "equipo recién registrado debe ser Available");
    assert_eq!(eq.nominal_consumption, 1200);

    // Step 4: incident 0
    program::open_fire_incident(
        &mut ledger,
        scene_cmd,
        0,
        "Test Incident".to_string(),
        "9.9281,-84.0907".to_string(),
        4,
        0,
        248,
    )
    .unwrap();
    let inc = ledger.incident(0).unwrap();
    assert!(inc.is_active, "incidente debe estar activo tras apertura");
    assert_eq!(inc.risk_level, 4);
    assert_eq!(inc.commander, scene_cmd);
    assert_eq!(
        ledger.global_state().unwrap().next_incident_id,
        1,
        "contador debe ser 1 tras abrir incidente 0"
    );

    // Step 5: assignment
    program::assign_equipment(&mut ledger, scene_cmd, code, 0, operator, 0).unwrap();
    let eq = ledger.equipment(&code).unwrap();
    assert_eq!(eq.status, EquipmentStatus::InUse, "equipo asignado debe estar InUse");
    assert_eq!(eq.custodian, operator, "custodio debe ser el operador asignado");
    assert_eq!(eq.incident_id, 0);

    // Step 6: report
    program::log_milestone(
        &mut ledger,
        operator,
        code,
        "Bomba operando con presión reducida".to_string(),
        ReportedCondition::MinorDamage,
        0,
        247,
    )
    .unwrap();
    let eq_after_log = ledger.equipment(&code).unwrap();
    assert_eq!(
        eq_after_log.reported_condition,
        ReportedCondition::MinorDamage,
        "condición reportada debe ser MinorDamage"
    );
    assert_eq!(eq_after_log.log_count, 1, "log_count debe ser 1 tras primer reporte");
    let entry = ledger.log_entry(&code, 0).unwrap();
    assert_eq!(entry.entry_index, 0);
    assert_eq!(entry.condition, ReportedCondition::MinorDamage);
    assert_eq!(entry.operator, operator);

    // Step 7: close (lazy)
    program::close_incident(&mut ledger, scene_cmd, 0).unwrap();
    assert!(!ledger.incident(0).unwrap().is_active, "incidente debe estar inactivo tras cierre");
    assert_eq!(
        ledger.equipment(&code).unwrap().status,
        EquipmentStatus::InUse,
        "equipo permanece InUse hasta que el operador inicie retorno"
    );

    // Step 8: return
    program::initiate_return(&mut ledger, operator, code).unwrap();
    assert_eq!(
        ledger.equipment(&code).unwrap().status,
        EquipmentStatus::Returning,
        "equipo debe estar Returning tras initiate_return"
    );

    // Final state
    let gs_final = ledger.global_state().unwrap();
    assert_eq!(gs_final.next_incident_id, 1, "GlobalState debe reflejar 1 incidente registrado");
    assert!(!gs_final.is_paused, "sistema debe seguir activo al finalizar el ciclo");
}

/// A day of three incidents: two commanders, one operational base, two
/// operators; both guardrails fire and are then corrected.
#[test]
fn test_day_with_three_incidents() {
    let mut ledger = Ledger::new();
    let admin = key(1);
    let sofia = key(2);
    let andres = key(3);
    let marta = key(4);
    let diego = key(5);
    let valeria = key(6);
    program::initialize(&mut ledger, admin, 254).unwrap();
    for (wallet, role, name) in [
        (sofia, Role::SceneCommander, "Sofía Ramírez"),
        (andres, Role::SceneCommander, "Andrés Paredes"),
        (marta, Role::OperationalBase, "Marta Chávez"),
        (diego, Role::Operator, "Diego Salazar"),
        (valeria, Role::Operator, "Valeria Núñez"),
    ] {
        program::register_personnel(&mut ledger, admin, wallet, name.to_string(), "Brigada".to_string(), role, 250)
            .unwrap();
    }
    for (code, desc, cons) in [
        ("BOMBA-01", "Motobomba 01", 4000),
        ("RADIO-01", "Radio Motorola 01", 0),
        ("GPS-01", "GPS Garmin 01", 0),
        ("BOMBA-02", "Motobomba 02", 4000),
    ] {
        program::register_equipment(&mut ledger, marta, to_code(code), desc.to_string(), cons, 249).unwrap();
    }
    let open = |ledger: &mut Ledger, who: Pubkey, id: u64, risk: u8| {
        program::open_fire_incident(ledger, who, id, "Incendio".to_string(), "-0.2,-78.4".to_string(), risk, 0, 248)
    };
    open(&mut ledger, sofia, 0, 3).unwrap();
    program::assign_equipment(&mut ledger, sofia, to_code("BOMBA-01"), 0, diego, 1).unwrap();
    open(&mut ledger, andres, 1, 1).unwrap();

    // Sofía picks the wrong incident: she does not command #1.
    assert_eq!(
        program::assign_equipment(&mut ledger, sofia, to_code("RADIO-01"), 1, diego, 2),
        Err(InstructionError::Program(TrazLogError::NotIncidentCommander))
    );
    program::assign_equipment(&mut ledger, sofia, to_code("RADIO-01"), 0, diego, 2).unwrap();
    program::assign_equipment(&mut ledger, andres, to_code("BOMBA-02"), 1, valeria, 3).unwrap();

    // Valeria is committed to #1.
    assert_eq!(
        program::assign_equipment(&mut ledger, sofia, to_code("GPS-01"), 0, valeria, 4),
        Err(InstructionError::Program(TrazLogError::OperatorAlreadyAssigned))
    );
    program::assign_equipment(&mut ledger, sofia, to_code("GPS-01"), 0, diego, 4).unwrap();
    assert_eq!(ledger.personnel(&diego).unwrap().active_assignments, 3);

    program::log_milestone(&mut ledger, diego, to_code("RADIO-01"), "Antena doblada".to_string(), ReportedCondition::MinorDamage, 5, 247).unwrap();
    program::log_milestone(&mut ledger, valeria, to_code("BOMBA-02"), "Motor sobrecalentado".to_string(), ReportedCondition::CriticalDamage, 5, 247).unwrap();

    for c in ["RADIO-01", "GPS-01", "BOMBA-01"] {
        program::initiate_return(&mut ledger, diego, to_code(c)).unwrap();
    }
    let d = ledger.personnel(&diego).unwrap();
    assert_eq!(d.active_assignments, 0);
    assert_eq!(d.current_incident, None);
    program::close_incident(&mut ledger, sofia, 0).unwrap();

    // Returning equipment cannot be assigned again.
    open(&mut ledger, sofia, 2, 4).unwrap();
    assert_eq!(
        program::assign_equipment(&mut ledger, sofia, to_code("BOMBA-01"), 2, diego, 6),
        Err(InstructionError::Program(TrazLogError::EquipmentNotAvailable))
    );
    program::register_equipment(&mut ledger, marta, to_code("VEHICULO4X4-01"), "Vehículo 4x4 01".to_string(), 0, 249).unwrap();
    program::assign_equipment(&mut ledger, sofia, to_code("VEHICULO4X4-01"), 2, diego, 7).unwrap();
    assert_eq!(ledger.personnel(&diego).unwrap().current_incident, Some(2));

    // Valeria's return keeps the condition she reported.
    program::initiate_return(&mut ledger, valeria, to_code("BOMBA-02")).unwrap();
    let b2 = ledger.equipment(&to_code("BOMBA-02")).unwrap();
    assert_eq!(b2.status, EquipmentStatus::Returning);
    assert_eq!(b2.reported_condition, ReportedCondition::CriticalDamage);
    program::close_incident(&mut ledger, andres, 1).unwrap();
    assert_eq!(ledger.global_state().unwrap().next_incident_id, 3);
}

#[test]
fn test_only_the_custodian_returns_equipment() {
    let mut ledger = Ledger::new();
    let admin = key(1);
    let sc = key(2);
    let op = key(3);
    let other = key(4);
    let base = key(5);
    program::initialize(&mut ledger, admin, 254).unwrap();
    for (w, r) in [(sc, Role::SceneCommander), (op, Role::Operator), (other, Role::Operator), (base, Role::OperationalBase)] {
        program::register_personnel(&mut ledger, admin, w, "N".to_string(), "S".to_string(), r, 250).unwrap();
    }
    let code = to_code("HOSE-01");
    program::register_equipment(&mut ledger, base, code, "Manguera".to_string(), 0, 249).unwrap();
    // not in use yet: nobody holds it
    assert_eq!(
        program::initiate_return(&mut ledger, op, code),
        Err(InstructionError::Program(TrazLogError::NotCustodian))
    );
    program::open_fire_incident(&mut ledger, sc, 0, "I".to_string(), "0,0".to_string(), 2, 0, 248).unwrap();
    program::assign_equipment(&mut ledger, sc, code, 0, op, 0).unwrap();
    assert_eq!(
        program::initiate_return(&mut ledger, other, code),
        Err(InstructionError::Program(TrazLogError::NotCustodian))
    );
    program::toggle_pause(&mut ledger, admin).unwrap();
    assert_eq!(
        program::initiate_return(&mut ledger, op, code),
        Err(InstructionError::Program(TrazLogError::SystemPaused))
    );
    program::toggle_pause(&mut ledger, admin).unwrap();
    program::initiate_return(&mut ledger, op, code).unwrap();
    assert_eq!(
        program::initiate_return(&mut ledger, op, code),
        Err(InstructionError::Program(TrazLogError::EquipmentNotInUse))
    );
}

#[test]
fn test_pause_blocks_every_instruction_but_the_toggle() {
    let mut ledger = Ledger::new();
    let admin = key(1);
    let sc = key(2);
    let op = key(3);
    let base = key(4);
    program::initialize(&mut ledger, admin, 254).unwrap();
    for (w, r) in [(sc, Role::SceneCommander), (op, Role::Operator), (base, Role::OperationalBase)] {
        program::register_personnel(&mut ledger, admin, w, "N".to_string(), "S".to_string(), r, 250).unwrap();
    }
    let code = to_code("AXE-01");
    program::register_equipment(&mut ledger, base, code, "Hacha".to_string(), 0, 249).unwrap();
    program::open_fire_incident(&mut ledger, sc, 0, "I".to_string(), "0,0".to_string(), 1, 0, 248).unwrap();
    program::assign_equipment(&mut ledger, sc, code, 0, op, 0).unwrap();
    program::toggle_pause(&mut ledger, admin).unwrap();
    let paused = Err(InstructionError::Program(TrazLogError::SystemPaused));
    assert_eq!(
        program::register_personnel(&mut ledger, admin, key(9), "N".to_string(), "S".to_string(), Role::Operator, 1)
            .map(|_| ()),
        paused
    );
    assert_eq!(
        program::register_equipment(&mut ledger, base, to_code("AXE-02"), "x".to_string(), 0, 1).map(|_| ()),
        paused
    );
    assert_eq!(
        program::open_fire_incident(&mut ledger, sc, 1, "I".to_string(), "0,0".to_string(), 1, 0, 1).map(|_| ()),
        paused
    );
    assert_eq!(
        program::log_milestone(&mut ledger, op, code, "n".to_string(), ReportedCondition::Lost, 0, 1),
        paused
    );
    assert_eq!(program::initiate_return(&mut ledger, op, code), paused);
    assert_eq!(program::close_incident(&mut ledger, sc, 0).map(|_| ()), paused);
    assert_eq!(ledger.global_state().unwrap().next_incident_id, 1);
    assert_eq!(ledger.equipment(&code).unwrap().log_count, 0);
    program::toggle_pause(&mut ledger, admin).unwrap();
    program::close_incident(&mut ledger, sc, 0).unwrap();
}
