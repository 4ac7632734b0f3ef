use traz_log::error::{InstructionError, TrazLogError};
use traz_log::ledger::Ledger;
use traz_log::program;
use traz_log::state::{Pubkey, GLOBAL_STATE_SPACE};

fn key(n: u8) -> Pubkey {
    Pubkey::new_from_array([n; 32])
}

fn setup() -> (Ledger, Pubkey) {
    let mut ledger = Ledger::new();
    let admin = key(1);
    program::initialize(&mut ledger, admin, 254).unwrap();
    (ledger, admin)
}

#[test]
fn test_global_state_account_size_is_50_bytes() {
    let (ledger, _) = setup();
    assert!(ledger.global_state().is_some(), "GlobalState not found");
    // 8 discriminador + 8 next_incident_id + 1 is_paused + 32 admin + 1 bump
    let expected = 8 + 8 + 1 + 32 + 1;
    assert_eq!(
        GLOBAL_STATE_SPACE, expected,
        "GlobalState size mismatch: got {}, expected {}",
        GLOBAL_STATE_SPACE, expected
    );
}

#[test]
fn test_global_state_fields_after_initialize() {
    let (ledger, admin) = setup();
    let state = ledger.global_state().unwrap();
    assert_eq!(state.next_incident_id, 0, "next_incident_id debe empezar en 0");
    assert!(!state.is_paused, "sistema no debe estar pausado al inicio");
    assert_eq!(state.admin, admin, "admin debe ser quien firmó initialize");
}

#[test]
fn test_admin_can_pause_system() {
    let (mut ledger, admin) = setup();
    program::toggle_pause(&mut ledger, admin).unwrap();
    let state = ledger.global_state().unwrap();
    assert!(state.is_paused, "sistema debe estar pausado después de toggle");
}

#[test]
fn test_admin_can_unpause_system() {
    let (mut ledger, admin) = setup();
    program::toggle_pause(&mut ledger, admin).unwrap();
    program::toggle_pause(&mut ledger, admin).unwrap();
    let state = ledger.global_state().unwrap();
    assert!(!state.is_paused, "sistema debe estar activo después de doble toggle");
}

#[test]
fn test_non_admin_cannot_toggle_pause() {
    let (mut ledger, _admin) = setup();
    let attacker = key(9);
    let r = program::toggle_pause(&mut ledger, attacker);
    assert!(r.is_err(), "wallet no-admin no debe poder pausar el sistema");
    assert_eq!(r, Err(InstructionError::Program(TrazLogError::Unauthorized)));
    assert!(!ledger.global_state().unwrap().is_paused);
}

#[test]
fn test_toggle_pause_before_initialize_fails() {
    let mut ledger = Ledger::new();
    assert_eq!(
        program::toggle_pause(&mut ledger, key(1)),
        Err(InstructionError::AccountNotInitialized)
    );
}

#[test]
fn test_initialize_twice_fails_and_keeps_the_first_admin() {
    let (mut ledger, admin) = setup();
    assert_eq!(
        program::initialize(&mut ledger, key(2), 1),
        Err(InstructionError::AccountAlreadyInUse)
    );
    assert_eq!(ledger.global_state().unwrap().admin, admin);
}
