use traz_log::error::{InstructionError, TrazLogError};
use traz_log::events::PersonnelRegistered;
use traz_log::ledger::Ledger;
use traz_log::program;
use traz_log::state::{Pubkey, Role, PERSONNEL_ACCOUNT_SPACE};

fn key(n: u8) -> Pubkey {
    Pubkey::new_from_array([n; 32])
}

fn setup() -> (Ledger, Pubkey) {
    let mut ledger = Ledger::new();
    let admin = key(1);
    program::initialize(&mut ledger, admin, 254).unwrap();
    (ledger, admin)
}

fn register(
    ledger: &mut Ledger,
    signer: Pubkey,
    wallet: Pubkey,
    name: &str,
    specialty: &str,
    role: Role,
) -> Result<PersonnelRegistered, InstructionError> {
    program::register_personnel(ledger, signer, wallet, name.to_string(), specialty.to_string(), role, 253)
}

#[test]
fn test_admin_registers_personnel_successfully() {
    let (mut ledger, admin) = setup();
    let member = key(2);
    register(&mut ledger, admin, member, "Ana Garcia", "Logistics", Role::OperationalBase).unwrap();
    assert!(
        ledger.personnel(&member).is_some(),
        "PersonnelAccount PDA must exist after registration"
    );
}

#[test]
fn test_personnel_account_fields_are_correct() {
    let (mut ledger, admin) = setup();
    let member = key(2);
    let ev = register(&mut ledger, admin, member, "Carlos Ruiz", "Scene Command", Role::SceneCommander)
        .unwrap();
    assert_eq!(ev, PersonnelRegistered { wallet: member, role: Role::SceneCommander });
    let p = ledger.personnel(&member).unwrap();
    assert_eq!(p.wallet, member, "wallet mismatch");
    assert_eq!(p.name, "Carlos Ruiz", "name mismatch");
    assert_eq!(p.specialty, "Scene Command", "specialty mismatch");
    assert!(p.is_active, "personnel must be active after registration");
    assert_eq!(p.role, Role::SceneCommander, "role mismatch");
    assert_eq!(p.current_incident, None);
    assert_eq!(p.active_assignments, 0);
}

#[test]
fn test_personnel_account_size_is_189_bytes() {
    let (mut ledger, admin) = setup();
    let member = key(2);
    register(&mut ledger, admin, member, "Test", "Test", Role::Operator).unwrap();
    assert!(ledger.personnel(&member).is_some());
    // 8 discriminador + 32 wallet + (4+64) name + (4+64) specialty + 1 is_active + 1 role
    // + (1+8) current_incident + 1 active_assignments + 1 bump
    let expected = 8 + 32 + 68 + 68 + 1 + 1 + 9 + 1 + 1;
    assert_eq!(
        PERSONNEL_ACCOUNT_SPACE, expected,
        "PersonnelAccount size mismatch: got {}, expected {}",
        PERSONNEL_ACCOUNT_SPACE, expected
    );
    // measured: with no incident (1 byte instead of 9), name and specialty
    // can fill the account up to exactly `expected` bytes and not one more
    let fixed_without_strings = 8 + 32 + 4 + 4 + 1 + 1 + 1 + 1 + 1;
    let room = expected - fixed_without_strings;
    let name = "n".repeat(room / 2);
    let specialty = "s".repeat(room - room / 2);
    assert!(register(&mut ledger, admin, key(3), &name, &specialty, Role::Operator).is_ok());
    let one_more = "s".repeat(room - room / 2 + 1);
    assert_eq!(
        register(&mut ledger, admin, key(4), &name, &one_more, Role::Operator),
        Err(InstructionError::AccountDidNotSerialize)
    );
}

#[test]
fn test_non_admin_cannot_register_personnel() {
    let (mut ledger, _admin) = setup();
    let attacker = key(8);
    let victim = key(9);
    let r = register(&mut ledger, attacker, victim, "Fake", "Intruder", Role::Admin);
    assert!(r.is_err(), "non-admin must not be able to register personnel");
    assert_eq!(r, Err(InstructionError::Program(TrazLogError::Unauthorized)));
    assert!(ledger.personnel(&victim).is_none());
}

#[test]
fn test_paused_system_blocks_personnel_registration() {
    let (mut ledger, admin) = setup();
    program::toggle_pause(&mut ledger, admin).unwrap();
    let member = key(2);
    let r = register(&mut ledger, admin, member, "Blocked", "None", Role::Operator);
    assert!(r.is_err(), "paused system must reject personnel registration");
    assert_eq!(r, Err(InstructionError::Program(TrazLogError::SystemPaused)));
}

#[test]
fn test_active_operational_base_can_register_personnel() {
    let (mut ledger, admin) = setup();
    let base = key(2);
    register(&mut ledger, admin, base, "Base", "Inventory", Role::OperationalBase).unwrap();
    let member = key(3);
    register(&mut ledger, base, member, "Member", "Ground", Role::Operator).unwrap();
    assert_eq!(ledger.personnel(&member).unwrap().role, Role::Operator);
}

#[test]
fn test_commander_cannot_register_personnel() {
    let (mut ledger, admin) = setup();
    let commander = key(2);
    register(&mut ledger, admin, commander, "Cmdr", "Scene", Role::SceneCommander).unwrap();
    assert_eq!(
        register(&mut ledger, commander, key(3), "X", "Y", Role::Operator),
        Err(InstructionError::Program(TrazLogError::Unauthorized))
    );
}

#[test]
fn test_registering_a_wallet_twice_fails() {
    let (mut ledger, admin) = setup();
    let member = key(2);
    register(&mut ledger, admin, member, "First", "A", Role::Operator).unwrap();
    assert_eq!(
        register(&mut ledger, admin, member, "Second", "B", Role::SceneCommander),
        Err(InstructionError::AccountAlreadyInUse)
    );
    assert_eq!(ledger.personnel(&member).unwrap().name, "First");
}

#[test]
fn test_registration_before_initialize_fails() {
    let mut ledger = Ledger::new();
    assert_eq!(
        register(&mut ledger, key(1), key(2), "A", "B", Role::Operator),
        Err(InstructionError::AccountNotInitialized)
    );
}

#[test]
fn test_names_that_do_not_fit_the_account_are_refused() {
    let (mut ledger, admin) = setup();
    // name and specialty share 136 bytes once the fixed fields are counted
    let long = "x".repeat(137);
    assert_eq!(
        register(&mut ledger, admin, key(2), &long, "", Role::Operator),
        Err(InstructionError::AccountDidNotSerialize)
    );
    let exact = "y".repeat(136);
    assert!(register(&mut ledger, admin, key(3), &exact, "", Role::Operator).is_ok());
    // a two-byte character counts twice
    let accented = "é".repeat(69);
    assert_eq!(
        register(&mut ledger, admin, key(4), &accented, "", Role::Operator),
        Err(InstructionError::AccountDidNotSerialize)
    );
}
