use quake::contract::QuakeContract;
use quake::errors::QuakeError;
use quake::storage::ContractEnv;
use quake::types::{
    crop_trigger, Address, InsuranceVertical, LocationHash, PolicyId, PolicyState,
};

// ---------------------------------------------------------------------------
// Helpers
// ---------------------------------------------------------------------------

/// A contract address whose 32-byte hash is `seed` repeated.
fn address(seed: u8) -> Address {
    let mut xdr = vec![0, 0, 0, 18, 0, 0, 0, 1];
    xdr.extend_from_slice(&[seed; 32]);
    Address::from_xdr(xdr)
}

fn setup() -> ContractEnv {
    let mut env = ContractEnv::new();
    env.mock_all_auths();
    QuakeContract::initialize(&mut env, address(200), 30_u32, 2_u32).unwrap();
    env
}

fn location(seed: u8) -> LocationHash {
    [seed; 32]
}

fn create_basic_policy(env: &mut ContractEnv) -> (Address, PolicyId) {
    let policyholder = address(100);
    let loc = location(1);

    let id = QuakeContract::create_policy(
        env,
        policyholder.duplicate(),
        InsuranceVertical::CropRainfall,
        address(101),
        500_0000000_i128,
        address(101),
        1_000_i128,
        2_592_000_u32,
        crop_trigger(2),
        loc,
    )
    .unwrap();

    (policyholder, id)
}

/// A second contract with a known admin and a registered crop oracle.
fn contract_with_oracle(admin: &Address, oracle: &Address) -> ContractEnv {
    let mut env = ContractEnv::new();
    env.mock_all_auths();
    QuakeContract::initialize(&mut env, admin.duplicate(), 30_u32, 2_u32).unwrap();
    QuakeContract::register_oracle_source(
        &mut env,
        admin.duplicate(),
        oracle.duplicate(),
        InsuranceVertical::CropRainfall,
    )
    .unwrap();
    env
}

// ---------------------------------------------------------------------------
// initialize
// ---------------------------------------------------------------------------

#[test]
fn test_double_initialize_rejected() {
    let mut env = ContractEnv::new();
    env.mock_all_auths();

    let admin = address(1);
    QuakeContract::initialize(&mut env, admin.duplicate(), 30_u32, 2_u32).unwrap();

    let err = QuakeContract::initialize(&mut env, admin, 30_u32, 2_u32).unwrap_err();
    assert_eq!(err, QuakeError::AlreadyInitialized);
}

// ---------------------------------------------------------------------------
// register_oracle_source
// ---------------------------------------------------------------------------

#[test]
fn test_register_oracle_source() {
    let _env = setup();
    let admin = address(2);

    // A second contract with a known admin
    let mut env2 = ContractEnv::new();
    env2.mock_all_auths();
    QuakeContract::initialize(&mut env2, admin.duplicate(), 30_u32, 2_u32).unwrap();

    let source = address(3);
    QuakeContract::register_oracle_source(
        &mut env2,
        admin,
        source.duplicate(),
        InsuranceVertical::CropRainfall,
    )
    .unwrap();

    let record = QuakeContract::get_oracle_source(
        &env2,
        InsuranceVertical::CropRainfall,
        source.duplicate(),
    )
    .unwrap();

    assert_eq!(record.reliability_score, 50);
    assert_eq!(record.address, source);
}

#[test]
fn test_non_admin_cannot_register_oracle() {
    let mut env = setup();
    let attacker = address(4);

    let err = QuakeContract::register_oracle_source(
        &mut env,
        attacker,
        address(5),
        InsuranceVertical::CropRainfall,
    )
    .unwrap_err();

    assert_eq!(err, QuakeError::Unauthorised);
}

// ---------------------------------------------------------------------------
// submit_oracle_reading
// ---------------------------------------------------------------------------

#[test]
fn test_submit_oracle_reading_stores_value() {
    let _env = setup();
    let admin = address(6);
    let oracle = address(7);
    let mut env2 = contract_with_oracle(&admin, &oracle);

    let loc = location(5);
    env2.set_ledger_sequence(1000);

    QuakeContract::submit_oracle_reading(
        &mut env2,
        oracle,
        InsuranceVertical::CropRainfall,
        loc,
        3000_i128, // 30.00 mm — below drought threshold
        1000_u32,
    )
    .unwrap();

    let reading = QuakeContract::get_accepted_reading(&env2, InsuranceVertical::CropRainfall, loc);
    assert_eq!(reading, Some(3000_i128));
}

#[test]
fn test_stale_reading_rejected() {
    let _env = setup();
    let admin = address(8);
    let oracle = address(9);
    let mut env2 = contract_with_oracle(&admin, &oracle);

    // Advance to ledger 2000, submit reading timestamped at ledger 1 (stale)
    env2.set_ledger_sequence(2000);

    let err = QuakeContract::submit_oracle_reading(
        &mut env2,
        oracle,
        InsuranceVertical::CropRainfall,
        location(6),
        3000_i128,
        1_u32, // way too old
    )
    .unwrap_err();

    assert_eq!(err, QuakeError::OracleReadingStale);
}

#[test]
fn test_unregistered_oracle_cannot_submit() {
    let mut env = setup();

    let err = QuakeContract::submit_oracle_reading(
        &mut env,
        address(10),
        InsuranceVertical::CropRainfall,
        location(7),
        3000_i128,
        0_u32,
    )
    .unwrap_err();

    assert_eq!(err, QuakeError::OracleNotRegistered);
}

// ---------------------------------------------------------------------------
// create_policy
// ---------------------------------------------------------------------------

#[test]
fn test_create_policy_stores_record() {
    let mut env = setup();
    let (policyholder, id) = create_basic_policy(&mut env);

    let record = QuakeContract::get_policy(&env, id).unwrap();
    assert_eq!(record.policyholder, policyholder);
    assert_eq!(record.payout_amount, 500_0000000);
    assert!(matches!(record.state, PolicyState::Active));
    assert_eq!(record.confirmation_count, 0);
    assert!(record.trigger_ledger.is_none());
}

#[test]
fn test_create_policy_rejects_zero_payout() {
    let mut env = setup();

    let err = QuakeContract::create_policy(
        &mut env,
        address(11),
        InsuranceVertical::CropRainfall,
        address(12),
        0_i128,
        address(12),
        1_000_i128,
        100_u32,
        crop_trigger(2),
        location(8),
    )
    .unwrap_err();

    assert_eq!(err, QuakeError::InvalidPayoutAmount);
}

#[test]
fn test_create_policy_rejects_zero_premium() {
    let mut env = setup();

    let err = QuakeContract::create_policy(
        &mut env,
        address(13),
        InsuranceVertical::CropRainfall,
        address(14),
        100_0000000_i128,
        address(14),
        0_i128,
        100_u32,
        crop_trigger(2),
        location(9),
    )
    .unwrap_err();

    assert_eq!(err, QuakeError::InvalidPremiumRate);
}

#[test]
fn test_create_policy_rejects_zero_confirmation_window() {
    let mut env = setup();

    let err = QuakeContract::create_policy(
        &mut env,
        address(15),
        InsuranceVertical::CropRainfall,
        address(16),
        100_0000000_i128,
        address(16),
        1_000_i128,
        100_u32,
        crop_trigger(0), // window = 0, invalid
        location(10),
    )
    .unwrap_err();

    assert_eq!(err, QuakeError::InvalidTriggerConfig);
}

#[test]
fn test_policy_end_ledger_set_correctly() {
    let mut env = setup();
    env.set_ledger_sequence(500);

    let id = QuakeContract::create_policy(
        &mut env,
        address(17),
        InsuranceVertical::CropRainfall,
        address(18),
        100_0000000_i128,
        address(18),
        1_000_i128,
        1_000_u32, // duration
        crop_trigger(2),
        location(11),
    )
    .unwrap();

    let record = QuakeContract::get_policy(&env, id).unwrap();
    assert_eq!(record.end_ledger, 1500); // 500 + 1000
}

// ---------------------------------------------------------------------------
// cancel_policy
// ---------------------------------------------------------------------------

#[test]
fn test_cancel_policy_sets_state() {
    let mut env = setup();
    let (policyholder, id) = create_basic_policy(&mut env);

    QuakeContract::cancel_policy(&mut env, id, policyholder).unwrap();

    let record = QuakeContract::get_policy(&env, id).unwrap();
    assert!(matches!(record.state, PolicyState::Cancelled));
}

#[test]
fn test_non_policyholder_cannot_cancel() {
    let mut env = setup();
    let (_, id) = create_basic_policy(&mut env);
    let attacker = address(19);

    let err = QuakeContract::cancel_policy(&mut env, id, attacker).unwrap_err();
    assert_eq!(err, QuakeError::Unauthorised);
}

#[test]
fn test_cancelled_policy_cannot_be_cancelled_again() {
    let mut env = setup();
    let (policyholder, id) = create_basic_policy(&mut env);

    QuakeContract::cancel_policy(&mut env, id, policyholder.duplicate()).unwrap();

    let err = QuakeContract::cancel_policy(&mut env, id, policyholder).unwrap_err();
    assert_eq!(err, QuakeError::PolicyNotActive);
}

// ---------------------------------------------------------------------------
// is_trigger_active
// ---------------------------------------------------------------------------

#[test]
fn test_is_trigger_active_below_threshold() {
    let _env = setup();
    let admin = address(20);
    let oracle = address(21);
    let mut env2 = contract_with_oracle(&admin, &oracle);

    let loc = location(12);
    env2.set_ledger_sequence(100);

    // Submit reading of 30mm (3000), threshold is 50mm (5000)
    QuakeContract::submit_oracle_reading(
        &mut env2,
        oracle,
        InsuranceVertical::CropRainfall,
        loc,
        3000_i128,
        100_u32,
    )
    .unwrap();

    // Below threshold = trigger active
    assert!(QuakeContract::is_trigger_active(
        &env2,
        InsuranceVertical::CropRainfall,
        loc,
        5000_i128,
        quake::types::TriggerDirection::Below,
    ));

    // Above threshold = not triggered
    assert!(!QuakeContract::is_trigger_active(
        &env2,
        InsuranceVertical::CropRainfall,
        loc,
        5000_i128,
        quake::types::TriggerDirection::Above,
    ));
}

#[test]
fn test_is_trigger_active_no_reading_returns_false() {
    let env = setup();
    let loc = location(13);

    assert!(!QuakeContract::is_trigger_active(
        &env,
        InsuranceVertical::CropRainfall,
        loc,
        5000_i128,
        quake::types::TriggerDirection::Below,
    ));
}
