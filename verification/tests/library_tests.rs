use quake::contract::QuakeContract;
use quake::encoding::{compute_policy_id, policy_id_input, push_vertical_xdr};
use quake::errors::QuakeError;
use quake::events::ContractEvent;
use quake::logic::{
    check_cancellation, default_oracle_config, is_reading_stale, trigger_condition_met,
    validate_policy_terms,
};
use quake::storage::{
    is_initialized, load_config, load_oracle_config, oracle_source_exists, policy_exists,
    save_oracle_config, save_policy, ContractEnv,
};
use quake::types::{
    crop_trigger, Address, InsuranceVertical, OracleConfig, PolicyId, PolicyState,
    TriggerDirection,
};

fn address(seed: u8) -> Address {
    let mut xdr = vec![0, 0, 0, 18, 0, 0, 0, 1];
    xdr.extend_from_slice(&[seed; 32]);
    Address::from_xdr(xdr)
}

fn initialized(admin: &Address) -> ContractEnv {
    let mut env = ContractEnv::new();
    env.mock_all_auths();
    QuakeContract::initialize(&mut env, admin.duplicate(), 30, 2).unwrap();
    env
}

fn crop_policy(env: &mut ContractEnv, holder: &Address) -> PolicyId {
    QuakeContract::create_policy(
        env,
        holder.duplicate(),
        InsuranceVertical::CropRainfall,
        address(90),
        500_0000000,
        address(91),
        1_000,
        1_000,
        crop_trigger(2),
        [1; 32],
    )
    .unwrap()
}

#[test]
fn error_codes_match_contract_numbering() {
    assert_eq!(QuakeError::PolicyNotFound.code(), 1);
    assert_eq!(QuakeError::OracleReadingStale.code(), 8);
    assert_eq!(QuakeError::Unauthorised.code(), 12);
    assert_eq!(QuakeError::AlreadyInitialized.code(), 16);
    assert_eq!(QuakeError::PolicyNotActive.code(), 20);
}

#[test]
fn initialize_stores_config() {
    let admin = address(1);
    let mut env = ContractEnv::new();
    assert!(!is_initialized(&env));
    env.mock_all_auths();
    QuakeContract::initialize(&mut env, admin.duplicate(), 30, 2).unwrap();
    assert!(is_initialized(&env));
    let config = load_config(&env);
    assert_eq!(config.admin, admin);
    assert_eq!(config.min_reliability_score, 30);
    assert_eq!(config.default_confirmation_window, 2);
    assert_eq!(config.min_solvency_ratio_bps, 1000);
}

#[test]
fn initialize_with_explicit_signer() {
    let admin = address(2);
    let mut env = ContractEnv::new();
    env.authorize(admin.duplicate());
    assert_eq!(QuakeContract::initialize(&mut env, admin, 1, 1), Ok(()));
}

#[test]
fn policy_id_digest_of_minting_inputs() {
    let holder = address(7);
    let id = compute_policy_id(&holder, InsuranceVertical::CropRainfall, 500_0000000, 1500, 500);
    let expected: [u8; 32] = [
        0x2a, 0x82, 0x51, 0xff, 0x7a, 0x0a, 0x69, 0x23, 0xed, 0x82, 0x8e, 0xee, 0x26, 0x0d, 0xab,
        0x34, 0xed, 0xe3, 0xcf, 0x19, 0xb4, 0xd6, 0xb9, 0x50, 0xa0, 0x4d, 0xe1, 0x65, 0xcb, 0xea,
        0x8f, 0x2a,
    ];
    assert_eq!(id, expected);
}

#[test]
fn policy_id_input_layout() {
    let holder = address(7);
    let input = policy_id_input(&holder, InsuranceVertical::FloodDisaster, -2, 7, 9);
    let mut expected: Vec<u8> = vec![0, 0, 0, 18, 0, 0, 0, 1];
    expected.extend_from_slice(&[7; 32]);
    expected.extend_from_slice(&[0, 0, 0, 16, 0, 0, 0, 1, 0, 0, 0, 1, 0, 0, 0, 15, 0, 0, 0, 13]);
    expected.extend_from_slice(b"FloodDisaster");
    expected.extend_from_slice(&[0, 0, 0]);
    expected.extend_from_slice(&[255; 15]);
    expected.push(254);
    expected.extend_from_slice(&[0, 0, 0, 7, 0, 0, 0, 9]);
    assert_eq!(input, expected);
}

#[test]
fn vertical_xdr_is_padded_symbol_vector() {
    let mut buf = Vec::new();
    push_vertical_xdr(&mut buf, InsuranceVertical::CropRainfall);
    let mut expected: Vec<u8> = vec![0, 0, 0, 16, 0, 0, 0, 1, 0, 0, 0, 1, 0, 0, 0, 15, 0, 0, 0, 12];
    expected.extend_from_slice(b"CropRainfall");
    assert_eq!(buf, expected);

    let mut buf = vec![9];
    push_vertical_xdr(&mut buf, InsuranceVertical::EarthquakeDisaster);
    let mut expected: Vec<u8> =
        vec![9, 0, 0, 0, 16, 0, 0, 0, 1, 0, 0, 0, 1, 0, 0, 0, 15, 0, 0, 0, 18];
    expected.extend_from_slice(b"EarthquakeDisaster");
    expected.extend_from_slice(&[0, 0]);
    assert_eq!(buf, expected);
}

#[test]
fn created_policy_id_uses_current_ledger() {
    let mut env = initialized(&address(1));
    env.set_ledger_sequence(500);
    let holder = address(7);
    let id = QuakeContract::create_policy(
        &mut env,
        holder.duplicate(),
        InsuranceVertical::CropRainfall,
        address(90),
        500_0000000,
        address(91),
        1_000,
        1_000,
        crop_trigger(2),
        [1; 32],
    )
    .unwrap();
    assert_eq!(
        id,
        compute_policy_id(&holder, InsuranceVertical::CropRainfall, 500_0000000, 1500, 500)
    );
    assert!(policy_exists(&env, &id));
    let record = QuakeContract::get_policy(&env, id).unwrap();
    assert_eq!(record.start_ledger, 500);
    assert_eq!(record.coverage_asset, address(90));
    assert_eq!(record.premium_asset, address(91));
    assert_eq!(record.location_hash, [1; 32]);
    assert_eq!(record.trigger_config, crop_trigger(2));
}

#[test]
fn create_policy_publishes_event() {
    let mut env = initialized(&address(1));
    let holder = address(3);
    let id = crop_policy(&mut env, &holder);
    assert_eq!(env.events().len(), 1);
    assert_eq!(
        env.events()[0],
        ContractEvent::PolicyCreated {
            policy_id: id,
            policyholder: holder,
            vertical: InsuranceVertical::CropRainfall,
            payout_amount: 500_0000000,
        }
    );
    assert_eq!(env.events()[0].topic(), "PolicyCreated");
}

#[test]
fn rejected_policy_changes_nothing() {
    let mut env = initialized(&address(1));
    let err = QuakeContract::create_policy(
        &mut env,
        address(3),
        InsuranceVertical::FlightDelay,
        address(4),
        -5,
        address(4),
        0,
        10,
        crop_trigger(0),
        [2; 32],
    )
    .unwrap_err();
    assert_eq!(err, QuakeError::InvalidPayoutAmount);
    assert!(env.events().is_empty());
}

#[test]
fn cancel_policy_publishes_event() {
    let mut env = initialized(&address(1));
    let holder = address(3);
    let id = crop_policy(&mut env, &holder);
    QuakeContract::cancel_policy(&mut env, id, holder.duplicate()).unwrap();
    assert_eq!(env.events().len(), 2);
    assert_eq!(
        env.events()[1],
        ContractEvent::PolicyCancelled { policy_id: id, policyholder: holder }
    );
    assert_eq!(env.events()[1].topic(), "PolicyCancelled");
}

#[test]
fn cancel_unknown_policy_not_found() {
    let mut env = initialized(&address(1));
    let err = QuakeContract::cancel_policy(&mut env, [5; 32], address(3)).unwrap_err();
    assert_eq!(err, QuakeError::PolicyNotFound);
}

#[test]
fn lapsed_policy_can_be_cancelled() {
    let mut env = initialized(&address(1));
    let holder = address(3);
    let id = crop_policy(&mut env, &holder);
    let mut record = QuakeContract::get_policy(&env, id).unwrap();
    record.state = PolicyState::Lapsed;
    save_policy(&mut env, &id, &record);
    QuakeContract::cancel_policy(&mut env, id, holder).unwrap();
    assert_eq!(QuakeContract::get_policy(&env, id).unwrap().state, PolicyState::Cancelled);
}

#[test]
fn triggered_or_paid_policy_cannot_be_cancelled() {
    let mut env = initialized(&address(1));
    let holder = address(3);
    let id = crop_policy(&mut env, &holder);
    for state in [
        PolicyState::TriggeredPending,
        PolicyState::ConfirmedPending,
        PolicyState::Paid { payout_ledger: 7 },
        PolicyState::Expired,
    ] {
        let mut record = QuakeContract::get_policy(&env, id).unwrap();
        record.state = state;
        save_policy(&mut env, &id, &record);
        let err = QuakeContract::cancel_policy(&mut env, id, holder.duplicate()).unwrap_err();
        assert_eq!(err, QuakeError::PolicyNotActive);
        assert_eq!(QuakeContract::get_policy(&env, id).unwrap().state, state);
    }
}

#[test]
fn deduct_premium_on_active_policy() {
    let mut env = initialized(&address(1));
    let holder = address(3);
    let id = crop_policy(&mut env, &holder);
    env.set_balance(address(91), holder.duplicate(), 2_500);
    QuakeContract::deduct_premium(&mut env, id).unwrap();
    assert_eq!(env.events().len(), 2);
    assert_eq!(
        env.events()[1],
        ContractEvent::PremiumDeducted { policy_id: id, premium_rate: 1_000 }
    );
    assert_eq!(env.events()[1].topic(), "PremiumDeducted");
    assert_eq!(env.balance(&address(91), &holder), 1_500);
    assert_eq!(env.reserve_balance(&address(91)), 1_000);
    let record = QuakeContract::get_policy(&env, id).unwrap();
    assert_eq!(record.state, PolicyState::Active);
    assert_eq!(record.missed_premiums, 0);
}

#[test]
fn three_missed_premiums_lapse_policy() {
    let mut env = initialized(&address(1));
    let holder = address(3);
    let id = crop_policy(&mut env, &holder);
    env.set_balance(address(91), holder.duplicate(), 999);
    QuakeContract::deduct_premium(&mut env, id).unwrap();
    QuakeContract::deduct_premium(&mut env, id).unwrap();
    let record = QuakeContract::get_policy(&env, id).unwrap();
    assert_eq!(record.state, PolicyState::Active);
    assert_eq!(record.missed_premiums, 2);
    assert_eq!(env.events().len(), 1);
    QuakeContract::deduct_premium(&mut env, id).unwrap();
    let record = QuakeContract::get_policy(&env, id).unwrap();
    assert_eq!(record.state, PolicyState::Lapsed);
    assert_eq!(record.missed_premiums, 3);
    assert_eq!(env.events().len(), 2);
    assert_eq!(env.events()[1], ContractEvent::PolicyLapsed { policy_id: id });
    assert_eq!(env.events()[1].topic(), "PolicyLapsed");
    assert_eq!(env.balance(&address(91), &holder), 999);
    assert_eq!(env.reserve_balance(&address(91)), 0);
    assert_eq!(QuakeContract::deduct_premium(&mut env, id), Err(QuakeError::PolicyNotActive));
    // A lapsed policy can still be cancelled by its holder.
    QuakeContract::cancel_policy(&mut env, id, holder).unwrap();
}

#[test]
fn collected_premium_clears_missed_count() {
    let mut env = initialized(&address(1));
    let holder = address(3);
    let id = crop_policy(&mut env, &holder);
    QuakeContract::deduct_premium(&mut env, id).unwrap();
    QuakeContract::deduct_premium(&mut env, id).unwrap();
    assert_eq!(QuakeContract::get_policy(&env, id).unwrap().missed_premiums, 2);
    env.set_balance(address(91), holder.duplicate(), 1_000);
    QuakeContract::deduct_premium(&mut env, id).unwrap();
    assert_eq!(QuakeContract::get_policy(&env, id).unwrap().missed_premiums, 0);
    assert_eq!(env.balance(&address(91), &holder), 0);
    // The count starts again: two more misses do not lapse the policy.
    QuakeContract::deduct_premium(&mut env, id).unwrap();
    QuakeContract::deduct_premium(&mut env, id).unwrap();
    assert_eq!(QuakeContract::get_policy(&env, id).unwrap().state, PolicyState::Active);
}

#[test]
fn unsigned_policy_creation_rejected() {
    let mut env = ContractEnv::new();
    let admin = address(1);
    env.authorize(admin.duplicate());
    QuakeContract::initialize(&mut env, admin, 30, 2).unwrap();
    let err = QuakeContract::create_policy(
        &mut env,
        address(3),
        InsuranceVertical::CropRainfall,
        address(90),
        500_0000000,
        address(91),
        1_000,
        1_000,
        crop_trigger(2),
        [1; 32],
    )
    .unwrap_err();
    assert_eq!(err, QuakeError::Unauthorised);
    assert!(env.events().is_empty());
    // Invalid terms are reported before the missing signature.
    let err = QuakeContract::create_policy(
        &mut env,
        address(3),
        InsuranceVertical::CropRainfall,
        address(90),
        0,
        address(91),
        1_000,
        1_000,
        crop_trigger(2),
        [1; 32],
    )
    .unwrap_err();
    assert_eq!(err, QuakeError::InvalidPayoutAmount);
    env.authorize(address(3));
    assert!(QuakeContract::create_policy(
        &mut env,
        address(3),
        InsuranceVertical::CropRainfall,
        address(90),
        500_0000000,
        address(91),
        1_000,
        1_000,
        crop_trigger(2),
        [1; 32],
    )
    .is_ok());
}

#[test]
fn deduct_premium_errors() {
    let mut env = initialized(&address(1));
    assert_eq!(QuakeContract::deduct_premium(&mut env, [8; 32]), Err(QuakeError::PolicyNotFound));
    let holder = address(3);
    let id = crop_policy(&mut env, &holder);
    QuakeContract::cancel_policy(&mut env, id, holder).unwrap();
    assert_eq!(QuakeContract::deduct_premium(&mut env, id), Err(QuakeError::PolicyNotActive));
    assert_eq!(env.events().len(), 2);
}

#[test]
fn submit_updates_source_and_publishes() {
    let admin = address(1);
    let oracle = address(2);
    let mut env = initialized(&admin);
    QuakeContract::register_oracle_source(
        &mut env,
        admin,
        oracle.duplicate(),
        InsuranceVertical::WindDisaster,
    )
    .unwrap();
    assert!(oracle_source_exists(&env, &InsuranceVertical::WindDisaster, &oracle));
    assert!(!oracle_source_exists(&env, &InsuranceVertical::CropRainfall, &oracle));
    env.set_ledger_sequence(40);
    QuakeContract::submit_oracle_reading(
        &mut env,
        oracle.duplicate(),
        InsuranceVertical::WindDisaster,
        [4; 32],
        1200,
        45, // stamped in the future: age zero
    )
    .unwrap();
    let source =
        QuakeContract::get_oracle_source(&env, InsuranceVertical::WindDisaster, oracle.duplicate())
            .unwrap();
    assert_eq!(source.last_submission_ledger, 40);
    assert_eq!(source.reliability_score, 50);
    assert_eq!(
        env.events()[0],
        ContractEvent::OracleReadingSubmitted {
            oracle,
            vertical: InsuranceVertical::WindDisaster,
            location_hash: [4; 32],
            value: 1200,
        }
    );
    assert_eq!(env.events()[0].topic(), "OracleReadingSubmitted");
}

#[test]
fn staleness_boundary_and_oracle_config() {
    let admin = address(1);
    let oracle = address(2);
    let mut env = initialized(&admin);
    QuakeContract::register_oracle_source(
        &mut env,
        admin.duplicate(),
        oracle.duplicate(),
        InsuranceVertical::CropRainfall,
    )
    .unwrap();
    env.set_ledger_sequence(2000);
    // Default TTL 720: age 720 is fresh, age 721 is stale.
    assert_eq!(
        QuakeContract::submit_oracle_reading(
            &mut env,
            oracle.duplicate(),
            InsuranceVertical::CropRainfall,
            [3; 32],
            1,
            1280,
        ),
        Ok(())
    );
    assert_eq!(
        QuakeContract::submit_oracle_reading(
            &mut env,
            oracle.duplicate(),
            InsuranceVertical::CropRainfall,
            [3; 32],
            2,
            1279,
        ),
        Err(QuakeError::OracleReadingStale)
    );
    assert_eq!(QuakeContract::get_accepted_reading(&env, InsuranceVertical::CropRainfall, [3; 32]), Some(1));

    // A non-admin cannot change the configuration.
    assert_eq!(
        QuakeContract::set_oracle_config(
            &mut env,
            address(9),
            InsuranceVertical::CropRainfall,
            1,
            5,
            5000
        ),
        Err(QuakeError::Unauthorised)
    );
    // The admin widens the TTL; the old reading is now accepted.
    QuakeContract::set_oracle_config(&mut env, admin, InsuranceVertical::CropRainfall, 1, 5, 5000)
        .unwrap();
    assert_eq!(
        load_oracle_config(&env, &InsuranceVertical::CropRainfall),
        OracleConfig { required: 1, tolerance_pct: 5, staleness_ttl: 5000 }
    );
    QuakeContract::submit_oracle_reading(
        &mut env,
        oracle,
        InsuranceVertical::CropRainfall,
        [3; 32],
        2,
        1,
    )
    .unwrap();
    assert_eq!(QuakeContract::get_accepted_reading(&env, InsuranceVertical::CropRainfall, [3; 32]), Some(2));
}

#[test]
fn default_oracle_config_values() {
    let env = initialized(&address(1));
    let expected = OracleConfig { required: 3, tolerance_pct: 10, staleness_ttl: 720 };
    assert_eq!(default_oracle_config(), expected);
    assert_eq!(load_oracle_config(&env, &InsuranceVertical::HealthIndex), expected);
    let mut env = env;
    save_oracle_config(&mut env, &InsuranceVertical::HealthIndex, &OracleConfig {
        required: 2,
        tolerance_pct: 1,
        staleness_ttl: 3,
    });
    assert_eq!(load_oracle_config(&env, &InsuranceVertical::HealthIndex).staleness_ttl, 3);
    assert_eq!(load_oracle_config(&env, &InsuranceVertical::FlightDelay), expected);
}

#[test]
fn trigger_at_threshold_fires_neither_direction() {
    assert!(!trigger_condition_met(5000, 5000, TriggerDirection::Above));
    assert!(!trigger_condition_met(5000, 5000, TriggerDirection::Below));
    assert!(trigger_condition_met(5001, 5000, TriggerDirection::Above));
    assert!(trigger_condition_met(4999, 5000, TriggerDirection::Below));
}

#[test]
fn staleness_rule() {
    assert!(!is_reading_stale(100, 200, 0));
    assert!(!is_reading_stale(100, 90, 10));
    assert!(is_reading_stale(100, 89, 10));
}

#[test]
fn policy_terms_checked_in_order() {
    assert_eq!(validate_policy_terms(0, 0, &crop_trigger(0)), Err(QuakeError::InvalidPayoutAmount));
    assert_eq!(validate_policy_terms(1, 0, &crop_trigger(0)), Err(QuakeError::InvalidPremiumRate));
    assert_eq!(validate_policy_terms(1, 1, &crop_trigger(0)), Err(QuakeError::InvalidTriggerConfig));
    assert_eq!(validate_policy_terms(1, 1, &crop_trigger(1)), Ok(()));
}

#[test]
fn cancellation_check_order() {
    let mut env = initialized(&address(1));
    let holder = address(3);
    let id = crop_policy(&mut env, &holder);
    let mut record = QuakeContract::get_policy(&env, id).unwrap();
    record.state = PolicyState::Expired;
    // The holder is checked before the state.
    assert_eq!(check_cancellation(&record, &address(4)), Err(QuakeError::Unauthorised));
    assert_eq!(check_cancellation(&record, &holder), Err(QuakeError::PolicyNotActive));
}

#[test]
fn addresses_compare_by_encoding() {
    let a = address(1);
    assert!(a.same_as(&address(1)));
    assert!(!a.same_as(&address(2)));
    assert!(!a.same_as(&Address::from_xdr(vec![0, 0, 0, 18])));
    assert_eq!(a.to_xdr().len(), 40);
    assert_eq!(a.duplicate(), a);
}
