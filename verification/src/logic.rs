//! The decisions of the contract, as functions of the values they read.
use vstd::prelude::*;

use crate::errors::QuakeError;
use crate::types::{
    Address, ContractConfig, ContractConfigView, InsuranceVertical, LocationHash, OracleConfig,
    OracleSource, OracleSourceView, PolicyRecord, PolicyRecordView, PolicyState, TriggerConfig,
    TriggerDirection,
};

verus! {

/// Reliability score with which a newly registered oracle source starts.
pub const INITIAL_RELIABILITY_SCORE: u32 = 50;

/// Minimum reserve solvency ratio (basis points) set at initialisation.
pub const INITIAL_MIN_SOLVENCY_RATIO_BPS: u32 = 1000;

/// Whether the terms of a new policy are acceptable, and if not, why.
pub open spec fn policy_terms_outcome(
    payout_amount: i128,
    premium_rate: i128,
    trigger_config: TriggerConfig,
) -> Result<(), QuakeError> {
    if payout_amount <= 0 {
        Err(QuakeError::InvalidPayoutAmount)
    } else if premium_rate <= 0 {
        Err(QuakeError::InvalidPremiumRate)
    } else if trigger_config.confirmation_window == 0 {
        Err(QuakeError::InvalidTriggerConfig)
    } else {
        Ok(())
    }
}

/// Checks the terms of a new policy: the payout amount and the premium rate
/// must be positive and the confirmation window non-zero, checked in that
/// order.
pub fn validate_policy_terms(
    payout_amount: i128,
    premium_rate: i128,
    trigger_config: &TriggerConfig,
) -> (r: Result<(), QuakeError>)
    ensures
        r == policy_terms_outcome(payout_amount, premium_rate, *trigger_config),
{
    if payout_amount <= 0 {
        return Err(QuakeError::InvalidPayoutAmount);
    }
    if premium_rate <= 0 {
        return Err(QuakeError::InvalidPremiumRate);
    }
    if trigger_config.confirmation_window == 0 {
        return Err(QuakeError::InvalidTriggerConfig);
    }
    Ok(())
}

/// The record of a newly created policy.
pub open spec fn new_policy_view(
    policyholder: Seq<u8>,
    vertical: InsuranceVertical,
    coverage_asset: Seq<u8>,
    payout_amount: i128,
    premium_asset: Seq<u8>,
    premium_rate: i128,
    start_ledger: u32,
    end_ledger: u32,
    trigger_config: TriggerConfig,
    location_hash: Seq<u8>,
) -> PolicyRecordView {
    PolicyRecordView {
        policyholder,
        vertical,
        coverage_asset,
        payout_amount,
        premium_asset,
        premium_rate,
        start_ledger,
        end_ledger,
        trigger_config,
        location_hash,
        state: PolicyState::Active,
        trigger_ledger: None,
        confirmation_count: 0,
        missed_premiums: 0,
    }
}

/// A new policy: active, with no trigger detected, no confirmation and no
/// missed premium yet.
pub fn new_policy_record(
    policyholder: Address,
    vertical: InsuranceVertical,
    coverage_asset: Address,
    payout_amount: i128,
    premium_asset: Address,
    premium_rate: i128,
    start_ledger: u32,
    end_ledger: u32,
    trigger_config: TriggerConfig,
    location_hash: LocationHash,
) -> (r: PolicyRecord)
    ensures
        r@ == new_policy_view(
            policyholder@,
            vertical,
            coverage_asset@,
            payout_amount,
            premium_asset@,
            premium_rate,
            start_ledger,
            end_ledger,
            trigger_config,
            location_hash@,
        ),
{
    PolicyRecord {
        policyholder,
        vertical,
        coverage_asset,
        payout_amount,
        premium_asset,
        premium_rate,
        start_ledger,
        end_ledger,
        trigger_config,
        location_hash,
        state: PolicyState::Active,
        trigger_ledger: None,
        confirmation_count: 0,
        missed_premiums: 0,
    }
}

/// Whether `caller` may cancel the policy `record`, and if not, why.
pub open spec fn cancellation_outcome(record: PolicyRecordView, caller: Seq<u8>) -> Result<
    (),
    QuakeError,
> {
    if record.policyholder != caller {
        Err(QuakeError::Unauthorised)
    } else if !(record.state is Active || record.state is Lapsed) {
        Err(QuakeError::PolicyNotActive)
    } else {
        Ok(())
    }
}

/// Only the policyholder may cancel, and only an active or lapsed policy.
pub fn check_cancellation(record: &PolicyRecord, caller: &Address) -> (r: Result<(), QuakeError>)
    ensures
        r == cancellation_outcome(record@, caller@),
{
    if !record.policyholder.same_as(caller) {
        return Err(QuakeError::Unauthorised);
    }
    match record.state {
        PolicyState::Active | PolicyState::Lapsed => Ok(()),
        _ => Err(QuakeError::PolicyNotActive),
    }
}

/// A premium is due only on an active policy.
pub fn check_premium_due(record: &PolicyRecord) -> (r: Result<(), QuakeError>)
    ensures
        r == (if record.state is Active {
            Ok(())
        } else {
            Err(QuakeError::PolicyNotActive)
        }),
{
    match record.state {
        PolicyState::Active => Ok(()),
        _ => Err(QuakeError::PolicyNotActive),
    }
}

/// Number of premium deductions in a row that may fail before a policy lapses.
pub const LAPSE_AFTER_MISSED_PREMIUMS: u32 = 3;

/// The record after an attempt to collect its premium: a collected premium
/// clears the count of missed ones; a failed one adds to it, and the policy
/// lapses once `LAPSE_AFTER_MISSED_PREMIUMS` have failed in a row.
pub open spec fn after_premium_attempt(record: PolicyRecordView, collected: bool) -> PolicyRecordView {
    if collected {
        PolicyRecordView { missed_premiums: 0, ..record }
    } else {
        let missed: u32 = if record.missed_premiums < u32::MAX {
            (record.missed_premiums + 1) as u32
        } else {
            record.missed_premiums
        };
        PolicyRecordView {
            missed_premiums: missed,
            state: if missed >= LAPSE_AFTER_MISSED_PREMIUMS {
                PolicyState::Lapsed
            } else {
                record.state
            },
            ..record
        }
    }
}

/// Record the outcome of an attempt to collect the premium of `record`; see
/// [`after_premium_attempt`].
pub fn record_premium_attempt(record: &mut PolicyRecord, collected: bool)
    ensures
        final(record)@ == after_premium_attempt(old(record)@, collected),
{
    if collected {
        record.missed_premiums = 0;
    } else {
        record.missed_premiums = record.missed_premiums.saturating_add(1);
        if record.missed_premiums >= LAPSE_AFTER_MISSED_PREMIUMS {
            record.state = PolicyState::Lapsed;
        }
    }
}

/// Whether a reading stamped at ledger `ledger_timestamp` is older than
/// `staleness_ttl` ledgers at ledger `current` (a stamp in the future counts
/// as age zero).
pub open spec fn reading_stale(current: u32, ledger_timestamp: u32, staleness_ttl: u32) -> bool {
    let age: int = if current >= ledger_timestamp {
        current - ledger_timestamp
    } else {
        0
    };
    age > staleness_ttl
}

/// See [`reading_stale`].
pub fn is_reading_stale(current: u32, ledger_timestamp: u32, staleness_ttl: u32) -> (r: bool)
    ensures
        r == reading_stale(current, ledger_timestamp, staleness_ttl),
{
    current.saturating_sub(ledger_timestamp) > staleness_ttl
}

/// Whether `reading` crosses `threshold` in `direction`.
pub open spec fn trigger_fires(reading: i128, threshold: i128, direction: TriggerDirection) -> bool {
    match direction {
        TriggerDirection::Above => reading > threshold,
        TriggerDirection::Below => reading < threshold,
    }
}

/// See [`trigger_fires`].
pub fn trigger_condition_met(reading: i128, threshold: i128, direction: TriggerDirection) -> (r:
    bool)
    ensures
        r == trigger_fires(reading, threshold, direction),
{
    match direction {
        TriggerDirection::Above => reading > threshold,
        TriggerDirection::Below => reading < threshold,
    }
}

/// Only the configured admin passes.
pub fn check_admin(config: &ContractConfig, caller: &Address) -> (r: Result<(), QuakeError>)
    ensures
        r == (if config@.admin == caller@ {
            Ok(())
        } else {
            Err(QuakeError::Unauthorised)
        }),
{
    if config.admin.same_as(caller) {
        Ok(())
    } else {
        Err(QuakeError::Unauthorised)
    }
}

/// The record of a newly registered oracle source.
pub open spec fn fresh_oracle_source(address: Seq<u8>, vertical: InsuranceVertical) -> OracleSourceView {
    OracleSourceView {
        address,
        vertical,
        reliability_score: INITIAL_RELIABILITY_SCORE,
        last_submission_ledger: 0,
    }
}

/// A newly registered source starts with a neutral reliability score and no
/// submission.
pub fn new_oracle_source(address: Address, vertical: InsuranceVertical) -> (r: OracleSource)
    ensures
        r@ == fresh_oracle_source(address@, vertical),
{
    OracleSource {
        address,
        vertical,
        reliability_score: INITIAL_RELIABILITY_SCORE,
        last_submission_ledger: 0,
    }
}

/// The oracle configuration of a vertical for which none was set.
pub open spec fn default_oracle_config_value() -> OracleConfig {
    OracleConfig { required: 3, tolerance_pct: 10, staleness_ttl: 720 }
}

/// See [`default_oracle_config_value`].
pub fn default_oracle_config() -> (r: OracleConfig)
    ensures
        r == default_oracle_config_value(),
{
    OracleConfig { required: 3, tolerance_pct: 10, staleness_ttl: 720 }
}

/// The configuration written by `initialize`.
pub open spec fn initial_config(
    admin: Seq<u8>,
    min_reliability_score: u32,
    default_confirmation_window: u32,
) -> ContractConfigView {
    ContractConfigView {
        admin,
        min_reliability_score,
        default_confirmation_window,
        min_solvency_ratio_bps: INITIAL_MIN_SOLVENCY_RATIO_BPS,
    }
}

/// See [`initial_config`].
pub fn new_contract_config(
    admin: Address,
    min_reliability_score: u32,
    default_confirmation_window: u32,
) -> (r: ContractConfig)
    ensures
        r@ == initial_config(admin@, min_reliability_score, default_confirmation_window),
{
    ContractConfig {
        admin,
        min_reliability_score,
        default_confirmation_window,
        min_solvency_ratio_bps: INITIAL_MIN_SOLVENCY_RATIO_BPS,
    }
}

} // verus!
