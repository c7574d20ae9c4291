//! The contract's entry points, over the environment model of [`crate::storage`].
use vstd::prelude::*;

use crate::encoding::{policy_id_preimage, sha256_digest};
use crate::errors::QuakeError;
use crate::events::{ContractEvent, ContractEventView};
use crate::logic::{
    after_premium_attempt, cancellation_outcome, check_admin, check_cancellation, check_premium_due, fresh_oracle_source,
    initial_config, is_reading_stale, new_contract_config, new_oracle_source, new_policy_record,
    new_policy_view, policy_terms_outcome, record_premium_attempt, reading_stale, trigger_condition_met, trigger_fires,
    validate_policy_terms,
};
use crate::storage::{
    derive_policy_id, is_initialized, load_accepted_reading, load_config, load_oracle_config,
    load_oracle_source, load_policy, save_accepted_reading, save_config, save_oracle_config,
    save_oracle_source, save_policy, ContractEnv, EnvView,
};
use crate::types::{
    Address, InsuranceVertical, LocationHash, OracleConfig, OracleSource, OracleSourceView,
    PolicyId, PolicyRecord, PolicyRecordView, PolicyState, TriggerConfig, TriggerDirection,
};

verus! {

/// The Quake parametric insurance contract.
pub struct QuakeContract;

// ---------------------------------------------------------------------------
// What each entry point does, as a step from one environment to the next
// ---------------------------------------------------------------------------

/// `initialize`: write the configuration once.
pub open spec fn initialize_step(
    s: EnvView,
    admin: Seq<u8>,
    min_reliability_score: u32,
    default_confirmation_window: u32,
) -> (EnvView, Result<(), QuakeError>) {
    if s.config is Some {
        (s, Err(QuakeError::AlreadyInitialized))
    } else {
        (
            EnvView {
                config: Some(
                    initial_config(admin, min_reliability_score, default_confirmation_window),
                ),
                ..s
            },
            Ok(()),
        )
    }
}

/// `register_oracle_source`: the admin registers a source with a fresh record.
pub open spec fn register_oracle_source_step(
    s: EnvView,
    admin: Seq<u8>,
    source_address: Seq<u8>,
    vertical: InsuranceVertical,
) -> (EnvView, Result<(), QuakeError>) {
    if s.config->0.admin != admin {
        (s, Err(QuakeError::Unauthorised))
    } else {
        (
            EnvView {
                oracle_sources: s.oracle_sources.insert(
                    (vertical, source_address),
                    fresh_oracle_source(source_address, vertical),
                ),
                ..s
            },
            Ok(()),
        )
    }
}

/// `set_oracle_config`: the admin sets the consensus parameters of a vertical.
pub open spec fn set_oracle_config_step(
    s: EnvView,
    admin: Seq<u8>,
    vertical: InsuranceVertical,
    required: u32,
    tolerance_pct: u32,
    staleness_ttl: u32,
) -> (EnvView, Result<(), QuakeError>) {
    if s.config->0.admin != admin {
        (s, Err(QuakeError::Unauthorised))
    } else {
        (
            EnvView {
                oracle_configs: s.oracle_configs.insert(
                    vertical,
                    OracleConfig { required, tolerance_pct, staleness_ttl },
                ),
                ..s
            },
            Ok(()),
        )
    }
}

/// `submit_oracle_reading`: a registered source submits a fresh reading, which
/// becomes the accepted reading of the vertical and location.
pub open spec fn submit_oracle_reading_step(
    s: EnvView,
    oracle: Seq<u8>,
    vertical: InsuranceVertical,
    location_hash: Seq<u8>,
    value: i128,
    ledger_timestamp: u32,
) -> (EnvView, Result<(), QuakeError>) {
    if !s.oracle_sources.contains_key((vertical, oracle)) {
        (s, Err(QuakeError::OracleNotRegistered))
    } else if reading_stale(
        s.sequence,
        ledger_timestamp,
        s.oracle_config_for(vertical).staleness_ttl,
    ) {
        (s, Err(QuakeError::OracleReadingStale))
    } else {
        let source = s.oracle_sources[(vertical, oracle)];
        (
            EnvView {
                oracle_sources: s.oracle_sources.insert(
                    (vertical, oracle),
                    OracleSourceView { last_submission_ledger: s.sequence, ..source },
                ),
                readings: s.readings.insert((vertical, location_hash), value),
                events: s.events.push(
                    ContractEventView::OracleReadingSubmitted {
                        oracle,
                        vertical,
                        location_hash,
                        value,
                    },
                ),
                ..s
            },
            Ok(()),
        )
    }
}

/// The id of a policy created at ledger `s.sequence` with the given minting
/// inputs.
pub open spec fn new_policy_id(
    s: EnvView,
    policyholder: Seq<u8>,
    vertical: InsuranceVertical,
    payout_amount: i128,
    end_ledger: u32,
) -> Seq<u8> {
    sha256_digest(policy_id_preimage(policyholder, vertical, payout_amount, end_ledger, s.sequence))
}

/// `create_policy`: valid terms signed by the policyholder create an active
/// policy covering `duration_ledgers` ledgers from the current one.
pub open spec fn create_policy_step(
    s: EnvView,
    policyholder: Seq<u8>,
    vertical: InsuranceVertical,
    coverage_asset: Seq<u8>,
    payout_amount: i128,
    premium_asset: Seq<u8>,
    premium_rate: i128,
    duration_ledgers: u32,
    trigger_config: TriggerConfig,
    location_hash: Seq<u8>,
) -> (EnvView, Result<Seq<u8>, QuakeError>) {
    match policy_terms_outcome(payout_amount, premium_rate, trigger_config) {
        Err(e) => (s, Err(e)),
        Ok(_) => if !s.authorizes(policyholder) {
            (s, Err(QuakeError::Unauthorised))
        } else {
            let end_ledger = (s.sequence + duration_ledgers) as u32;
            let id = new_policy_id(s, policyholder, vertical, payout_amount, end_ledger);
            let record = new_policy_view(
                policyholder,
                vertical,
                coverage_asset,
                payout_amount,
                premium_asset,
                premium_rate,
                s.sequence,
                end_ledger,
                trigger_config,
                location_hash,
            );
            (
                EnvView {
                    policies: s.policies.insert(id, record),
                    events: s.events.push(
                        ContractEventView::PolicyCreated {
                            policy_id: id,
                            policyholder,
                            vertical,
                            payout_amount,
                        },
                    ),
                    ..s
                },
                Ok(id),
            )
        },
    }
}

/// `cancel_policy`: the policyholder cancels an active or lapsed policy.
pub open spec fn cancel_policy_step(s: EnvView, policy_id: Seq<u8>, policyholder: Seq<u8>) -> (
    EnvView,
    Result<(), QuakeError>,
) {
    if !s.policies.contains_key(policy_id) {
        (s, Err(QuakeError::PolicyNotFound))
    } else {
        let record = s.policies[policy_id];
        match cancellation_outcome(record, policyholder) {
            Err(e) => (s, Err(e)),
            Ok(_) => (
                EnvView {
                    policies: s.policies.insert(
                        policy_id,
                        PolicyRecordView { state: PolicyState::Cancelled, ..record },
                    ),
                    events: s.events.push(
                        ContractEventView::PolicyCancelled { policy_id, policyholder },
                    ),
                    ..s
                },
                Ok(()),
            ),
        }
    }
}

/// `deduct_premium`: the premium of an active policy is collected from the
/// policyholder's balance into the reserve when it can be; a collection that
/// fails counts as missed, and the third miss in a row lapses the policy.
pub open spec fn deduct_premium_step(s: EnvView, policy_id: Seq<u8>) -> (
    EnvView,
    Result<(), QuakeError>,
) {
    if !s.policies.contains_key(policy_id) {
        (s, Err(QuakeError::PolicyNotFound))
    } else if !(s.policies[policy_id].state is Active) {
        (s, Err(QuakeError::PolicyNotActive))
    } else {
        let record = s.policies[policy_id];
        let collected = s.can_collect(
            record.premium_asset,
            record.policyholder,
            record.premium_rate,
        );
        let after = if collected {
            s.after_collect(record.premium_asset, record.policyholder, record.premium_rate)
        } else {
            s
        };
        let updated = after_premium_attempt(record, collected);
        let events = if collected {
            s.events.push(
                ContractEventView::PremiumDeducted { policy_id, premium_rate: record.premium_rate },
            )
        } else if updated.state is Lapsed {
            s.events.push(ContractEventView::PolicyLapsed { policy_id })
        } else {
            s.events
        };
        (EnvView { policies: s.policies.insert(policy_id, updated), events, ..after }, Ok(()))
    }
}

/// `is_trigger_active`: the accepted reading crosses the threshold.
pub open spec fn trigger_active(
    s: EnvView,
    vertical: InsuranceVertical,
    location_hash: Seq<u8>,
    threshold: i128,
    direction: TriggerDirection,
) -> bool {
    s.readings.contains_key((vertical, location_hash)) && trigger_fires(
        s.readings[(vertical, location_hash)],
        threshold,
        direction,
    )
}

/// Whether the policy has lapsed.
fn lapsed(record: &PolicyRecord) -> (r: bool)
    ensures
        r == record@.state is Lapsed,
{
    match record.state {
        PolicyState::Lapsed => true,
        _ => false,
    }
}

impl QuakeContract {
    /// Initialise the contract. Must be called once after deployment.
    ///
    /// Fails with `AlreadyInitialized` when called more than once. The admin
    /// must have authorised the call.
    pub fn initialize(
        env: &mut ContractEnv,
        admin: Address,
        min_reliability_score: u32,
        default_confirmation_window: u32,
    ) -> (r: Result<(), QuakeError>)
        requires
            old(env).wf(),
            old(env)@.config is None ==> old(env)@.authorizes(admin@),
        ensures
            final(env).wf(),
            (final(env)@, r) == initialize_step(
                old(env)@,
                admin@,
                min_reliability_score,
                default_confirmation_window,
            ),
    {
        if is_initialized(env) {
            return Err(QuakeError::AlreadyInitialized);
        }
        let config = new_contract_config(admin, min_reliability_score, default_confirmation_window);
        save_config(env, &config);
        Ok(())
    }

    /// Register a new oracle source for a vertical, with reliability score 50
    /// and no submission yet. Only the admin may register sources; the contract
    /// must be initialised and the caller must have authorised the call.
    pub fn register_oracle_source(
        env: &mut ContractEnv,
        admin: Address,
        source_address: Address,
        vertical: InsuranceVertical,
    ) -> (r: Result<(), QuakeError>)
        requires
            old(env).wf(),
            old(env)@.config is Some,
            old(env)@.authorizes(admin@),
        ensures
            final(env).wf(),
            (final(env)@, r) == register_oracle_source_step(
                old(env)@,
                admin@,
                source_address@,
                vertical,
            ),
    {
        let config = load_config(env);
        match check_admin(&config, &admin) {
            Err(e) => return Err(e),
            Ok(()) => {},
        }
        let source = new_oracle_source(source_address, vertical);
        save_oracle_source(env, &source);
        Ok(())
    }

    /// Configure oracle consensus parameters for a vertical. Only the admin may
    /// do so; the contract must be initialised and the caller must have
    /// authorised the call.
    pub fn set_oracle_config(
        env: &mut ContractEnv,
        admin: Address,
        vertical: InsuranceVertical,
        required: u32,
        tolerance_pct: u32,
        staleness_ttl: u32,
    ) -> (r: Result<(), QuakeError>)
        requires
            old(env).wf(),
            old(env)@.config is Some,
            old(env)@.authorizes(admin@),
        ensures
            final(env).wf(),
            (final(env)@, r) == set_oracle_config_step(
                old(env)@,
                admin@,
                vertical,
                required,
                tolerance_pct,
                staleness_ttl,
            ),
    {
        let config = load_config(env);
        match check_admin(&config, &admin) {
            Err(e) => return Err(e),
            Ok(()) => {},
        }
        save_oracle_config(env, &vertical, &OracleConfig { required, tolerance_pct, staleness_ttl });
        Ok(())
    }

    /// Submit a parameter reading from a registered oracle source.
    ///
    /// Fails with `OracleNotRegistered` for an unknown source and with
    /// `OracleReadingStale` when the reading is older than the vertical's
    /// staleness TTL. Otherwise the source's last submission ledger is set to
    /// the current ledger, the value becomes the accepted reading of the
    /// vertical and location, and `OracleReadingSubmitted` is published.
    pub fn submit_oracle_reading(
        env: &mut ContractEnv,
        oracle: Address,
        vertical: InsuranceVertical,
        location_hash: LocationHash,
        value: i128,
        ledger_timestamp: u32,
    ) -> (r: Result<(), QuakeError>)
        requires
            old(env).wf(),
            old(env)@.authorizes(oracle@),
        ensures
            final(env).wf(),
            (final(env)@, r) == submit_oracle_reading_step(
                old(env)@,
                oracle@,
                vertical,
                location_hash@,
                value,
                ledger_timestamp,
            ),
    {
        let mut source = match load_oracle_source(env, &vertical, &oracle) {
            Ok(s) => s,
            Err(e) => return Err(e),
        };
        let oracle_cfg = load_oracle_config(env, &vertical);
        let current = env.ledger_sequence();
        if is_reading_stale(current, ledger_timestamp, oracle_cfg.staleness_ttl) {
            return Err(QuakeError::OracleReadingStale);
        }
        source.last_submission_ledger = current;
        proof {
            env.lemma_sources_keyed_by_identity();
        }
        save_oracle_source(env, &source);
        save_accepted_reading(env, &vertical, &location_hash, value);
        env.publish(
            ContractEvent::OracleReadingSubmitted { oracle, vertical, location_hash, value },
        );
        Ok(())
    }

    /// Create a new parametric insurance policy, active from the current ledger
    /// for `duration_ledgers` ledgers, under an id derived from its minting
    /// inputs.
    ///
    /// Fails with `InvalidPayoutAmount` when the payout is not positive, with
    /// `InvalidPremiumRate` when the premium rate is not positive, and with
    /// `InvalidTriggerConfig` when the confirmation window is 0, and with
    /// `Unauthorised` when the policyholder did not sign. For valid, signed
    /// terms the end ledger must fit in a `u32`.
    pub fn create_policy(
        env: &mut ContractEnv,
        policyholder: Address,
        vertical: InsuranceVertical,
        coverage_asset: Address,
        payout_amount: i128,
        premium_asset: Address,
        premium_rate: i128,
        duration_ledgers: u32,
        trigger_config: TriggerConfig,
        location_hash: LocationHash,
    ) -> (r: Result<PolicyId, QuakeError>)
        requires
            old(env).wf(),
            policy_terms_outcome(payout_amount, premium_rate, trigger_config) is Ok && old(
                env,
            )@.authorizes(policyholder@) ==> old(env)@.sequence + duration_ledgers <= u32::MAX,
        ensures
            final(env).wf(),
            ({
                let (s, out) = create_policy_step(
                    old(env)@,
                    policyholder@,
                    vertical,
                    coverage_asset@,
                    payout_amount,
                    premium_asset@,
                    premium_rate,
                    duration_ledgers,
                    trigger_config,
                    location_hash@,
                );
                &&& final(env)@ == s
                &&& match r {
                    Ok(id) => out == Ok::<Seq<u8>, QuakeError>(id@),
                    Err(e) => out == Err::<Seq<u8>, QuakeError>(e),
                }
            }),
    {
        match validate_policy_terms(payout_amount, premium_rate, &trigger_config) {
            Err(e) => return Err(e),
            Ok(()) => {},
        }
        if !env.is_authorized(&policyholder) {
            return Err(QuakeError::Unauthorised);
        }
        let current = env.ledger_sequence();
        let end_ledger = current + duration_ledgers;
        let id = derive_policy_id(env, &policyholder, &vertical, payout_amount, end_ledger);
        let record = new_policy_record(
            policyholder.duplicate(),
            vertical,
            coverage_asset,
            payout_amount,
            premium_asset,
            premium_rate,
            current,
            end_ledger,
            trigger_config,
            location_hash,
        );
        save_policy(env, &id, &record);
        env.publish(
            ContractEvent::PolicyCreated { policy_id: id, policyholder, vertical, payout_amount },
        );
        Ok(id)
    }

    /// Cancel an active or lapsed policy and stop premium deductions.
    ///
    /// Fails with `PolicyNotFound` for an unknown id, with `Unauthorised` when
    /// the caller is not the policyholder and with `PolicyNotActive` when the
    /// policy is in any other state. The caller must have authorised the call.
    pub fn cancel_policy(env: &mut ContractEnv, policy_id: PolicyId, policyholder: Address) -> (r:
        Result<(), QuakeError>)
        requires
            old(env).wf(),
            old(env)@.authorizes(policyholder@),
        ensures
            final(env).wf(),
            (final(env)@, r) == cancel_policy_step(old(env)@, policy_id@, policyholder@),
    {
        let mut record = match load_policy(env, &policy_id) {
            Ok(rec) => rec,
            Err(e) => return Err(e),
        };
        match check_cancellation(&record, &policyholder) {
            Err(e) => return Err(e),
            Ok(()) => {},
        }
        record.state = PolicyState::Cancelled;
        save_policy(env, &policy_id, &record);
        env.publish(ContractEvent::PolicyCancelled { policy_id, policyholder });
        Ok(())
    }

    /// Deduct the premium of an active policy from the policyholder's balance
    /// into the reserve. Permissionless, so keepers can maintain the stream.
    ///
    /// Fails with `PolicyNotFound` for an unknown id and with `PolicyNotActive`
    /// when the policy is not active. Otherwise succeeds: when the premium can
    /// be collected it is moved, the count of missed premiums is cleared and
    /// `PremiumDeducted` is published; when it cannot, the miss is counted and
    /// on the third miss in a row the policy is marked `Lapsed` and
    /// `PolicyLapsed` is published.
    pub fn deduct_premium(env: &mut ContractEnv, policy_id: PolicyId) -> (r: Result<(), QuakeError>)
        requires
            old(env).wf(),
        ensures
            final(env).wf(),
            (final(env)@, r) == deduct_premium_step(old(env)@, policy_id@),
    {
        let mut record = match load_policy(env, &policy_id) {
            Ok(rec) => rec,
            Err(e) => return Err(e),
        };
        match check_premium_due(&record) {
            Err(e) => return Err(e),
            Ok(()) => {},
        }
        let collected = env.collect(&record.premium_asset, &record.policyholder, record.premium_rate);
        record_premium_attempt(&mut record, collected);
        save_policy(env, &policy_id, &record);
        if collected {
            env.publish(
                ContractEvent::PremiumDeducted { policy_id, premium_rate: record.premium_rate },
            );
        } else if lapsed(&record) {
            env.publish(ContractEvent::PolicyLapsed { policy_id });
        }
        Ok(())
    }

    /// The stored policy, or `PolicyNotFound`.
    pub fn get_policy(env: &ContractEnv, policy_id: PolicyId) -> (r: Result<
        PolicyRecord,
        QuakeError,
    >)
        requires
            env.wf(),
        ensures
            match r {
                Ok(record) => env@.policies.contains_key(policy_id@) && record@
                    == env@.policies[policy_id@],
                Err(e) => !env@.policies.contains_key(policy_id@) && e
                    == QuakeError::PolicyNotFound,
            },
    {
        load_policy(env, &policy_id)
    }

    /// The latest accepted oracle reading for a vertical and location.
    pub fn get_accepted_reading(
        env: &ContractEnv,
        vertical: InsuranceVertical,
        location_hash: LocationHash,
    ) -> (r: Option<i128>)
        requires
            env.wf(),
        ensures
            r == (if env@.readings.contains_key((vertical, location_hash@)) {
                Some(env@.readings[(vertical, location_hash@)])
            } else {
                None
            }),
    {
        load_accepted_reading(env, &vertical, &location_hash)
    }

    /// Whether the latest accepted reading for the vertical and location
    /// crosses the threshold in the given direction; false without a reading.
    pub fn is_trigger_active(
        env: &ContractEnv,
        vertical: InsuranceVertical,
        location_hash: LocationHash,
        threshold: i128,
        direction: TriggerDirection,
    ) -> (r: bool)
        requires
            env.wf(),
        ensures
            r == trigger_active(env@, vertical, location_hash@, threshold, direction),
    {
        match load_accepted_reading(env, &vertical, &location_hash) {
            Some(reading) => trigger_condition_met(reading, threshold, direction),
            None => false,
        }
    }

    /// The oracle source record for a vertical and source address, or
    /// `OracleNotRegistered`.
    pub fn get_oracle_source(env: &ContractEnv, vertical: InsuranceVertical, source: Address) -> (r:
        Result<OracleSource, QuakeError>)
        requires
            env.wf(),
        ensures
            match r {
                Ok(rec) => env@.oracle_sources.contains_key((vertical, source@)) && rec@
                    == env@.oracle_sources[(vertical, source@)],
                Err(e) => !env@.oracle_sources.contains_key((vertical, source@)) && e
                    == QuakeError::OracleNotRegistered,
            },
    {
        load_oracle_source(env, &vertical, &source)
    }
}

} // verus!
