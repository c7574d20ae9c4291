//! Properties of the contract that relate several calls or hold of every
//! state, stated over the steps of [`crate::contract`].
use vstd::prelude::*;

use crate::contract::{
    cancel_policy_step, create_policy_step, deduct_premium_step, initialize_step, new_policy_id,
    register_oracle_source_step, set_oracle_config_step, submit_oracle_reading_step,
    trigger_active,
};
use crate::errors::QuakeError;
use crate::logic::{
    default_oracle_config_value, fresh_oracle_source, initial_config, policy_terms_outcome,
    reading_stale, trigger_fires,
};
use crate::storage::EnvView;
use crate::encoding::{be_bytes, i128_bits, sha256_digest, vertical_name, vertical_xdr};
use crate::events::ContractEventView;
use vstd::arithmetic::div_mod::lemma_div_denominator;
use vstd::arithmetic::power::{lemma_pow_positive, pow};
use crate::types::{
    InsuranceVertical, OracleConfig, PolicyRecordView, PolicyState, TriggerConfig,
    TriggerDirection,
};

verus! {

/// The contract can be initialised once: the first call on an uninitialised
/// contract succeeds and stores the configuration (with a 1000 bps solvency
/// ratio); every later call fails with `AlreadyInitialized` and changes
/// nothing.
pub proof fn initialize_only_once(
    s: EnvView,
    admin: Seq<u8>,
    min_reliability_score: u32,
    default_confirmation_window: u32,
    admin2: Seq<u8>,
    min_reliability_score2: u32,
    default_confirmation_window2: u32,
)
    requires
        s.config is None,
    ensures
        ({
            let (s1, r1) = initialize_step(
                s,
                admin,
                min_reliability_score,
                default_confirmation_window,
            );
            &&& r1 is Ok
            &&& s1.config == Some(
                initial_config(admin, min_reliability_score, default_confirmation_window),
            )
            &&& s1.config->0.admin == admin
            &&& s1.config->0.min_reliability_score == min_reliability_score
            &&& s1.config->0.default_confirmation_window == default_confirmation_window
            &&& s1.config->0.min_solvency_ratio_bps == 1000
            &&& initialize_step(s1, admin2, min_reliability_score2, default_confirmation_window2)
                == (s1, Err::<(), QuakeError>(QuakeError::AlreadyInitialized))
        }),
{
}

/// A source registered by the admin reads back with reliability score 50 and
/// no submission.
pub proof fn registered_source_reads_back(
    s: EnvView,
    admin: Seq<u8>,
    source: Seq<u8>,
    vertical: InsuranceVertical,
)
    requires
        s.config is Some,
        s.config->0.admin == admin,
    ensures
        ({
            let (s1, r) = register_oracle_source_step(s, admin, source, vertical);
            &&& r is Ok
            &&& s1.oracle_sources.contains_key((vertical, source))
            &&& s1.oracle_sources[(vertical, source)] == fresh_oracle_source(source, vertical)
            &&& s1.oracle_sources[(vertical, source)].address == source
            &&& s1.oracle_sources[(vertical, source)].vertical == vertical
            &&& s1.oracle_sources[(vertical, source)].reliability_score == 50
            &&& s1.oracle_sources[(vertical, source)].last_submission_ledger == 0
        }),
{
}

/// Only the admin may register sources or configure a vertical: any other
/// caller gets `Unauthorised` and nothing changes.
pub proof fn only_admin_configures(
    s: EnvView,
    caller: Seq<u8>,
    source: Seq<u8>,
    vertical: InsuranceVertical,
    required: u32,
    tolerance_pct: u32,
    staleness_ttl: u32,
)
    requires
        s.config is Some,
        s.config->0.admin != caller,
    ensures
        register_oracle_source_step(s, caller, source, vertical) == (
            s,
            Err::<(), QuakeError>(QuakeError::Unauthorised),
        ),
        set_oracle_config_step(s, caller, vertical, required, tolerance_pct, staleness_ttl) == (
            s,
            Err::<(), QuakeError>(QuakeError::Unauthorised),
        ),
{
}

/// The configuration the admin sets for a vertical is the one in force for it
/// afterwards; a vertical never configured uses 3 sources, 10 % tolerance and
/// a 720-ledger staleness TTL.
pub proof fn oracle_config_in_force(
    s: EnvView,
    admin: Seq<u8>,
    vertical: InsuranceVertical,
    required: u32,
    tolerance_pct: u32,
    staleness_ttl: u32,
    other: InsuranceVertical,
)
    requires
        s.config is Some,
        s.config->0.admin == admin,
    ensures
        ({
            let (s1, r) = set_oracle_config_step(
                s,
                admin,
                vertical,
                required,
                tolerance_pct,
                staleness_ttl,
            );
            &&& r is Ok
            &&& s1.oracle_config_for(vertical) == OracleConfig {
                required,
                tolerance_pct,
                staleness_ttl,
            }
            &&& other != vertical ==> s1.oracle_config_for(other) == s.oracle_config_for(other)
        }),
        !s.oracle_configs.contains_key(other) ==> s.oracle_config_for(other)
            == default_oracle_config_value(),
        !s.oracle_configs.contains_key(other) ==> s.oracle_config_for(other) == (OracleConfig {
            required: 3,
            tolerance_pct: 10,
            staleness_ttl: 720,
        }),
{
}

/// A fresh reading from a registered source becomes the accepted reading of
/// its vertical and location, and the source's last submission is the
/// current ledger.
pub proof fn submitted_reading_is_accepted(
    s: EnvView,
    oracle: Seq<u8>,
    vertical: InsuranceVertical,
    location_hash: Seq<u8>,
    value: i128,
    ledger_timestamp: u32,
)
    requires
        s.oracle_sources.contains_key((vertical, oracle)),
        !reading_stale(s.sequence, ledger_timestamp, s.oracle_config_for(vertical).staleness_ttl),
    ensures
        ({
            let (s1, r) = submit_oracle_reading_step(
                s,
                oracle,
                vertical,
                location_hash,
                value,
                ledger_timestamp,
            );
            &&& r is Ok
            &&& s1.readings.contains_key((vertical, location_hash))
            &&& s1.readings[(vertical, location_hash)] == value
            &&& s1.oracle_sources[(vertical, oracle)].last_submission_ledger == s.sequence
            &&& s1.oracle_sources[(vertical, oracle)].reliability_score == s.oracle_sources[(
                vertical,
                oracle,
            )].reliability_score
            &&& s.sources_keyed_by_identity() ==> s1.sources_keyed_by_identity()
        }),
{
}

/// The latest successful submission for a vertical and location is the
/// accepted reading, whoever submitted earlier and whatever they submitted;
/// the readings of every other vertical and location are untouched.
pub proof fn latest_reading_wins(
    s: EnvView,
    oracle1: Seq<u8>,
    value1: i128,
    timestamp1: u32,
    oracle2: Seq<u8>,
    value2: i128,
    timestamp2: u32,
    vertical: InsuranceVertical,
    location_hash: Seq<u8>,
    other: (InsuranceVertical, Seq<u8>),
)
    requires
        submit_oracle_reading_step(s, oracle1, vertical, location_hash, value1, timestamp1).1 is Ok,
        submit_oracle_reading_step(
            submit_oracle_reading_step(s, oracle1, vertical, location_hash, value1, timestamp1).0,
            oracle2,
            vertical,
            location_hash,
            value2,
            timestamp2,
        ).1 is Ok,
        other != (vertical, location_hash),
    ensures
        ({
            let s1 = submit_oracle_reading_step(
                s,
                oracle1,
                vertical,
                location_hash,
                value1,
                timestamp1,
            ).0;
            let s2 = submit_oracle_reading_step(
                s1,
                oracle2,
                vertical,
                location_hash,
                value2,
                timestamp2,
            ).0;
            &&& s2.readings.contains_key((vertical, location_hash))
            &&& s2.readings[(vertical, location_hash)] == value2
            &&& s2.readings.contains_key(other) == s1.readings.contains_key(other)
            &&& s1.readings.contains_key(other) ==> s2.readings[other] == s1.readings[other]
        }),
{
}

/// A reading older than the staleness TTL, or from an unregistered source, is
/// rejected and changes nothing.
pub proof fn stale_or_unregistered_reading_rejected(
    s: EnvView,
    oracle: Seq<u8>,
    vertical: InsuranceVertical,
    location_hash: Seq<u8>,
    value: i128,
    ledger_timestamp: u32,
)
    ensures
        !s.oracle_sources.contains_key((vertical, oracle)) ==> submit_oracle_reading_step(
            s,
            oracle,
            vertical,
            location_hash,
            value,
            ledger_timestamp,
        ) == (s, Err::<(), QuakeError>(QuakeError::OracleNotRegistered)),
        s.oracle_sources.contains_key((vertical, oracle)) && reading_stale(
            s.sequence,
            ledger_timestamp,
            s.oracle_config_for(vertical).staleness_ttl,
        ) ==> submit_oracle_reading_step(
            s,
            oracle,
            vertical,
            location_hash,
            value,
            ledger_timestamp,
        ) == (s, Err::<(), QuakeError>(QuakeError::OracleReadingStale)),
{
}

/// A created policy reads back under the returned id: active, with no
/// trigger detected and no confirmation, starting at the current ledger and
/// ending `duration_ledgers` later, with the terms it was created with.
pub proof fn created_policy_reads_back(
    s: EnvView,
    policyholder: Seq<u8>,
    vertical: InsuranceVertical,
    coverage_asset: Seq<u8>,
    payout_amount: i128,
    premium_asset: Seq<u8>,
    premium_rate: i128,
    duration_ledgers: u32,
    trigger_config: TriggerConfig,
    location_hash: Seq<u8>,
)
    requires
        policy_terms_outcome(payout_amount, premium_rate, trigger_config) is Ok,
        s.authorizes(policyholder),
        s.sequence + duration_ledgers <= u32::MAX,
    ensures
        ({
            let (s1, r) = create_policy_step(
                s,
                policyholder,
                vertical,
                coverage_asset,
                payout_amount,
                premium_asset,
                premium_rate,
                duration_ledgers,
                trigger_config,
                location_hash,
            );
            let end = (s.sequence + duration_ledgers) as u32;
            let id = new_policy_id(s, policyholder, vertical, payout_amount, end);
            &&& r == Ok::<Seq<u8>, QuakeError>(id)
            &&& s1.policies.contains_key(id)
            &&& s1.policies[id].state == PolicyState::Active
            &&& s1.policies[id].trigger_ledger is None
            &&& s1.policies[id].confirmation_count == 0
            &&& s1.policies[id].missed_premiums == 0
            &&& s1.policies[id].start_ledger == s.sequence
            &&& s1.policies[id].end_ledger == s.sequence + duration_ledgers
            &&& s1.policies[id].policyholder == policyholder
            &&& s1.policies[id].vertical == vertical
            &&& s1.policies[id].coverage_asset == coverage_asset
            &&& s1.policies[id].premium_asset == premium_asset
            &&& s1.policies[id].payout_amount == payout_amount
            &&& s1.policies[id].premium_rate == premium_rate
            &&& s1.policies[id].trigger_config == trigger_config
            &&& s1.policies[id].location_hash == location_hash
        }),
{
}

/// Invalid terms are rejected, checked in the order payout amount, premium
/// rate, confirmation window; valid terms the policyholder did not sign are
/// rejected as `Unauthorised`; a rejection changes nothing.
pub proof fn invalid_terms_rejected(
    s: EnvView,
    policyholder: Seq<u8>,
    vertical: InsuranceVertical,
    coverage_asset: Seq<u8>,
    payout_amount: i128,
    premium_asset: Seq<u8>,
    premium_rate: i128,
    duration_ledgers: u32,
    trigger_config: TriggerConfig,
    location_hash: Seq<u8>,
)
    ensures
        ({
            let out = create_policy_step(
                s,
                policyholder,
                vertical,
                coverage_asset,
                payout_amount,
                premium_asset,
                premium_rate,
                duration_ledgers,
                trigger_config,
                location_hash,
            );
            &&& payout_amount <= 0 ==> out == (
                s,
                Err::<Seq<u8>, QuakeError>(QuakeError::InvalidPayoutAmount),
            )
            &&& payout_amount > 0 && premium_rate <= 0 ==> out == (
                s,
                Err::<Seq<u8>, QuakeError>(QuakeError::InvalidPremiumRate),
            )
            &&& payout_amount > 0 && premium_rate > 0 && trigger_config.confirmation_window == 0
                ==> out == (s, Err::<Seq<u8>, QuakeError>(QuakeError::InvalidTriggerConfig))
            &&& policy_terms_outcome(payout_amount, premium_rate, trigger_config) is Ok
                && !s.authorizes(policyholder) ==> out == (
                s,
                Err::<Seq<u8>, QuakeError>(QuakeError::Unauthorised),
            )
        }),
{
}

/// The policyholder can cancel an active or lapsed policy; it then reads back
/// as cancelled, and cancelling it again fails with `PolicyNotActive`.
pub proof fn cancel_then_cancel_again(s: EnvView, policy_id: Seq<u8>, policyholder: Seq<u8>)
    requires
        s.policies.contains_key(policy_id),
        s.policies[policy_id].policyholder == policyholder,
        s.policies[policy_id].state is Active || s.policies[policy_id].state is Lapsed,
    ensures
        ({
            let (s1, r1) = cancel_policy_step(s, policy_id, policyholder);
            &&& r1 is Ok
            &&& s1.policies[policy_id].state == PolicyState::Cancelled
            &&& s1.policies[policy_id] == (PolicyRecordView {
                state: PolicyState::Cancelled,
                ..s.policies[policy_id]
            })
            &&& cancel_policy_step(s1, policy_id, policyholder) == (
                s1,
                Err::<(), QuakeError>(QuakeError::PolicyNotActive),
            )
        }),
{
}

/// Only the policyholder can cancel, and only an active or lapsed policy can
/// be cancelled (never a triggered, confirmed, paid, expired or cancelled
/// one); a refused cancellation changes nothing.
pub proof fn cancellation_rules(s: EnvView, policy_id: Seq<u8>, caller: Seq<u8>)
    ensures
        !s.policies.contains_key(policy_id) ==> cancel_policy_step(s, policy_id, caller) == (
            s,
            Err::<(), QuakeError>(QuakeError::PolicyNotFound),
        ),
        s.policies.contains_key(policy_id) && s.policies[policy_id].policyholder != caller
            ==> cancel_policy_step(s, policy_id, caller) == (
            s,
            Err::<(), QuakeError>(QuakeError::Unauthorised),
        ),
        s.policies.contains_key(policy_id) && s.policies[policy_id].policyholder == caller ==> (
        cancel_policy_step(s, policy_id, caller).1 is Ok <==> (s.policies[policy_id].state is Active
            || s.policies[policy_id].state is Lapsed)),
        cancel_policy_step(s, policy_id, caller).1 is Err ==> cancel_policy_step(
            s,
            policy_id,
            caller,
        ).0 == s,
{
}

/// A premium that can be collected is taken from the policyholder's balance
/// into the reserve: the balance drops and the reserve grows by exactly the
/// premium rate, the policy stays active with no missed premium, and
/// `PremiumDeducted` is published.
pub proof fn premium_taken_from_wallet(s: EnvView, policy_id: Seq<u8>)
    requires
        s.policies.contains_key(policy_id),
        s.policies[policy_id].state is Active,
        s.can_collect(
            s.policies[policy_id].premium_asset,
            s.policies[policy_id].policyholder,
            s.policies[policy_id].premium_rate,
        ),
    ensures
        ({
            let p = s.policies[policy_id];
            let (s1, r) = deduct_premium_step(s, policy_id);
            &&& r is Ok
            &&& s1.balance_of(p.premium_asset, p.policyholder) == s.balance_of(
                p.premium_asset,
                p.policyholder,
            ) - p.premium_rate
            &&& s1.reserve_of(p.premium_asset) == s.reserve_of(p.premium_asset) + p.premium_rate
            &&& s1.policies[policy_id] == (PolicyRecordView { missed_premiums: 0, ..p })
            &&& s1.events == s.events.push(
                ContractEventView::PremiumDeducted { policy_id, premium_rate: p.premium_rate },
            )
        }),
{
}

/// Premiums that cannot be collected three times in a row lapse the policy:
/// the first two misses are counted and publish nothing, the third marks the
/// policy `Lapsed` and publishes `PolicyLapsed`, and a further deduction
/// fails with `PolicyNotActive`. Balances are untouched throughout.
pub proof fn three_missed_premiums_lapse(s: EnvView, policy_id: Seq<u8>)
    requires
        s.policies.contains_key(policy_id),
        s.policies[policy_id].state is Active,
        s.policies[policy_id].missed_premiums == 0,
        !s.can_collect(
            s.policies[policy_id].premium_asset,
            s.policies[policy_id].policyholder,
            s.policies[policy_id].premium_rate,
        ),
    ensures
        ({
            let (s1, r1) = deduct_premium_step(s, policy_id);
            let (s2, r2) = deduct_premium_step(s1, policy_id);
            let (s3, r3) = deduct_premium_step(s2, policy_id);
            &&& r1 is Ok && r2 is Ok && r3 is Ok
            &&& s1.policies[policy_id].state is Active
            &&& s1.policies[policy_id].missed_premiums == 1
            &&& s1.events == s.events
            &&& s2.policies[policy_id].state is Active
            &&& s2.policies[policy_id].missed_premiums == 2
            &&& s2.events == s.events
            &&& s3.policies[policy_id].state is Lapsed
            &&& s3.events == s.events.push(ContractEventView::PolicyLapsed { policy_id })
            &&& s3.balances == s.balances
            &&& s3.reserve == s.reserve
            &&& deduct_premium_step(s3, policy_id) == (
                s3,
                Err::<(), QuakeError>(QuakeError::PolicyNotActive),
            )
        }),
{
    let (s1, r1) = deduct_premium_step(s, policy_id);
    let (s2, r2) = deduct_premium_step(s1, policy_id);
    assert(s1.balances == s.balances && s1.reserve == s.reserve);
    assert(s2.balances == s.balances && s2.reserve == s.reserve);
}

/// Cancelling a policy stops its premium deductions: a deduction after a
/// successful cancellation fails with `PolicyNotActive` and changes nothing.
pub proof fn cancelled_policy_pays_no_premium(s: EnvView, policy_id: Seq<u8>, policyholder: Seq<u8>)
    requires
        cancel_policy_step(s, policy_id, policyholder).1 is Ok,
    ensures
        ({
            let s1 = cancel_policy_step(s, policy_id, policyholder).0;
            deduct_premium_step(s1, policy_id) == (
                s1,
                Err::<(), QuakeError>(QuakeError::PolicyNotActive),
            )
        }),
{
}

/// A reading never fires a trigger in both directions, a reading equal to
/// the threshold fires neither, and without a reading no trigger is active.
pub proof fn trigger_directions_exclusive(
    s: EnvView,
    vertical: InsuranceVertical,
    location_hash: Seq<u8>,
    threshold: i128,
)
    ensures
        !(trigger_active(s, vertical, location_hash, threshold, TriggerDirection::Above)
            && trigger_active(s, vertical, location_hash, threshold, TriggerDirection::Below)),
        !s.readings.contains_key((vertical, location_hash)) ==> !trigger_active(
            s,
            vertical,
            location_hash,
            threshold,
            TriggerDirection::Above,
        ) && !trigger_active(s, vertical, location_hash, threshold, TriggerDirection::Below),
        s.readings.contains_key((vertical, location_hash)) && s.readings[(vertical, location_hash)]
            == threshold ==> !trigger_active(
            s,
            vertical,
            location_hash,
            threshold,
            TriggerDirection::Above,
        ) && !trigger_active(s, vertical, location_hash, threshold, TriggerDirection::Below),
{
}

/// Every stored policy has a positive payout and premium rate, a non-zero
/// confirmation window, and ends no earlier than it starts.
pub open spec fn policies_valid(s: EnvView) -> bool {
    forall|id: Seq<u8>| #[trigger]
        s.policies.contains_key(id) ==> {
            let p = s.policies[id];
            &&& p.payout_amount > 0
            &&& p.premium_rate > 0
            &&& p.trigger_config.confirmation_window > 0
            &&& p.start_ledger <= p.end_ledger
        }
}

/// Every entry point keeps stored policies valid.
pub proof fn entry_points_keep_policies_valid(
    s: EnvView,
    caller: Seq<u8>,
    other_address: Seq<u8>,
    vertical: InsuranceVertical,
    x: u32,
    y: u32,
    z: u32,
    policyholder: Seq<u8>,
    coverage_asset: Seq<u8>,
    payout_amount: i128,
    premium_asset: Seq<u8>,
    premium_rate: i128,
    duration_ledgers: u32,
    trigger_config: TriggerConfig,
    location_hash: Seq<u8>,
    value: i128,
    policy_id: Seq<u8>,
)
    requires
        policies_valid(s),
    ensures
        policies_valid(initialize_step(s, caller, x, y).0),
        s.config is Some ==> policies_valid(
            register_oracle_source_step(s, caller, other_address, vertical).0,
        ),
        s.config is Some ==> policies_valid(set_oracle_config_step(s, caller, vertical, x, y, z).0),
        policies_valid(submit_oracle_reading_step(s, caller, vertical, location_hash, value, x).0),
        s.authorizes(policyholder) ==> s.sequence + duration_ledgers <= u32::MAX ==> policies_valid(
            create_policy_step(
                s,
                policyholder,
                vertical,
                coverage_asset,
                payout_amount,
                premium_asset,
                premium_rate,
                duration_ledgers,
                trigger_config,
                location_hash,
            ).0,
        ),
        policies_valid(cancel_policy_step(s, policy_id, caller).0),
        policies_valid(deduct_premium_step(s, policy_id).0),
{
    let (s1, r) = cancel_policy_step(s, policy_id, caller);
    assert forall|id: Seq<u8>| #[trigger] s1.policies.contains_key(id) implies {
        let p = s1.policies[id];
        &&& p.payout_amount > 0
        &&& p.premium_rate > 0
        &&& p.trigger_config.confirmation_window > 0
        &&& p.start_ledger <= p.end_ledger
    } by {
        assert(s.policies.contains_key(id));
    }
    let (s2, r2) = deduct_premium_step(s, policy_id);
    assert forall|id: Seq<u8>| #[trigger] s2.policies.contains_key(id) implies {
        let p = s2.policies[id];
        &&& p.payout_amount > 0
        &&& p.premium_rate > 0
        &&& p.trigger_config.confirmation_window > 0
        &&& p.start_ledger <= p.end_ledger
    } by {
        assert(s.policies.contains_key(id));
    }
}

/// Every call that fails leaves the environment exactly as it was.
pub proof fn failures_change_nothing(s: EnvView)
    ensures
        forall|admin: Seq<u8>, x: u32, y: u32| #[trigger]
            initialize_step(s, admin, x, y).1 is Err ==> initialize_step(s, admin, x, y).0 == s,
        forall|admin: Seq<u8>, src: Seq<u8>, v: InsuranceVertical| #[trigger]
            register_oracle_source_step(s, admin, src, v).1 is Err ==> register_oracle_source_step(
                s,
                admin,
                src,
                v,
            ).0 == s,
        forall|admin: Seq<u8>, v: InsuranceVertical, x: u32, y: u32, z: u32| #[trigger]
            set_oracle_config_step(s, admin, v, x, y, z).1 is Err ==> set_oracle_config_step(
                s,
                admin,
                v,
                x,
                y,
                z,
            ).0 == s,
        forall|o: Seq<u8>, v: InsuranceVertical, l: Seq<u8>, val: i128, t: u32| #[trigger]
            submit_oracle_reading_step(s, o, v, l, val, t).1 is Err ==> submit_oracle_reading_step(
                s,
                o,
                v,
                l,
                val,
                t,
            ).0 == s,
        forall|
            h: Seq<u8>,
            v: InsuranceVertical,
            ca: Seq<u8>,
            amount: i128,
            pa: Seq<u8>,
            rate: i128,
            d: u32,
            tc: TriggerConfig,
            l: Seq<u8>,
        |
            #[trigger] create_policy_step(s, h, v, ca, amount, pa, rate, d, tc, l).1 is Err
                ==> create_policy_step(s, h, v, ca, amount, pa, rate, d, tc, l).0 == s,
        forall|id: Seq<u8>, h: Seq<u8>| #[trigger]
            cancel_policy_step(s, id, h).1 is Err ==> cancel_policy_step(s, id, h).0 == s,
        forall|id: Seq<u8>| #[trigger]
            deduct_premium_step(s, id).1 is Err ==> deduct_premium_step(s, id).0 == s,
{
}

// ---------------------------------------------------------------------------
// What each decision computes, in terms of its inputs
// ---------------------------------------------------------------------------

/// Policy terms are accepted exactly when the payout amount and the premium
/// rate are positive and the confirmation window is non-zero; the trigger's
/// parameter, threshold and direction play no part.
pub proof fn policy_terms_accepted_exactly_when_positive(
    payout_amount: i128,
    premium_rate: i128,
    trigger_config: TriggerConfig,
    other_trigger: TriggerConfig,
)
    ensures
        policy_terms_outcome(payout_amount, premium_rate, trigger_config) is Ok <==> (
        payout_amount > 0 && premium_rate > 0 && trigger_config.confirmation_window > 0),
        other_trigger.confirmation_window == trigger_config.confirmation_window
            ==> policy_terms_outcome(payout_amount, premium_rate, other_trigger)
            == policy_terms_outcome(payout_amount, premium_rate, trigger_config),
{
}

/// Signed, valid terms always create a policy, whatever the trigger's
/// parameter, threshold and direction: under the returned id the contract
/// stores an active policy holding exactly the terms given, starting at the
/// current ledger and ending `duration_ledgers` later; no other policy
/// changes and `PolicyCreated` is published.
pub proof fn signed_valid_terms_create_policy(
    s: EnvView,
    policyholder: Seq<u8>,
    vertical: InsuranceVertical,
    coverage_asset: Seq<u8>,
    payout_amount: i128,
    premium_asset: Seq<u8>,
    premium_rate: i128,
    duration_ledgers: u32,
    trigger_config: TriggerConfig,
    location_hash: Seq<u8>,
    other_id: Seq<u8>,
)
    requires
        payout_amount > 0,
        premium_rate > 0,
        trigger_config.confirmation_window > 0,
        s.authorizes(policyholder),
        s.sequence + duration_ledgers <= u32::MAX,
    ensures
        ({
            let (s1, r) = create_policy_step(
                s,
                policyholder,
                vertical,
                coverage_asset,
                payout_amount,
                premium_asset,
                premium_rate,
                duration_ledgers,
                trigger_config,
                location_hash,
            );
            &&& r is Ok
            &&& s1.policies.contains_key(r->Ok_0)
            &&& s1.policies[r->Ok_0] == (PolicyRecordView {
                policyholder,
                vertical,
                coverage_asset,
                payout_amount,
                premium_asset,
                premium_rate,
                start_ledger: s.sequence,
                end_ledger: (s.sequence + duration_ledgers) as u32,
                trigger_config,
                location_hash,
                state: PolicyState::Active,
                trigger_ledger: None,
                confirmation_count: 0,
                missed_premiums: 0,
            })
            &&& s1.policies[r->Ok_0].end_ledger == s.sequence + duration_ledgers
            &&& other_id != r->Ok_0 ==> (s1.policies.contains_key(other_id)
                == s.policies.contains_key(other_id))
            &&& other_id != r->Ok_0 && s.policies.contains_key(other_id) ==> s1.policies[other_id]
                == s.policies[other_id]
            &&& s1.events == s.events.push(
                ContractEventView::PolicyCreated {
                    policy_id: r->Ok_0,
                    policyholder,
                    vertical,
                    payout_amount,
                },
            )
        }),
{
}

/// A trigger compares the accepted reading with the threshold: `Below` fires
/// exactly when the reading is below it, `Above` exactly when it is above it,
/// and with no accepted reading neither fires.
pub proof fn trigger_compares_reading_with_threshold(
    s: EnvView,
    vertical: InsuranceVertical,
    location_hash: Seq<u8>,
    threshold: i128,
    reading: i128,
)
    ensures
        trigger_fires(reading, threshold, TriggerDirection::Below) == (reading < threshold),
        trigger_fires(reading, threshold, TriggerDirection::Above) == (reading > threshold),
        s.readings.contains_key((vertical, location_hash)) ==> (trigger_active(
            s,
            vertical,
            location_hash,
            threshold,
            TriggerDirection::Below,
        ) == (s.readings[(vertical, location_hash)] < threshold)),
        s.readings.contains_key((vertical, location_hash)) ==> (trigger_active(
            s,
            vertical,
            location_hash,
            threshold,
            TriggerDirection::Above,
        ) == (s.readings[(vertical, location_hash)] > threshold)),
        !s.readings.contains_key((vertical, location_hash)) ==> !trigger_active(
            s,
            vertical,
            location_hash,
            threshold,
            TriggerDirection::Below,
        ) && !trigger_active(s, vertical, location_hash, threshold, TriggerDirection::Above),
{
}

/// After a successful submission of `value`, the trigger at that vertical and
/// location fires `Below` a threshold exactly when `value` is below it, and
/// `Above` exactly when `value` is above it.
pub proof fn submitted_value_decides_trigger(
    s: EnvView,
    oracle: Seq<u8>,
    vertical: InsuranceVertical,
    location_hash: Seq<u8>,
    value: i128,
    ledger_timestamp: u32,
    threshold: i128,
)
    requires
        submit_oracle_reading_step(s, oracle, vertical, location_hash, value, ledger_timestamp).1 is Ok,
    ensures
        ({
            let s1 = submit_oracle_reading_step(
                s,
                oracle,
                vertical,
                location_hash,
                value,
                ledger_timestamp,
            ).0;
            &&& trigger_active(s1, vertical, location_hash, threshold, TriggerDirection::Below) == (
            value < threshold)
            &&& trigger_active(s1, vertical, location_hash, threshold, TriggerDirection::Above) == (
            value > threshold)
        }),
{
}

/// A reading is stale exactly when it is stamped at or before the current
/// ledger and more than `staleness_ttl` ledgers old; a reading stamped in the
/// future is never stale.
pub proof fn staleness_is_age_beyond_ttl(current: u32, ledger_timestamp: u32, staleness_ttl: u32)
    ensures
        reading_stale(current, ledger_timestamp, staleness_ttl) == (ledger_timestamp <= current
            && current - ledger_timestamp > staleness_ttl),
{
}

/// A registered source's reading is accepted exactly when it is at most the
/// vertical's staleness TTL old (720 ledgers when the vertical has no
/// configuration); an accepted reading becomes the vertical's and location's
/// reading, and a refused one changes nothing.
pub proof fn submit_accepts_exactly_fresh_readings(
    s: EnvView,
    oracle: Seq<u8>,
    vertical: InsuranceVertical,
    location_hash: Seq<u8>,
    value: i128,
    ledger_timestamp: u32,
)
    requires
        s.oracle_sources.contains_key((vertical, oracle)),
    ensures
        ({
            let ttl: u32 = if s.oracle_configs.contains_key(vertical) {
                s.oracle_configs[vertical].staleness_ttl
            } else {
                720
            };
            let too_old = ledger_timestamp <= s.sequence && s.sequence - ledger_timestamp > ttl;
            let (s1, r) = submit_oracle_reading_step(
                s,
                oracle,
                vertical,
                location_hash,
                value,
                ledger_timestamp,
            );
            &&& r is Ok <==> !too_old
            &&& too_old ==> r == Err::<(), QuakeError>(QuakeError::OracleReadingStale) && s1 == s
            &&& !too_old ==> s1.readings.contains_key((vertical, location_hash))
                && s1.readings[(vertical, location_hash)] == value
                && s1.oracle_sources[(vertical, oracle)].last_submission_ledger == s.sequence
        }),
{
}

/// Whether a premium can be moved into the reserve depends only on the amount
/// being non-negative, the holder having it and the reserve having room.
pub proof fn collect_needs_only_funds(s: EnvView, asset: Seq<u8>, holder: Seq<u8>, amount: i128)
    ensures
        s.can_collect(asset, holder, amount) <==> (amount >= 0 && s.balance_of(asset, holder)
            >= amount && s.reserve_of(asset) + amount <= i128::MAX),
{
}

/// A premium the policyholder's wallet can pay is always collected: the
/// wallet loses and the reserve gains exactly the premium rate, the count of
/// missed premiums is cleared, the policy stays active and `PremiumDeducted`
/// is published. A premium the wallet cannot pay leaves every balance as it
/// was and publishes no `PremiumDeducted`.
pub proof fn affordable_premium_is_collected(s: EnvView, policy_id: Seq<u8>)
    requires
        s.policies.contains_key(policy_id),
        s.policies[policy_id].state is Active,
    ensures
        ({
            let p = s.policies[policy_id];
            let held = s.balance_of(p.premium_asset, p.policyholder);
            let pooled = s.reserve_of(p.premium_asset);
            let (s1, r) = deduct_premium_step(s, policy_id);
            &&& r is Ok
            &&& (p.premium_rate >= 0 && held >= p.premium_rate && pooled + p.premium_rate
                <= i128::MAX) ==> {
                &&& s1.balances.contains_key((p.premium_asset, p.policyholder))
                &&& s1.balances[(p.premium_asset, p.policyholder)] == held - p.premium_rate
                &&& s1.reserve.contains_key(p.premium_asset)
                &&& s1.reserve[p.premium_asset] == pooled + p.premium_rate
                &&& s1.policies[policy_id].missed_premiums == 0
                &&& s1.policies[policy_id].state is Active
                &&& s1.events == s.events.push(
                    ContractEventView::PremiumDeducted {
                        policy_id,
                        premium_rate: p.premium_rate,
                    },
                )
            }
            &&& held < p.premium_rate ==> {
                &&& s1.balances == s.balances
                &&& s1.reserve == s.reserve
                &&& s1.events.len() <= s.events.len() + 1
                &&& s1.events.len() == s.events.len() + 1 ==> s1.events.last()
                    == ContractEventView::PolicyLapsed { policy_id }
            }
        }),
{
}

/// A premium the wallet cannot pay counts as one more missed premium in a
/// row; the policy lapses (publishing `PolicyLapsed`) exactly when that count
/// reaches three, and otherwise keeps its state and publishes nothing.
pub proof fn missed_premium_counted(s: EnvView, policy_id: Seq<u8>)
    requires
        s.policies.contains_key(policy_id),
        s.policies[policy_id].state is Active,
        s.policies[policy_id].missed_premiums < u32::MAX,
        s.balance_of(s.policies[policy_id].premium_asset, s.policies[policy_id].policyholder)
            < s.policies[policy_id].premium_rate,
    ensures
        ({
            let p = s.policies[policy_id];
            let (s1, r) = deduct_premium_step(s, policy_id);
            &&& r is Ok
            &&& s1.policies[policy_id].missed_premiums == p.missed_premiums + 1
            &&& p.missed_premiums + 1 >= 3 ==> s1.policies[policy_id].state is Lapsed
                && s1.events == s.events.push(ContractEventView::PolicyLapsed { policy_id })
            &&& p.missed_premiums + 1 < 3 ==> s1.policies[policy_id].state is Active && s1.events
                == s.events
            &&& s1.policies[policy_id] == (PolicyRecordView {
                missed_premiums: s1.policies[policy_id].missed_premiums,
                state: s1.policies[policy_id].state,
                ..p
            })
        }),
{
}

/// Valid terms that the policyholder did not sign are refused, unless every
/// address counts as having signed: an address authorises a call exactly when
/// it is among the signers or all authorisations are mocked.
pub proof fn unsigned_policy_refused(
    s: EnvView,
    policyholder: Seq<u8>,
    vertical: InsuranceVertical,
    coverage_asset: Seq<u8>,
    payout_amount: i128,
    premium_asset: Seq<u8>,
    premium_rate: i128,
    duration_ledgers: u32,
    trigger_config: TriggerConfig,
    location_hash: Seq<u8>,
    signer: Seq<u8>,
)
    ensures
        s.authorizes(policyholder) <==> (s.all_auths || s.signers.contains(policyholder)),
        s.signers.push(signer).contains(signer),
        (EnvView { signers: s.signers.push(signer), ..s }).authorizes(signer),
        payout_amount > 0 && premium_rate > 0 && trigger_config.confirmation_window > 0
            && !s.all_auths && !s.signers.contains(policyholder) ==> create_policy_step(
            s,
            policyholder,
            vertical,
            coverage_asset,
            payout_amount,
            premium_asset,
            premium_rate,
            duration_ledgers,
            trigger_config,
            location_hash,
        ) == (s, Err::<Seq<u8>, QuakeError>(QuakeError::Unauthorised)),
{
    assert(s.signers.push(signer)[s.signers.len() as int] == signer);
}

/// The id of a created policy is the SHA-256 digest of the policyholder's
/// address encoding, the vertical's encoding, the payout amount (16 bytes),
/// the end ledger and the current ledger (4 bytes each, big-endian).
pub proof fn created_policy_id_is_digest_of_minting_inputs(
    s: EnvView,
    policyholder: Seq<u8>,
    vertical: InsuranceVertical,
    coverage_asset: Seq<u8>,
    payout_amount: i128,
    premium_asset: Seq<u8>,
    premium_rate: i128,
    duration_ledgers: u32,
    trigger_config: TriggerConfig,
    location_hash: Seq<u8>,
)
    requires
        payout_amount > 0,
        premium_rate > 0,
        trigger_config.confirmation_window > 0,
        s.authorizes(policyholder),
        s.sequence + duration_ledgers <= u32::MAX,
    ensures
        create_policy_step(
            s,
            policyholder,
            vertical,
            coverage_asset,
            payout_amount,
            premium_asset,
            premium_rate,
            duration_ledgers,
            trigger_config,
            location_hash,
        ).1 == Ok::<Seq<u8>, QuakeError>(
            sha256_digest(
                policyholder + vertical_xdr(vertical) + be_bytes(i128_bits(payout_amount), 16)
                    + be_bytes((s.sequence + duration_ledgers) as nat, 4) + be_bytes(
                    s.sequence as nat,
                    4,
                ),
            ),
        ),
{
}

/// `be_bytes(v, n)` holds `n` bytes, the base-256 digits of `v` from the most
/// significant: byte `i` is `v / 256^(n-1-i)` modulo 256.
pub proof fn be_bytes_are_base256_digits(v: nat, n: nat)
    ensures
        be_bytes(v, n).len() == n,
        forall|i: int|
            0 <= i < n ==> #[trigger] be_bytes(v, n)[i] as int == (v as int / pow(
                256,
                (n - 1 - i) as nat,
            )) % 256,
    decreases n,
{
    if n > 0 {
        be_bytes_are_base256_digits(v / 256, (n - 1) as nat);
        assert forall|i: int| 0 <= i < n implies #[trigger] be_bytes(v, n)[i] as int == (v as int
            / pow(256, (n - 1 - i) as nat)) % 256 by {
            if i < n - 1 {
                let k = (n - 2 - i) as nat;
                assert(be_bytes(v, n)[i] == be_bytes(v / 256, (n - 1) as nat)[i]);
                lemma_pow_positive(256, k);
                lemma_div_denominator(v as int, 256, pow(256, k));
                reveal(pow);
                assert(pow(256, (k + 1) as nat) == 256 * pow(256, k));
                assert((n - 1 - i) as nat == (k + 1) as nat);
            } else {
                reveal(pow);
                assert(pow(256, 0) == 1);
            }
        }
    }
}

/// `i128_bits(x)` is the unsigned value with the same 128 bits as `x`: a
/// number below 2^128 that agrees with `x` modulo 2^128, and `x` itself when
/// `x` is not negative.
pub proof fn i128_bits_is_twos_complement(x: i128)
    ensures
        0 <= i128_bits(x) < 0x1_0000_0000_0000_0000_0000_0000_0000_0000,
        i128_bits(x) == x || i128_bits(x) == x + 0x1_0000_0000_0000_0000_0000_0000_0000_0000,
        x >= 0 ==> i128_bits(x) == x,
{
}

/// `be_bytes(v, n)` holds `n` bytes, the last of which is `v` modulo 256.
proof fn be_bytes_length(v: nat, n: nat)
    ensures
        be_bytes(v, n).len() == n,
        n > 0 ==> be_bytes(v, n)[n - 1] == (v % 256) as u8,
    decreases n,
{
    if n > 0 {
        be_bytes_length(v / 256, (n - 1) as nat);
    }
}

/// The vertical's encoding is a whole number of 4-byte XDR words: the header
/// of a one-element vector of symbols, the name's length, the name, and zero
/// padding.
pub proof fn vertical_xdr_layout(v: InsuranceVertical)
    ensures
        vertical_xdr(v).len() % 4 == 0,
        vertical_xdr(v).len() == 20 + vertical_name(v).len() + (4 - vertical_name(v).len() % 4)
            % 4,
        vertical_xdr(v).subrange(0, 16) == be_bytes(16, 4) + be_bytes(1, 4) + be_bytes(1, 4)
            + be_bytes(15, 4),
        vertical_xdr(v).subrange(16, 20) == be_bytes(vertical_name(v).len(), 4),
        vertical_xdr(v).subrange(20, 20 + vertical_name(v).len() as int) == vertical_name(v),
        forall|i: int|
            20 + vertical_name(v).len() <= i < vertical_xdr(v).len() ==> #[trigger] vertical_xdr(
                v,
            )[i] == 0,
{
    let x = vertical_xdr(v);
    let name = vertical_name(v);
    be_bytes_length(16, 4);
    be_bytes_length(1, 4);
    be_bytes_length(15, 4);
    be_bytes_length(name.len(), 4);
    assert(x.subrange(0, 16) =~= be_bytes(16, 4) + be_bytes(1, 4) + be_bytes(1, 4) + be_bytes(
        15,
        4,
    ));
    assert(x.subrange(16, 20) =~= be_bytes(name.len(), 4));
    assert(x.subrange(20, 20 + name.len() as int) =~= name);
}

/// Different verticals have different encodings.
pub proof fn vertical_xdr_distinct(v: InsuranceVertical, w: InsuranceVertical)
    ensures
        v != w ==> vertical_xdr(v) != vertical_xdr(w),
{
    if v != w && vertical_xdr(v) == vertical_xdr(w) {
        let x = vertical_xdr(v);
        let name = vertical_name(v);
        let other = vertical_name(w);
        vertical_xdr_layout(v);
        vertical_xdr_layout(w);
        be_bytes_length(name.len(), 4);
        be_bytes_length(other.len(), 4);
        assert(x[19] == x.subrange(16, 20)[3]);
        assert(x[20] == x.subrange(20, 20 + name.len() as int)[0]);
        assert(x[20] == x.subrange(20, 20 + other.len() as int)[0]);
        assert(name.len() == other.len());
        assert(name[0] == other[0]);
    }
}

/// Two affordable collections from one wallet accumulate: the wallet loses
/// and the reserve gains the sum of both amounts, and a set balance reads
/// back as set.
pub proof fn collections_accumulate(
    s: EnvView,
    asset: Seq<u8>,
    holder: Seq<u8>,
    first: i128,
    second: i128,
    amount: i128,
)
    requires
        s.can_collect(asset, holder, first),
        s.after_collect(asset, holder, first).can_collect(asset, holder, second),
    ensures
        ({
            let s2 = s.after_collect(asset, holder, first).after_collect(asset, holder, second);
            &&& s2.balances[(asset, holder)] == s.balance_of(asset, holder) - first - second
            &&& s2.balance_of(asset, holder) == s.balance_of(asset, holder) - first - second
            &&& s2.reserve[asset] == s.reserve_of(asset) + first + second
            &&& s2.reserve_of(asset) == s.reserve_of(asset) + first + second
        }),
        (EnvView { balances: s.balances.insert((asset, holder), amount), ..s }).balance_of(
            asset,
            holder,
        ) == amount,
        !s.balances.contains_key((asset, holder)) ==> s.balance_of(asset, holder) == 0,
        !s.reserve.contains_key(asset) ==> s.reserve_of(asset) == 0,
{
}

} // verus!
