//! The environment a contract invocation runs in, and the contract's storage
//! helpers over it.
use vstd::prelude::*;

use crate::encoding::{compute_policy_id, policy_id_preimage, sha256_digest};
use crate::errors::QuakeError;
use crate::events::{ContractEvent, ContractEventView};
use crate::logic::{default_oracle_config, default_oracle_config_value};
use crate::table::Table;
use crate::types::{
    Address, ContractConfig, ContractConfigView, InsuranceVertical, LocationHash, OracleConfig,
    OracleSource, OracleSourceView, PolicyId, PolicyRecord, PolicyRecordView,
};

verus! {

/// The environment of the contract: its storage, the current ledger sequence,
/// the events published so far, and which addresses have authorised the
/// current invocation.
pub struct ContractEnv {
    config: Option<ContractConfig>,
    policies: Table<PolicyId, PolicyRecord>,
    oracle_sources: Table<(InsuranceVertical, Address), OracleSource>,
    readings: Table<(InsuranceVertical, LocationHash), i128>,
    oracle_configs: Table<InsuranceVertical, OracleConfig>,
    balances: Table<(Address, Address), i128>,
    reserve: Table<Address, i128>,
    sequence: u32,
    events: Vec<ContractEvent>,
    all_auths: bool,
    signers: Vec<Address>,
}

/// Mathematical value of a [`ContractEnv`].
#[verifier::ext_equal]
pub struct EnvView {
    /// Contract-level configuration, once initialised.
    pub config: Option<ContractConfigView>,
    /// Policies by id.
    pub policies: Map<Seq<u8>, PolicyRecordView>,
    /// Oracle sources by (vertical, source address).
    pub oracle_sources: Map<(InsuranceVertical, Seq<u8>), OracleSourceView>,
    /// Latest accepted reading by (vertical, location hash).
    pub readings: Map<(InsuranceVertical, Seq<u8>), i128>,
    /// Oracle configuration by vertical.
    pub oracle_configs: Map<InsuranceVertical, OracleConfig>,
    /// Token balances by (asset, holder), as the token contracts hold them.
    pub balances: Map<(Seq<u8>, Seq<u8>), i128>,
    /// Premiums collected into the contract's reserve, by asset.
    pub reserve: Map<Seq<u8>, i128>,
    /// Current ledger sequence number.
    pub sequence: u32,
    /// Events published, oldest first.
    pub events: Seq<ContractEventView>,
    /// Whether every address counts as having authorised the invocation.
    pub all_auths: bool,
    /// Addresses that have authorised the invocation.
    pub signers: Seq<Seq<u8>>,
}

impl EnvView {
    /// Whether `address` has authorised the current invocation.
    pub open spec fn authorizes(self, address: Seq<u8>) -> bool {
        self.all_auths || self.signers.contains(address)
    }

    /// The oracle configuration in force for `vertical`.
    pub open spec fn oracle_config_for(self, vertical: InsuranceVertical) -> OracleConfig {
        if self.oracle_configs.contains_key(vertical) {
            self.oracle_configs[vertical]
        } else {
            default_oracle_config_value()
        }
    }

    /// The balance of `holder` in the token `asset` (0 when none was recorded).
    pub open spec fn balance_of(self, asset: Seq<u8>, holder: Seq<u8>) -> i128 {
        if self.balances.contains_key((asset, holder)) {
            self.balances[(asset, holder)]
        } else {
            0
        }
    }

    /// The reserve's holding of the token `asset` (0 when none was recorded).
    pub open spec fn reserve_of(self, asset: Seq<u8>) -> i128 {
        if self.reserve.contains_key(asset) {
            self.reserve[asset]
        } else {
            0
        }
    }

    /// Whether `amount` of `asset` can move from `holder` into the reserve:
    /// the amount is not negative, the holder has it, and the reserve can
    /// hold it.
    pub open spec fn can_collect(self, asset: Seq<u8>, holder: Seq<u8>, amount: i128) -> bool {
        &&& amount >= 0
        &&& self.balance_of(asset, holder) >= amount
        &&& self.reserve_of(asset) + amount <= i128::MAX
    }

    /// The environment after `amount` of `asset` moved from `holder` into the
    /// reserve.
    pub open spec fn after_collect(self, asset: Seq<u8>, holder: Seq<u8>, amount: i128) -> EnvView {
        EnvView {
            balances: self.balances.insert(
                (asset, holder),
                (self.balance_of(asset, holder) - amount) as i128,
            ),
            reserve: self.reserve.insert(asset, (self.reserve_of(asset) + amount) as i128),
            ..self
        }
    }

    /// Every oracle source is stored under its own vertical and address.
    pub open spec fn sources_keyed_by_identity(self) -> bool {
        forall|k: (InsuranceVertical, Seq<u8>)| #[trigger]
            self.oracle_sources.contains_key(k) ==> self.oracle_sources[k].vertical == k.0
                && self.oracle_sources[k].address == k.1
    }
}

impl View for ContractEnv {
    type V = EnvView;

    closed spec fn view(&self) -> EnvView {
        EnvView {
            config: match self.config {
                Some(c) => Some(c@),
                None => None,
            },
            policies: self.policies.view(),
            oracle_sources: self.oracle_sources.view(),
            readings: self.readings.view(),
            oracle_configs: self.oracle_configs.view(),
            balances: self.balances.view(),
            reserve: self.reserve.view(),
            sequence: self.sequence,
            events: self.events@.map_values(|e: ContractEvent| e@),
            all_auths: self.all_auths,
            signers: self.signers@.map_values(|a: Address| a@),
        }
    }
}

impl ContractEnv {
    /// The tables of the storage are well formed, and oracle sources are
    /// stored under their own vertical and address.
    pub closed spec fn wf(&self) -> bool {
        &&& self.policies.wf()
        &&& self.oracle_sources.wf()
        &&& self.readings.wf()
        &&& self.oracle_configs.wf()
        &&& self.balances.wf()
        &&& self.reserve.wf()
        &&& self@.sources_keyed_by_identity()
    }

    /// A fresh environment: empty storage, ledger sequence 0, no events and no
    /// authorisations.
    pub fn new() -> (env: ContractEnv)
        ensures
            env.wf(),
            env@.config is None,
            env@.policies == Map::<Seq<u8>, PolicyRecordView>::empty(),
            env@.oracle_sources == Map::<(InsuranceVertical, Seq<u8>), OracleSourceView>::empty(),
            env@.readings == Map::<(InsuranceVertical, Seq<u8>), i128>::empty(),
            env@.oracle_configs == Map::<InsuranceVertical, OracleConfig>::empty(),
            env@.balances == Map::<(Seq<u8>, Seq<u8>), i128>::empty(),
            env@.reserve == Map::<Seq<u8>, i128>::empty(),
            env@.sequence == 0,
            env@.events == Seq::<ContractEventView>::empty(),
            !env@.all_auths,
            env@.signers == Seq::<Seq<u8>>::empty(),
    {
        let env = ContractEnv {
            config: None,
            policies: Table::new(),
            oracle_sources: Table::new(),
            readings: Table::new(),
            oracle_configs: Table::new(),
            balances: Table::new(),
            reserve: Table::new(),
            sequence: 0,
            events: Vec::new(),
            all_auths: false,
            signers: Vec::new(),
        };
        assert(env@.events =~= Seq::<ContractEventView>::empty());
        assert(env@.signers =~= Seq::<Seq<u8>>::empty());
        env
    }

    /// A well-formed environment keeps every oracle source under its own
    /// vertical and address.
    pub proof fn lemma_sources_keyed_by_identity(&self)
        requires
            self.wf(),
        ensures
            self@.sources_keyed_by_identity(),
    {
    }

    /// Whether `address` has authorised the current invocation.
    pub fn is_authorized(&self, address: &Address) -> (r: bool)
        ensures
            r == self@.authorizes(address@),
    {
        if self.all_auths {
            return true;
        }
        let mut i: usize = 0;
        while i < self.signers.len()
            invariant
                i <= self.signers@.len(),
                forall|j: int| 0 <= j < i ==> (#[trigger] self.signers@[j])@ != address@,
            decreases self.signers@.len() - i,
        {
            if self.signers[i].same_as(address) {
                assert(self@.signers[i as int] == address@);
                return true;
            }
            i = i + 1;
        }
        assert forall|j: int| 0 <= j < self@.signers.len() implies self@.signers[j] != address@ by {
            assert(self@.signers[j] == self.signers@[j]@);
        }
        false
    }

    /// Set the balance of `holder` in the token `asset`.
    pub fn set_balance(&mut self, asset: Address, holder: Address, amount: i128)
        requires
            old(self).wf(),
        ensures
            final(self).wf(),
            final(self)@ == (EnvView {
                balances: old(self)@.balances.insert((asset@, holder@), amount),
                ..old(self)@
            }),
    {
        self.balances.insert((asset, holder), amount);
    }

    /// The balance of `holder` in the token `asset`.
    pub fn balance(&self, asset: &Address, holder: &Address) -> (r: i128)
        requires
            self.wf(),
        ensures
            r == self@.balance_of(asset@, holder@),
    {
        match self.balances.get(&(asset.duplicate(), holder.duplicate())) {
            Some(b) => b,
            None => 0,
        }
    }

    /// The reserve's holding of the token `asset`.
    pub fn reserve_balance(&self, asset: &Address) -> (r: i128)
        requires
            self.wf(),
        ensures
            r == self@.reserve_of(asset@),
    {
        match self.reserve.get(asset) {
            Some(b) => b,
            None => 0,
        }
    }

    /// Move `amount` of `asset` from `holder` into the reserve, if it can be
    /// moved; report whether it was.
    pub fn collect(&mut self, asset: &Address, holder: &Address, amount: i128) -> (r: bool)
        requires
            old(self).wf(),
        ensures
            final(self).wf(),
            r == old(self)@.can_collect(asset@, holder@, amount),
            final(self)@ == (if r {
                old(self)@.after_collect(asset@, holder@, amount)
            } else {
                old(self)@
            }),
    {
        let held = self.balance(asset, holder);
        let pooled = self.reserve_balance(asset);
        if amount < 0 || held < amount || pooled > i128::MAX - amount {
            return false;
        }
        self.balances.insert((asset.duplicate(), holder.duplicate()), held - amount);
        self.reserve.insert(asset.duplicate(), pooled + amount);
        true
    }

    /// The current ledger sequence number.
    pub fn ledger_sequence(&self) -> (s: u32)
        ensures
            s == self@.sequence,
    {
        self.sequence
    }

    /// Move the ledger to sequence number `sequence`.
    pub fn set_ledger_sequence(&mut self, sequence: u32)
        requires
            old(self).wf(),
        ensures
            final(self).wf(),
            final(self)@ == (EnvView { sequence, ..old(self)@ }),
    {
        self.sequence = sequence;
    }

    /// Treat every address as having authorised the invocation.
    pub fn mock_all_auths(&mut self)
        requires
            old(self).wf(),
        ensures
            final(self).wf(),
            final(self)@ == (EnvView { all_auths: true, ..old(self)@ }),
    {
        self.all_auths = true;
    }

    /// Record that `address` has authorised the invocation.
    pub fn authorize(&mut self, address: Address)
        requires
            old(self).wf(),
        ensures
            final(self).wf(),
            final(self)@ == (EnvView { signers: old(self)@.signers.push(address@), ..old(self)@ }),
    {
        self.signers.push(address);
        assert(self@.signers =~= old(self)@.signers.push(address@));
    }

    /// The events published so far, oldest first.
    pub fn events(&self) -> (r: &Vec<ContractEvent>)
        ensures
            r@.map_values(|e: ContractEvent| e@) == self@.events,
    {
        &self.events
    }

    /// Publish `event`.
    pub fn publish(&mut self, event: ContractEvent)
        requires
            old(self).wf(),
        ensures
            final(self).wf(),
            final(self)@ == (EnvView { events: old(self)@.events.push(event@), ..old(self)@ }),
    {
        self.events.push(event);
        assert(self@.events =~= old(self)@.events.push(event@));
    }
}

// ---------------------------------------------------------------------------
// Policy helpers
// ---------------------------------------------------------------------------

/// Store `record` under `id`.
pub fn save_policy(env: &mut ContractEnv, id: &PolicyId, record: &PolicyRecord)
    requires
        old(env).wf(),
    ensures
        final(env).wf(),
        final(env)@ == (EnvView {
            policies: old(env)@.policies.insert(id@, record@),
            ..old(env)@
        }),
{
    env.policies.insert(*id, record.duplicate());
}

/// The policy stored under `id`.
pub fn load_policy(env: &ContractEnv, id: &PolicyId) -> (r: Result<PolicyRecord, QuakeError>)
    requires
        env.wf(),
    ensures
        match r {
            Ok(record) => env@.policies.contains_key(id@) && record@ == env@.policies[id@],
            Err(e) => !env@.policies.contains_key(id@) && e == QuakeError::PolicyNotFound,
        },
{
    match env.policies.get(id) {
        Some(record) => Ok(record),
        None => Err(QuakeError::PolicyNotFound),
    }
}

/// Whether a policy is stored under `id`.
pub fn policy_exists(env: &ContractEnv, id: &PolicyId) -> (r: bool)
    requires
        env.wf(),
    ensures
        r == env@.policies.contains_key(id@),
{
    env.policies.contains(id)
}

/// Deterministic policy id from the key minting inputs and the current ledger
/// sequence.
pub fn derive_policy_id(
    env: &ContractEnv,
    policyholder: &Address,
    vertical: &InsuranceVertical,
    payout_amount: i128,
    due_ledger: u32,
) -> (id: PolicyId)
    ensures
        id@ == sha256_digest(
            policy_id_preimage(policyholder@, *vertical, payout_amount, due_ledger, env@.sequence),
        ),
{
    compute_policy_id(policyholder, *vertical, payout_amount, due_ledger, env.ledger_sequence())
}

// ---------------------------------------------------------------------------
// Oracle source helpers
// ---------------------------------------------------------------------------

/// Store `source` under its own vertical and address.
pub fn save_oracle_source(env: &mut ContractEnv, source: &OracleSource)
    requires
        old(env).wf(),
    ensures
        final(env).wf(),
        final(env)@ == (EnvView {
            oracle_sources: old(env)@.oracle_sources.insert(
                (source.vertical, source.address@),
                source@,
            ),
            ..old(env)@
        }),
{
    env.oracle_sources.insert((source.vertical, source.address.duplicate()), source.duplicate());
}

/// The source registered for `vertical` at `address`.
pub fn load_oracle_source(env: &ContractEnv, vertical: &InsuranceVertical, address: &Address) -> (r:
    Result<OracleSource, QuakeError>)
    requires
        env.wf(),
    ensures
        match r {
            Ok(source) => env@.oracle_sources.contains_key((*vertical, address@)) && source@
                == env@.oracle_sources[(*vertical, address@)],
            Err(e) => !env@.oracle_sources.contains_key((*vertical, address@)) && e
                == QuakeError::OracleNotRegistered,
        },
{
    match env.oracle_sources.get(&(*vertical, address.duplicate())) {
        Some(source) => Ok(source),
        None => Err(QuakeError::OracleNotRegistered),
    }
}

/// Whether a source is registered for `vertical` at `address`.
pub fn oracle_source_exists(env: &ContractEnv, vertical: &InsuranceVertical, address: &Address) -> (r:
    bool)
    requires
        env.wf(),
    ensures
        r == env@.oracle_sources.contains_key((*vertical, address@)),
{
    env.oracle_sources.contains(&(*vertical, address.duplicate()))
}

// ---------------------------------------------------------------------------
// Accepted oracle reading helpers
// ---------------------------------------------------------------------------

/// Record `value` as the accepted reading for `vertical` and `location_hash`.
pub fn save_accepted_reading(
    env: &mut ContractEnv,
    vertical: &InsuranceVertical,
    location_hash: &LocationHash,
    value: i128,
)
    requires
        old(env).wf(),
    ensures
        final(env).wf(),
        final(env)@ == (EnvView {
            readings: old(env)@.readings.insert((*vertical, location_hash@), value),
            ..old(env)@
        }),
{
    env.readings.insert((*vertical, *location_hash), value);
}

/// The accepted reading for `vertical` and `location_hash`, if any.
pub fn load_accepted_reading(
    env: &ContractEnv,
    vertical: &InsuranceVertical,
    location_hash: &LocationHash,
) -> (r: Option<i128>)
    requires
        env.wf(),
    ensures
        r == (if env@.readings.contains_key((*vertical, location_hash@)) {
            Some(env@.readings[(*vertical, location_hash@)])
        } else {
            None
        }),
{
    env.readings.get(&(*vertical, *location_hash))
}

// ---------------------------------------------------------------------------
// Oracle config helpers
// ---------------------------------------------------------------------------

/// Store `config` as the oracle configuration of `vertical`.
pub fn save_oracle_config(env: &mut ContractEnv, vertical: &InsuranceVertical, config: &OracleConfig)
    requires
        old(env).wf(),
    ensures
        final(env).wf(),
        final(env)@ == (EnvView {
            oracle_configs: old(env)@.oracle_configs.insert(*vertical, *config),
            ..old(env)@
        }),
{
    env.oracle_configs.insert(*vertical, *config);
}

/// The oracle configuration of `vertical`: the stored one, or the default
/// (3 sources, 10 % tolerance, 720 ledgers) when none was stored.
pub fn load_oracle_config(env: &ContractEnv, vertical: &InsuranceVertical) -> (r: OracleConfig)
    requires
        env.wf(),
    ensures
        r == env@.oracle_config_for(*vertical),
{
    match env.oracle_configs.get(vertical) {
        Some(c) => c,
        None => default_oracle_config(),
    }
}

// ---------------------------------------------------------------------------
// Contract config helpers
// ---------------------------------------------------------------------------

/// Store the contract configuration.
pub fn save_config(env: &mut ContractEnv, config: &ContractConfig)
    requires
        old(env).wf(),
    ensures
        final(env).wf(),
        final(env)@ == (EnvView { config: Some(config@), ..old(env)@ }),
{
    env.config = Some(config.duplicate());
}

/// The contract configuration; the contract must have been initialised.
pub fn load_config(env: &ContractEnv) -> (r: ContractConfig)
    requires
        env@.config is Some,
    ensures
        env@.config == Some(r@),
{
    env.config.as_ref().unwrap().duplicate()
}

/// Whether the contract has been initialised.
pub fn is_initialized(env: &ContractEnv) -> (r: bool)
    ensures
        r == env@.config is Some,
{
    env.config.is_some()
}

} // verus!
