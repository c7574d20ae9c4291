use vstd::prelude::*;

verus! {

/// Identifier of a policy: the SHA-256 digest of its minting inputs.
pub type PolicyId = [u8; 32];

/// Hash of the geographic location (or flight number) a policy covers.
pub type LocationHash = [u8; 32];

/// A Stellar address (account or contract), held as its XDR encoding.
///
/// Two addresses are the same address exactly when their encodings are equal.
#[derive(Debug, PartialEq, Eq)]
pub struct Address {
    xdr: Vec<u8>,
}

impl View for Address {
    type V = Seq<u8>;

    open spec fn view(&self) -> Seq<u8> {
        self.xdr_view()
    }
}

impl Address {
    pub closed spec fn xdr_view(&self) -> Seq<u8> {
        self.xdr@
    }

    /// The address whose XDR encoding is `xdr`.
    pub fn from_xdr(xdr: Vec<u8>) -> (a: Address)
        ensures
            a@ == xdr@,
    {
        Address { xdr }
    }

    /// The XDR encoding of this address.
    pub fn to_xdr(&self) -> (r: &Vec<u8>)
        ensures
            r@ == self@,
    {
        &self.xdr
    }

    /// Whether `self` and `other` are the same address.
    pub fn same_as(&self, other: &Address) -> (r: bool)
        ensures
            r == (self@ == other@),
    {
        let n = self.xdr.len();
        if n != other.xdr.len() {
            return false;
        }
        let mut i: usize = 0;
        while i < n
            invariant
                n == self.xdr@.len(),
                n == other.xdr@.len(),
                i <= n,
                forall|j: int| 0 <= j < i ==> self.xdr@[j] == other.xdr@[j],
            decreases n - i,
        {
            if self.xdr[i] != other.xdr[i] {
                return false;
            }
            i = i + 1;
        }
        assert(self.xdr@ =~= other.xdr@);
        true
    }

    /// A copy of this address.
    pub fn duplicate(&self) -> (r: Address)
        ensures
            r@ == self@,
    {
        let mut xdr: Vec<u8> = Vec::new();
        let mut i: usize = 0;
        while i < self.xdr.len()
            invariant
                i <= self.xdr@.len(),
                xdr@ =~= self.xdr@.take(i as int),
            decreases self.xdr@.len() - i,
        {
            xdr.push(self.xdr[i]);
            i = i + 1;
        }
        assert(xdr@ =~= self.xdr@);
        Address { xdr }
    }
}

/// The insurance line a policy or an oracle source belongs to.
#[derive(Clone, Copy, Debug, PartialEq, Eq, Structural)]
pub enum InsuranceVertical {
    CropRainfall,
    FlightDelay,
    WindDisaster,
    EarthquakeDisaster,
    FloodDisaster,
    HealthIndex,
}

/// The measured parameter a policy monitors.
#[derive(Clone, Copy, Debug, PartialEq, Eq, Structural)]
pub enum OracleParameter {
    /// Monthly or weekly rainfall in mm × 100.
    RainfallMm,
    /// Flight delay in minutes × 1.
    FlightDelayMinutes,
    /// Wind speed in km/h × 10.
    WindSpeedKmh,
    /// Earthquake magnitude in Richter × 10.
    EarthquakeMagnitude,
    /// Flood gauge level in cm × 10.
    FloodGaugeCm,
    /// Regional hospital admission rate index × 100.
    HealthIndex,
}

/// On which side of the threshold a reading fires the trigger.
#[derive(Clone, Copy, Debug, PartialEq, Eq, Structural)]
pub enum TriggerDirection {
    /// Payout when oracle value > threshold.
    Above,
    /// Payout when oracle value < threshold.
    Below,
}

/// What is monitored, at what threshold, and how long it must persist.
#[derive(Clone, Copy, Debug, PartialEq, Eq, Structural)]
pub struct TriggerConfig {
    pub parameter: OracleParameter,
    /// The threshold value (scaled integer).
    pub threshold: i128,
    pub direction: TriggerDirection,
    /// Number of consecutive confirming oracle updates required before a
    /// payout is finalised.
    pub confirmation_window: u32,
}

/// Lifecycle state of a policy.
#[derive(Clone, Copy, Debug, PartialEq, Eq, Structural)]
pub enum PolicyState {
    /// Coverage is active and premiums are streaming.
    Active,
    /// Trigger condition detected — awaiting confirmation window.
    TriggeredPending,
    /// Confirmation window complete — awaiting payout execution.
    ConfirmedPending,
    /// Payout has been executed to the policyholder.
    Paid { payout_ledger: u32 },
    /// Policy duration elapsed without a trigger.
    Expired,
    /// Policyholder cancelled.
    Cancelled,
    /// Premium stream ran dry — coverage lapsed.
    Lapsed,
}

/// Oracle consensus parameters of one insurance vertical.
#[derive(Clone, Copy, Debug, PartialEq, Eq, Structural)]
pub struct OracleConfig {
    /// Minimum number of sources that must agree for a reading to be accepted.
    pub required: u32,
    /// Maximum % variance between submitted values for consensus.
    pub tolerance_pct: u32,
    /// Ledgers after which a submitted reading is considered stale.
    pub staleness_ttl: u32,
}

/// A stored insurance policy.
#[derive(Debug, PartialEq, Eq)]
pub struct PolicyRecord {
    /// Wallet that owns and pays premiums for this policy.
    pub policyholder: Address,
    pub vertical: InsuranceVertical,
    /// Asset used for paying out claims.
    pub coverage_asset: Address,
    /// Full payout amount on a confirmed trigger (7-decimal precision).
    pub payout_amount: i128,
    /// Asset the policyholder pays premiums in.
    pub premium_asset: Address,
    /// Premium deducted per ledger (7-decimal precision).
    pub premium_rate: i128,
    /// Ledger at which coverage begins.
    pub start_ledger: u32,
    /// Ledger at which coverage expires without a trigger.
    pub end_ledger: u32,
    pub trigger_config: TriggerConfig,
    /// Hash of the location used to match oracle readings to this policy.
    pub location_hash: LocationHash,
    pub state: PolicyState,
    /// Ledger at which the trigger condition was first detected.
    pub trigger_ledger: Option<u32>,
    /// How many consecutive oracle updates have confirmed the trigger.
    pub confirmation_count: u32,
    /// How many premium deductions in a row have failed for lack of balance.
    pub missed_premiums: u32,
}

/// Mathematical value of a [`PolicyRecord`].
pub struct PolicyRecordView {
    pub policyholder: Seq<u8>,
    pub vertical: InsuranceVertical,
    pub coverage_asset: Seq<u8>,
    pub payout_amount: i128,
    pub premium_asset: Seq<u8>,
    pub premium_rate: i128,
    pub start_ledger: u32,
    pub end_ledger: u32,
    pub trigger_config: TriggerConfig,
    pub location_hash: Seq<u8>,
    pub state: PolicyState,
    pub trigger_ledger: Option<u32>,
    pub confirmation_count: u32,
    pub missed_premiums: u32,
}

impl View for PolicyRecord {
    type V = PolicyRecordView;

    open spec fn view(&self) -> PolicyRecordView {
        PolicyRecordView {
            policyholder: self.policyholder@,
            vertical: self.vertical,
            coverage_asset: self.coverage_asset@,
            payout_amount: self.payout_amount,
            premium_asset: self.premium_asset@,
            premium_rate: self.premium_rate,
            start_ledger: self.start_ledger,
            end_ledger: self.end_ledger,
            trigger_config: self.trigger_config,
            location_hash: self.location_hash@,
            state: self.state,
            trigger_ledger: self.trigger_ledger,
            confirmation_count: self.confirmation_count,
            missed_premiums: self.missed_premiums,
        }
    }
}

impl PolicyRecord {
    /// A copy of this record.
    pub fn duplicate(&self) -> (r: PolicyRecord)
        ensures
            r@ == self@,
    {
        PolicyRecord {
            policyholder: self.policyholder.duplicate(),
            vertical: self.vertical,
            coverage_asset: self.coverage_asset.duplicate(),
            payout_amount: self.payout_amount,
            premium_asset: self.premium_asset.duplicate(),
            premium_rate: self.premium_rate,
            start_ledger: self.start_ledger,
            end_ledger: self.end_ledger,
            trigger_config: self.trigger_config,
            location_hash: self.location_hash,
            state: self.state,
            trigger_ledger: self.trigger_ledger,
            confirmation_count: self.confirmation_count,
            missed_premiums: self.missed_premiums,
        }
    }
}

/// A registered oracle reporter for one vertical.
#[derive(Debug, PartialEq, Eq)]
pub struct OracleSource {
    /// Stellar address of the oracle reporter.
    pub address: Address,
    /// Which vertical this source covers.
    pub vertical: InsuranceVertical,
    /// Reliability score 0–100.
    pub reliability_score: u32,
    /// Ledger of the most recent submission from this source.
    pub last_submission_ledger: u32,
}

/// Mathematical value of an [`OracleSource`].
pub struct OracleSourceView {
    pub address: Seq<u8>,
    pub vertical: InsuranceVertical,
    pub reliability_score: u32,
    pub last_submission_ledger: u32,
}

impl View for OracleSource {
    type V = OracleSourceView;

    open spec fn view(&self) -> OracleSourceView {
        OracleSourceView {
            address: self.address@,
            vertical: self.vertical,
            reliability_score: self.reliability_score,
            last_submission_ledger: self.last_submission_ledger,
        }
    }
}

impl OracleSource {
    /// A copy of this source record.
    pub fn duplicate(&self) -> (r: OracleSource)
        ensures
            r@ == self@,
    {
        OracleSource {
            address: self.address.duplicate(),
            vertical: self.vertical,
            reliability_score: self.reliability_score,
            last_submission_ledger: self.last_submission_ledger,
        }
    }
}

/// Contract-level configuration, written once by `initialize`.
#[derive(Debug, PartialEq, Eq)]
pub struct ContractConfig {
    pub admin: Address,
    /// Minimum oracle reliability score to participate in consensus.
    pub min_reliability_score: u32,
    /// Default confirmation window if not specified per-policy.
    pub default_confirmation_window: u32,
    /// Minimum reserve pool solvency ratio (basis points).
    pub min_solvency_ratio_bps: u32,
}

/// Mathematical value of a [`ContractConfig`].
pub struct ContractConfigView {
    pub admin: Seq<u8>,
    pub min_reliability_score: u32,
    pub default_confirmation_window: u32,
    pub min_solvency_ratio_bps: u32,
}

impl View for ContractConfig {
    type V = ContractConfigView;

    open spec fn view(&self) -> ContractConfigView {
        ContractConfigView {
            admin: self.admin@,
            min_reliability_score: self.min_reliability_score,
            default_confirmation_window: self.default_confirmation_window,
            min_solvency_ratio_bps: self.min_solvency_ratio_bps,
        }
    }
}

impl ContractConfig {
    /// A copy of this configuration.
    pub fn duplicate(&self) -> (r: ContractConfig)
        ensures
            r@ == self@,
    {
        ContractConfig {
            admin: self.admin.duplicate(),
            min_reliability_score: self.min_reliability_score,
            default_confirmation_window: self.default_confirmation_window,
            min_solvency_ratio_bps: self.min_solvency_ratio_bps,
        }
    }
}

/// The rainfall trigger used for crop policies: fires when rainfall drops
/// below 50.00 mm, confirmed over `confirmation_window` oracle updates.
pub fn crop_trigger(confirmation_window: u32) -> (t: TriggerConfig)
    ensures
        t == (TriggerConfig {
            parameter: OracleParameter::RainfallMm,
            threshold: 5000,
            direction: TriggerDirection::Below,
            confirmation_window,
        }),
{
    TriggerConfig {
        parameter: OracleParameter::RainfallMm,
        threshold: 5000,
        direction: TriggerDirection::Below,
        confirmation_window,
    }
}

} // verus!

verus! {

pub const EVENT_POLICY_CREATED: &'static str = "PolicyCreated";
pub const EVENT_POLICY_TRIGGERED: &'static str = "PolicyTriggered";
pub const EVENT_POLICY_CONFIRMED: &'static str = "PolicyConfirmed";
pub const EVENT_POLICY_PAID: &'static str = "PolicyPaid";
pub const EVENT_POLICY_CANCELLED: &'static str = "PolicyCancelled";
pub const EVENT_POLICY_EXPIRED: &'static str = "PolicyExpired";
pub const EVENT_POLICY_LAPSED: &'static str = "PolicyLapsed";
pub const EVENT_ORACLE_SUBMITTED: &'static str = "OracleReadingSubmitted";
pub const EVENT_ORACLE_CONSENSUS: &'static str = "OracleConsensusReached";
pub const EVENT_ORACLE_FAILED: &'static str = "OracleConsensusFailed";
pub const EVENT_PREMIUM_DEDUCTED: &'static str = "PremiumDeducted";

} // verus!
