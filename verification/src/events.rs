use vstd::prelude::*;

use crate::types::{
    Address, InsuranceVertical, LocationHash, PolicyId, EVENT_ORACLE_SUBMITTED,
    EVENT_POLICY_CANCELLED, EVENT_POLICY_CREATED, EVENT_POLICY_LAPSED, EVENT_PREMIUM_DEDUCTED,
};

verus! {

/// An event published by the contract.
#[derive(Debug, PartialEq, Eq)]
pub enum ContractEvent {
    /// A registered oracle submitted `value` for a vertical and location.
    OracleReadingSubmitted {
        oracle: Address,
        vertical: InsuranceVertical,
        location_hash: LocationHash,
        value: i128,
    },
    /// A policy was created.
    PolicyCreated {
        policy_id: PolicyId,
        policyholder: Address,
        vertical: InsuranceVertical,
        payout_amount: i128,
    },
    /// A policy was cancelled by its holder.
    PolicyCancelled { policy_id: PolicyId, policyholder: Address },
    /// A premium deduction was made for a policy.
    PremiumDeducted { policy_id: PolicyId, premium_rate: i128 },
    /// A policy lapsed because its premiums could not be collected.
    PolicyLapsed { policy_id: PolicyId },
}

/// Mathematical value of a [`ContractEvent`].
pub enum ContractEventView {
    OracleReadingSubmitted {
        oracle: Seq<u8>,
        vertical: InsuranceVertical,
        location_hash: Seq<u8>,
        value: i128,
    },
    PolicyCreated {
        policy_id: Seq<u8>,
        policyholder: Seq<u8>,
        vertical: InsuranceVertical,
        payout_amount: i128,
    },
    PolicyCancelled { policy_id: Seq<u8>, policyholder: Seq<u8> },
    PremiumDeducted { policy_id: Seq<u8>, premium_rate: i128 },
    PolicyLapsed { policy_id: Seq<u8> },
}

impl View for ContractEvent {
    type V = ContractEventView;

    open spec fn view(&self) -> ContractEventView {
        match self {
            ContractEvent::OracleReadingSubmitted { oracle, vertical, location_hash, value } =>
                ContractEventView::OracleReadingSubmitted {
                oracle: oracle@,
                vertical: *vertical,
                location_hash: location_hash@,
                value: *value,
            },
            ContractEvent::PolicyCreated { policy_id, policyholder, vertical, payout_amount } =>
                ContractEventView::PolicyCreated {
                policy_id: policy_id@,
                policyholder: policyholder@,
                vertical: *vertical,
                payout_amount: *payout_amount,
            },
            ContractEvent::PolicyCancelled { policy_id, policyholder } =>
                ContractEventView::PolicyCancelled {
                policy_id: policy_id@,
                policyholder: policyholder@,
            },
            ContractEvent::PremiumDeducted { policy_id, premium_rate } =>
                ContractEventView::PremiumDeducted {
                policy_id: policy_id@,
                premium_rate: *premium_rate,
            },
            ContractEvent::PolicyLapsed { policy_id } => ContractEventView::PolicyLapsed {
                policy_id: policy_id@,
            },
        }
    }
}

impl ContractEvent {
    /// The topic under which the event is published.
    pub fn topic(&self) -> (t: &'static str)
        ensures
            t@ == (match self@ {
                ContractEventView::OracleReadingSubmitted { .. } => EVENT_ORACLE_SUBMITTED@,
                ContractEventView::PolicyCreated { .. } => EVENT_POLICY_CREATED@,
                ContractEventView::PolicyCancelled { .. } => EVENT_POLICY_CANCELLED@,
                ContractEventView::PremiumDeducted { .. } => EVENT_PREMIUM_DEDUCTED@,
                ContractEventView::PolicyLapsed { .. } => EVENT_POLICY_LAPSED@,
            }),
    {
        match self {
            ContractEvent::OracleReadingSubmitted { .. } => EVENT_ORACLE_SUBMITTED,
            ContractEvent::PolicyCreated { .. } => EVENT_POLICY_CREATED,
            ContractEvent::PolicyCancelled { .. } => EVENT_POLICY_CANCELLED,
            ContractEvent::PremiumDeducted { .. } => EVENT_PREMIUM_DEDUCTED,
            ContractEvent::PolicyLapsed { .. } => EVENT_POLICY_LAPSED,
        }
    }
}

} // verus!
