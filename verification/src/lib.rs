//! Quake: parametric microinsurance contract logic.
//!
//! The crate holds the decisions of the Quake insurance contract (policy
//! lifecycle, oracle registry and readings, trigger evaluation) together with
//! a model of the contract's environment (storage, ledger sequence, events,
//! authorisation) on which the contract's entry points are specified.
pub mod errors;
pub mod types;
pub mod table;
pub mod encoding;
pub mod logic;
pub mod events;
pub mod storage;
pub mod contract;
pub mod laws;
