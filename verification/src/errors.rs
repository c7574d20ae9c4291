use vstd::prelude::*;

verus! {

/// Errors returned by the Quake contract entry points.
#[derive(Clone, Copy, Debug, PartialEq, Eq, Structural)]
pub enum QuakeError {
    PolicyNotFound,
    PolicyExpired,
    PolicyLapsed,
    PolicyAlreadyPaid,
    PolicyNotTriggered,
    InsufficientReserve,
    OracleNotRegistered,
    OracleReadingStale,
    OracleConsensusFailed,
    OracleAttestationInvalid,
    ConfirmationWindowActive,
    Unauthorised,
    InvalidTriggerConfig,
    ReserveUndercollateralised,
    StakeLockedUp,
    AlreadyInitialized,
    InvalidConfig,
    InvalidPremiumRate,
    InvalidPayoutAmount,
    PolicyNotActive,
}

impl QuakeError {
    /// The numeric error code under which the contract reports this error.
    pub open spec fn spec_code(self) -> u32 {
        match self {
            QuakeError::PolicyNotFound => 1,
            QuakeError::PolicyExpired => 2,
            QuakeError::PolicyLapsed => 3,
            QuakeError::PolicyAlreadyPaid => 4,
            QuakeError::PolicyNotTriggered => 5,
            QuakeError::InsufficientReserve => 6,
            QuakeError::OracleNotRegistered => 7,
            QuakeError::OracleReadingStale => 8,
            QuakeError::OracleConsensusFailed => 9,
            QuakeError::OracleAttestationInvalid => 10,
            QuakeError::ConfirmationWindowActive => 11,
            QuakeError::Unauthorised => 12,
            QuakeError::InvalidTriggerConfig => 13,
            QuakeError::ReserveUndercollateralised => 14,
            QuakeError::StakeLockedUp => 15,
            QuakeError::AlreadyInitialized => 16,
            QuakeError::InvalidConfig => 17,
            QuakeError::InvalidPremiumRate => 18,
            QuakeError::InvalidPayoutAmount => 19,
            QuakeError::PolicyNotActive => 20,
        }
    }

    /// The numeric error code under which the contract reports this error.
    pub fn code(&self) -> (c: u32)
        ensures
            c == self.spec_code(),
    {
        match self {
            QuakeError::PolicyNotFound => 1,
            QuakeError::PolicyExpired => 2,
            QuakeError::PolicyLapsed => 3,
            QuakeError::PolicyAlreadyPaid => 4,
            QuakeError::PolicyNotTriggered => 5,
            QuakeError::InsufficientReserve => 6,
            QuakeError::OracleNotRegistered => 7,
            QuakeError::OracleReadingStale => 8,
            QuakeError::OracleConsensusFailed => 9,
            QuakeError::OracleAttestationInvalid => 10,
            QuakeError::ConfirmationWindowActive => 11,
            QuakeError::Unauthorised => 12,
            QuakeError::InvalidTriggerConfig => 13,
            QuakeError::ReserveUndercollateralised => 14,
            QuakeError::StakeLockedUp => 15,
            QuakeError::AlreadyInitialized => 16,
            QuakeError::InvalidConfig => 17,
            QuakeError::InvalidPremiumRate => 18,
            QuakeError::InvalidPayoutAmount => 19,
            QuakeError::PolicyNotActive => 20,
        }
    }
}

} // verus!
