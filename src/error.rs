use vstd::prelude::*;

verus! {

/// Every failure an operation of this library can report.
#[derive(Debug, Clone, Copy, PartialEq, Eq, Structural)]
pub enum InsuranceError {
    // Core contract
    ContractPaused,
    Unauthorized,
    InvalidParameters,
    MathOverflow,
    // Policy management
    InsufficientPremium,
    PolicyExpired,
    PolicyNotActive,
    PolicyAlreadyExists,
    PolicyNotFound,
    CoverageExceedsMaximum,
    InvalidInsuranceType,
    // Oracle data
    InvalidOracleData,
    OracleDataStale,
    InsufficientOracles,
    OracleSignatureInvalid,
    OracleConsensusFailure,
    OracleNotRegistered,
    OracleInactive,
    OracleDataTooOld,
    MaxOraclesExceeded,
    OracleAlreadyRegistered,
    InvalidInput,
    // Financial operations
    InsufficientTreasury,
    InsufficientReserves,
    ReserveRatioBelowMinimum,
    SolvencyCheckFailed,
    TreasuryOperationFailed,
    ReserveRatioViolation,
    InvalidPremiumAmount,
    // Payouts and claims
    PayoutConditionsNotMet,
    ClaimAlreadyProcessed,
    ClaimPeriodExpired,
    InvalidClaimAmount,
    // Administration
    WithdrawalDelayNotMet,
    ContractMustBePaused,
    ContractMustBeActive,
    InvalidAdminOperation,
}

/// The broad class of a failure.
#[derive(Debug, Clone, Copy, PartialEq, Eq, Structural)]
pub enum ErrorKind {
    /// Malformed or out-of-range input.
    Validation,
    /// The caller lacks the required authority.
    Authorization,
    /// The operation does not fit the entity's lifecycle state.
    State,
    /// Reading or consensus data too old.
    Staleness,
    /// Not enough healthy or agreeing oracle data.
    Consensus,
    /// A balance, reserve-ratio or liquidity rule would be broken.
    Solvency,
    /// An arithmetic bound was exceeded.
    Overflow,
}

/// The class each failure belongs to.
pub open spec fn error_kind(e: InsuranceError) -> ErrorKind {
    match e {
        InsuranceError::Unauthorized => ErrorKind::Authorization,
        InsuranceError::ContractPaused | InsuranceError::PolicyExpired
        | InsuranceError::PolicyNotActive | InsuranceError::PolicyAlreadyExists
        | InsuranceError::PolicyNotFound | InsuranceError::OracleNotRegistered
        | InsuranceError::OracleInactive | InsuranceError::MaxOraclesExceeded
        | InsuranceError::OracleAlreadyRegistered | InsuranceError::PayoutConditionsNotMet
        | InsuranceError::ClaimAlreadyProcessed | InsuranceError::ClaimPeriodExpired
        | InsuranceError::WithdrawalDelayNotMet | InsuranceError::ContractMustBePaused
        | InsuranceError::ContractMustBeActive
        | InsuranceError::InvalidAdminOperation => ErrorKind::State,
        InsuranceError::OracleDataStale | InsuranceError::OracleDataTooOld => ErrorKind::Staleness,
        InsuranceError::InsufficientOracles
        | InsuranceError::OracleConsensusFailure => ErrorKind::Consensus,
        InsuranceError::InsufficientTreasury | InsuranceError::InsufficientReserves
        | InsuranceError::ReserveRatioBelowMinimum | InsuranceError::SolvencyCheckFailed
        | InsuranceError::TreasuryOperationFailed
        | InsuranceError::ReserveRatioViolation => ErrorKind::Solvency,
        InsuranceError::MathOverflow => ErrorKind::Overflow,
        _ => ErrorKind::Validation,
    }
}

impl InsuranceError {
    /// The class of this failure (see `error_kind`).
    pub fn kind(&self) -> (r: ErrorKind)
        ensures
            r == error_kind(*self),
    {
        match self {
            InsuranceError::Unauthorized => ErrorKind::Authorization,
            InsuranceError::ContractPaused | InsuranceError::PolicyExpired
            | InsuranceError::PolicyNotActive | InsuranceError::PolicyAlreadyExists
            | InsuranceError::PolicyNotFound | InsuranceError::OracleNotRegistered
            | InsuranceError::OracleInactive | InsuranceError::MaxOraclesExceeded
            | InsuranceError::OracleAlreadyRegistered | InsuranceError::PayoutConditionsNotMet
            | InsuranceError::ClaimAlreadyProcessed | InsuranceError::ClaimPeriodExpired
            | InsuranceError::WithdrawalDelayNotMet | InsuranceError::ContractMustBePaused
            | InsuranceError::ContractMustBeActive
            | InsuranceError::InvalidAdminOperation => ErrorKind::State,
            InsuranceError::OracleDataStale
            | InsuranceError::OracleDataTooOld => ErrorKind::Staleness,
            InsuranceError::InsufficientOracles
            | InsuranceError::OracleConsensusFailure => ErrorKind::Consensus,
            InsuranceError::InsufficientTreasury | InsuranceError::InsufficientReserves
            | InsuranceError::ReserveRatioBelowMinimum | InsuranceError::SolvencyCheckFailed
            | InsuranceError::TreasuryOperationFailed
            | InsuranceError::ReserveRatioViolation => ErrorKind::Solvency,
            InsuranceError::MathOverflow => ErrorKind::Overflow,
            _ => ErrorKind::Validation,
        }
    }
}

} // verus!
