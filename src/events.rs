use vstd::prelude::*;

use crate::pubkey::Pubkey;

verus! {

/// The master contract was set up.
#[derive(Debug, Clone, Copy, PartialEq, Eq)]
pub struct MasterContractInitialized {
    pub admin: Pubkey,
    pub treasury_mint: Pubkey,
    pub reserve_ratio: u64,
    pub timestamp: i64,
}

/// A policy was issued.
#[derive(Debug, Clone, PartialEq, Eq)]
pub struct PolicyCreated {
    pub policy_id: String,
    pub owner: Pubkey,
    pub insurance_type: u8,
    pub coverage_amount: u64,
    pub premium_amount: u64,
    pub expiry_timestamp: i64,
}

/// A premium was paid on a policy.
#[derive(Debug, Clone, PartialEq, Eq)]
pub struct PremiumPaid {
    pub policy_id: String,
    pub payer: Pubkey,
    pub amount: u64,
    pub timestamp: i64,
}

/// A claim was admitted to the payout queue.
#[derive(Debug, Clone, PartialEq, Eq)]
pub struct PayoutTriggered {
    pub policy_id: String,
    pub beneficiary: Pubkey,
    pub amount: u64,
    pub oracle_value: u64,
    pub timestamp: i64,
}

/// An admin approved a queued payout.
#[derive(Debug, Clone, PartialEq, Eq)]
pub struct PayoutApproved {
    pub policy_id: String,
    pub admin: Pubkey,
    pub amount: u64,
    pub timestamp: i64,
}

/// A queued payout was settled; the caller moves `amount` to `beneficiary`.
#[derive(Debug, Clone, PartialEq, Eq)]
pub struct PayoutExecuted {
    pub policy_id: String,
    pub beneficiary: Pubkey,
    pub amount: u64,
    pub timestamp: i64,
}

/// An oracle stored a new reading.
#[derive(Debug, Clone, PartialEq, Eq)]
pub struct OracleDataUpdated {
    pub oracle: Pubkey,
    pub data_type: String,
    pub value: u64,
    pub timestamp: i64,
}

/// An admin overwrote an oracle's reading; `reason` must be kept in the audit log.
#[derive(Debug, Clone, PartialEq, Eq)]
pub struct OracleOverridden {
    pub oracle_id: String,
    pub admin: Pubkey,
    pub value: u64,
    pub reason: String,
    pub timestamp: i64,
}

/// The contract was paused.
#[derive(Debug, Clone, Copy, PartialEq, Eq)]
pub struct ContractPaused {
    pub admin: Pubkey,
    pub timestamp: i64,
}

/// The contract was resumed.
#[derive(Debug, Clone, Copy, PartialEq, Eq)]
pub struct ContractResumed {
    pub admin: Pubkey,
    pub timestamp: i64,
}

/// The minimum reserve ratio was changed.
#[derive(Debug, Clone, Copy, PartialEq, Eq)]
pub struct ReserveRatioUpdated {
    pub admin: Pubkey,
    pub old_ratio: u64,
    pub new_ratio: u64,
    pub timestamp: i64,
}

/// Funds left the treasury on an admin's request.
#[derive(Debug, Clone, Copy, PartialEq, Eq)]
pub struct TreasuryWithdrawn {
    pub admin: Pubkey,
    pub amount: u64,
    pub timestamp: i64,
}

} // verus!
