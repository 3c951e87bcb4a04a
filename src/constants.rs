use vstd::prelude::*;

verus! {

/// Largest number of oracles a registry may hold.
pub const MAX_ORACLES: u8 = 10;

/// Oldest a submitted reading may be, in seconds (five minutes).
pub const ORACLE_UPDATE_INTERVAL: i64 = 300;

/// Oldest a reading may be to take part in a consensus, in seconds (ten minutes).
pub const CONSENSUS_MAX_AGE: i64 = 600;

/// Largest accepted change between two consecutive readings of one oracle, in percent.
pub const MAX_READING_CHANGE_PERCENT: u8 = 50;

/// Failed validations after which an oracle's circuit breaker trips.
pub const CIRCUIT_BREAKER_THRESHOLD: u32 = 5;

/// Smallest premium a policy may charge.
pub const MIN_PREMIUM_AMOUNT: u64 = 1_000_000;

/// Largest coverage a policy may grant.
pub const MAX_COVERAGE_AMOUNT: u64 = 1_000_000_000_000;

/// Lifetime of a pending payout, in seconds (24 hours).
pub const PAYOUT_EXPIRY_SECONDS: i64 = 86400;

} // verus!
