// Settlement engine for parametric insurance.
//
// - `oracle`: registry, reading validation, health metrics and circuit breaker of data feeds.
// - `consensus`: aggregation of oracle readings with staleness and two-sigma outlier filtering.
// - `policy`: policy issuance and premium payments.
// - `payout`: trigger evaluation, payout amounts and the payout queue's state machine.
// - `treasury`: per-asset balances, reserve ratio and solvency rules.
// - `admin`: the master contract record, pausing, authority and reserve-ratio administration.
// - `events`: the records each operation hands to the audit log.
// - `bytes`, `text`: little-endian integer encoding and decimal identifiers.
//
// Operations take the entities they touch by reference, together with the already
// authenticated caller and the current time; a refused operation changes nothing, except
// that a rejected oracle reading is counted against the oracle's health.

pub mod admin;
pub mod bytes;
pub mod consensus;
pub mod constants;
pub mod error;
pub mod events;
pub mod oracle;
pub mod payout;
pub mod policy;
pub mod pubkey;
pub mod text;
pub mod treasury;
