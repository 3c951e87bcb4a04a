use vstd::prelude::*;

use crate::admin::MasterInsuranceContract;
use crate::bytes::{le_bytes, le_value, push_u64_le, read_u32_le, read_u64_le};
use crate::constants::{CIRCUIT_BREAKER_THRESHOLD, MAX_READING_CHANGE_PERCENT, ORACLE_UPDATE_INTERVAL};
use crate::error::InsuranceError;
use crate::events::OracleOverridden;
use crate::pubkey::Pubkey;

verus! {

/// The kinds of oracle feed; only `Pyth` can be registered.
#[derive(Clone, Copy, Debug, PartialEq, Eq, Structural)]
pub enum OracleType {
    Chainlink,
    Pyth,
}

/// One reading submitted by an oracle.
#[derive(Clone, Copy, Debug)]
pub struct OracleData {
    /// The measured value.
    pub value: u64,
    /// When the value was measured.
    pub timestamp: i64,
    /// Confidence of the measurement; must be positive.
    pub confidence: u64,
    /// Signature material over the reading.
    pub signature: [u8; 64],
    /// Strictly increasing per oracle, against replays.
    pub nonce: u64,
}

/// Rolling health indicators of one oracle.
#[derive(Clone, Copy, Debug, PartialEq, Eq, Structural)]
pub struct OracleHealthMetrics {
    /// Successful updates since the last daily reset.
    pub updates_24h: u32,
    /// Accuracy score, 0 to 100.
    pub accuracy_score: u8,
    /// When the metrics last changed.
    pub last_health_check: i64,
    /// Failed validations since the last reset.
    pub failed_validations: u32,
    /// Set once failures accumulate; blocks further readings until reset.
    pub circuit_breaker_active: bool,
}

/// A registered oracle: identity, health and latest reading.
#[derive(Debug, Clone)]
pub struct Oracle {
    pub oracle_id: String,
    /// The address allowed to submit readings.
    pub authority: Pubkey,
    pub oracle_type: OracleType,
    pub is_active: bool,
    pub last_update_timestamp: i64,
    pub data_feed_address: String,
    pub latest_data: Option<OracleData>,
    /// Reputation score, 0 to 100.
    pub reputation_score: u8,
    pub update_count: u64,
    pub health_metrics: OracleHealthMetrics,
}

impl Oracle {
    pub const MAX_ORACLE_ID_LENGTH: usize = 32;

    pub const MAX_DATA_FEED_ADDRESS_LENGTH: usize = 64;

    /// Scores stay within 0..=100.
    pub open spec fn wf(&self) -> bool {
        &&& self.reputation_score <= 100
        &&& self.health_metrics.accuracy_score <= 100
    }
}

pub open spec fn sat_add_u32(a: u32, b: u32) -> u32 {
    if a + b > u32::MAX {
        u32::MAX
    } else {
        (a + b) as u32
    }
}

pub open spec fn sat_sub_u8(a: u8, b: u8) -> u8 {
    if a < b {
        0
    } else {
        (a - b) as u8
    }
}

pub open spec fn min_u8(a: int, b: int) -> u8 {
    (if a < b {
        a
    } else {
        b
    }) as u8
}

/// Metrics after a successful update at `now`: one more update, accuracy up by one (at most 100).
pub open spec fn health_after_success(h: OracleHealthMetrics, now: i64) -> OracleHealthMetrics {
    OracleHealthMetrics {
        updates_24h: sat_add_u32(h.updates_24h, 1),
        last_health_check: now,
        accuracy_score: if h.accuracy_score < 100 {
            min_u8(100, h.accuracy_score + 1)
        } else {
            h.accuracy_score
        },
        ..h
    }
}

/// Metrics after a failed validation at `now`: one more failure, accuracy down by five (at least
/// 0), and the circuit breaker set once failures reach the threshold.
pub open spec fn health_after_failure(h: OracleHealthMetrics, now: i64) -> OracleHealthMetrics {
    let failed = sat_add_u32(h.failed_validations, 1);
    OracleHealthMetrics {
        failed_validations: failed,
        last_health_check: now,
        accuracy_score: sat_sub_u8(h.accuracy_score, 5),
        circuit_breaker_active: h.circuit_breaker_active || failed >= CIRCUIT_BREAKER_THRESHOLD,
        ..h
    }
}

/// Metrics after the daily reset at `now`: the daily counter restarts, and an accurate oracle
/// (accuracy above 80) has its failures forgiven and its circuit breaker cleared.
pub open spec fn health_after_daily_reset(h: OracleHealthMetrics, now: i64) -> OracleHealthMetrics {
    if h.accuracy_score > 80 {
        OracleHealthMetrics {
            updates_24h: 0,
            last_health_check: now,
            failed_validations: 0,
            circuit_breaker_active: false,
            ..h
        }
    } else {
        OracleHealthMetrics { updates_24h: 0, last_health_check: now, ..h }
    }
}

impl OracleHealthMetrics {
    /// Fresh metrics: perfect accuracy, no failures, breaker off.
    pub fn new() -> (r: Self)
        ensures
            r == (OracleHealthMetrics {
                updates_24h: 0,
                accuracy_score: 100,
                last_health_check: 0,
                failed_validations: 0,
                circuit_breaker_active: false,
            }),
    {
        OracleHealthMetrics {
            updates_24h: 0,
            accuracy_score: 100,
            last_health_check: 0,
            failed_validations: 0,
            circuit_breaker_active: false,
        }
    }

    /// Records a successful update at `current_timestamp`.
    pub fn record_successful_update(&mut self, current_timestamp: i64)
        ensures
            *final(self) == health_after_success(*old(self), current_timestamp),
    {
        self.updates_24h = self.updates_24h.saturating_add(1);
        self.last_health_check = current_timestamp;
        if self.accuracy_score < 100 {
            self.accuracy_score = self.accuracy_score + 1;
        }
    }

    /// Records a failed validation at `current_timestamp`.
    pub fn record_failed_validation(&mut self, current_timestamp: i64)
        ensures
            *final(self) == health_after_failure(*old(self), current_timestamp),
    {
        self.failed_validations = self.failed_validations.saturating_add(1);
        self.last_health_check = current_timestamp;
        if self.accuracy_score > 0 {
            self.accuracy_score = self.accuracy_score.saturating_sub(5);
        }
        if self.failed_validations >= CIRCUIT_BREAKER_THRESHOLD {
            self.circuit_breaker_active = true;
        }
    }

    /// Daily reset at `current_timestamp`.
    pub fn reset_daily_metrics(&mut self, current_timestamp: i64)
        ensures
            *final(self) == health_after_daily_reset(*old(self), current_timestamp),
    {
        self.updates_24h = 0;
        self.last_health_check = current_timestamp;
        if self.accuracy_score > 80 {
            self.failed_validations = 0;
            self.circuit_breaker_active = false;
        }
    }
}

/// Change from `old_value` to `new_value` in whole percent, capped at 100; 100 when `old_value`
/// is 0.
pub open spec fn percentage_change(old_value: u64, new_value: u64) -> int {
    if old_value == 0 {
        100
    } else {
        let diff = if new_value > old_value {
            new_value - old_value
        } else {
            old_value - new_value
        };
        let p = diff * 100 / (old_value as int);
        if p > 100 {
            100
        } else {
            p
        }
    }
}

/// The signature material is not all zero bytes.
pub open spec fn signature_present(sig: [u8; 64]) -> bool {
    exists|i: int| 0 <= i < 64 && #[trigger] sig@[i] != 0
}

/// The first check that a new reading `d` fails at time `now`, in order: circuit breaker, swing
/// against the previous value, confidence, signature material, age, nonce. `None` if it passes.
pub open spec fn reading_failure(o: Oracle, d: OracleData, now: i64) -> Option<InsuranceError> {
    if o.health_metrics.circuit_breaker_active {
        Some(InsuranceError::OracleConsensusFailure)
    } else if o.latest_data is Some && percentage_change(o.latest_data->Some_0.value, d.value)
        > MAX_READING_CHANGE_PERCENT {
        Some(InsuranceError::InvalidOracleData)
    } else if d.confidence == 0 {
        Some(InsuranceError::InvalidOracleData)
    } else if !signature_present(d.signature) {
        Some(InsuranceError::OracleSignatureInvalid)
    } else if now - d.timestamp > ORACLE_UPDATE_INTERVAL {
        Some(InsuranceError::OracleDataTooOld)
    } else if o.latest_data is Some && d.nonce <= o.latest_data->Some_0.nonce {
        Some(InsuranceError::InvalidOracleData)
    } else {
        None
    }
}

/// The oracle after a failed validation at `now`: reputation down by three (at least 0) and
/// the failure recorded in its health metrics.
pub open spec fn oracle_after_failure(o: Oracle, now: i64) -> Oracle {
    Oracle {
        reputation_score: sat_sub_u8(o.reputation_score, 3),
        health_metrics: health_after_failure(o.health_metrics, now),
        ..o
    }
}

/// The oracle after accepting reading `d` at `now`.
pub open spec fn oracle_after_reading(o: Oracle, d: OracleData, now: i64) -> Oracle {
    Oracle {
        latest_data: Some(d),
        last_update_timestamp: now,
        update_count: if o.update_count < u64::MAX {
            (o.update_count + 1) as u64
        } else {
            o.update_count
        },
        reputation_score: if o.reputation_score < 100 {
            min_u8(100, o.reputation_score + 1)
        } else {
            o.reputation_score
        },
        health_metrics: health_after_success(o.health_metrics, now),
        ..o
    }
}

/// Updates reputation and health after a validation outcome at `current_timestamp`: up by one
/// on success (at most 100), down by three on failure (at least 0).
pub fn update_oracle_health(oracle: &mut Oracle, success: bool, current_timestamp: i64) -> (r:
    Result<(), InsuranceError>)
    ensures
        r is Ok,
        success ==> *final(oracle) == (Oracle {
            reputation_score: if old(oracle).reputation_score < 100 {
                min_u8(100, old(oracle).reputation_score + 1)
            } else {
                old(oracle).reputation_score
            },
            health_metrics: health_after_success(old(oracle).health_metrics, current_timestamp),
            ..*old(oracle)
        }),
        !success ==> *final(oracle) == oracle_after_failure(*old(oracle), current_timestamp),
{
    if success {
        oracle.health_metrics.record_successful_update(current_timestamp);
        if oracle.reputation_score < 100 {
            oracle.reputation_score = oracle.reputation_score + 1;
        }
    } else {
        oracle.health_metrics.record_failed_validation(current_timestamp);
        oracle.reputation_score = oracle.reputation_score.saturating_sub(3);
    }
    Ok(())
}

/// Change between two readings in whole percent, capped at 100 (100 when `old_value` is 0).
fn calculate_percentage_change(old_value: u64, new_value: u64) -> (r: u8)
    ensures
        r == percentage_change(old_value, new_value),
{
    if old_value == 0 {
        return 100;
    }
    let difference = if new_value > old_value {
        new_value - old_value
    } else {
        old_value - new_value
    };
    let percentage = (difference as u128 * 100) / old_value as u128;
    if percentage > 100 {
        100
    } else {
        percentage as u8
    }
}

/// Checks a new reading against the oracle's breaker, its previous value (at most
/// `max_change_percentage` percent of change) and a positive confidence.
pub fn validate_data_reasonableness(
    oracle: &Oracle,
    new_data: &OracleData,
    max_change_percentage: u8,
) -> (r: Result<bool, InsuranceError>)
    ensures
        r == if oracle.health_metrics.circuit_breaker_active {
            Err(InsuranceError::OracleConsensusFailure)
        } else if oracle.latest_data is Some && percentage_change(
            oracle.latest_data->Some_0.value,
            new_data.value,
        ) > max_change_percentage {
            Err(InsuranceError::InvalidOracleData)
        } else if new_data.confidence == 0 {
            Err(InsuranceError::InvalidOracleData)
        } else {
            Ok(true)
        },
{
    if oracle.health_metrics.circuit_breaker_active {
        return Err(InsuranceError::OracleConsensusFailure);
    }
    match &oracle.latest_data {
        Some(last_data) => {
            let percentage_change = calculate_percentage_change(last_data.value, new_data.value);
            if percentage_change > max_change_percentage {
                return Err(InsuranceError::InvalidOracleData);
            }
        },
        None => {},
    }
    if new_data.confidence == 0 {
        return Err(InsuranceError::InvalidOracleData);
    }
    Ok(true)
}

/// Placeholder check on the signature material: it must not be all zero bytes. This is no
/// authentication; a real deployment verifies the signature over `oracle_message(data)`
/// against the key of `_oracle_authority`.
fn verify_oracle_signature(_oracle_authority: &Pubkey, data: &OracleData) -> (r: Result<
    (),
    InsuranceError,
>)
    ensures
        r == if signature_present(data.signature) {
            Ok(())
        } else {
            Err(InsuranceError::OracleSignatureInvalid)
        },
{
    let mut i: usize = 0;
    while i < 64
        invariant
            0 <= i <= 64,
            forall|k: int| 0 <= k < i ==> data.signature@[k] == 0,
        decreases 64 - i,
    {
        if data.signature[i] != 0 {
            return Ok(());
        }
        i = i + 1;
    }
    Err(InsuranceError::OracleSignatureInvalid)
}

/// Submits a reading from `caller` at time `now`. The caller must be the oracle's authority and
/// the oracle active; those failures change nothing. Then the reading is validated (see
/// `reading_failure`): a rejected reading degrades the oracle's health, an accepted one is
/// stored and improves it.
pub fn update_oracle_data(oracle: &mut Oracle, caller: Pubkey, data: OracleData, now: i64) -> (r:
    Result<(), InsuranceError>)
    ensures
        old(oracle).authority != caller ==> r == Err::<(), InsuranceError>(
            InsuranceError::Unauthorized,
        ) && *final(oracle) == *old(oracle),
        old(oracle).authority == caller && !old(oracle).is_active ==> r == Err::<
            (),
            InsuranceError,
        >(InsuranceError::OracleInactive) && *final(oracle) == *old(oracle),
        old(oracle).authority == caller && old(oracle).is_active ==> match reading_failure(
            *old(oracle),
            data,
            now,
        ) {
            Some(e) => r == Err::<(), InsuranceError>(e) && *final(oracle) == oracle_after_failure(
                *old(oracle),
                now,
            ),
            None => r == Ok::<(), InsuranceError>(()) && *final(oracle) == oracle_after_reading(
                *old(oracle),
                data,
                now,
            ),
        },
        old(oracle).authority == caller && old(oracle).is_active ==> *final(oracle)
            == submission_step(*old(oracle), data, now),
        old(oracle).wf() ==> final(oracle).wf(),
{
    if oracle.authority != caller {
        return Err(InsuranceError::Unauthorized);
    }
    if !oracle.is_active {
        return Err(InsuranceError::OracleInactive);
    }
    let checked = check_reading(oracle, &data, now);
    match checked {
        Err(e) => {
            let _ = update_oracle_health(oracle, false, now);
            Err(e)
        },
        Ok(()) => {
            oracle.latest_data = Some(data);
            oracle.last_update_timestamp = now;
            oracle.update_count = oracle.update_count.saturating_add(1);
            let _ = update_oracle_health(oracle, true, now);
            Ok(())
        },
    }
}

/// Runs the validations of a new reading in order and reports the first that fails.
fn check_reading(oracle: &Oracle, data: &OracleData, now: i64) -> (r: Result<(), InsuranceError>)
    ensures
        r == match reading_failure(*oracle, *data, now) {
            Some(e) => Err(e),
            None => Ok(()),
        },
{
    match validate_data_reasonableness(oracle, data, MAX_READING_CHANGE_PERCENT) {
        Err(e) => {
            return Err(e);
        },
        Ok(_) => {},
    }
    match verify_oracle_signature(&oracle.authority, data) {
        Err(e) => {
            return Err(e);
        },
        Ok(()) => {},
    }
    if (now as i128) - (data.timestamp as i128) > ORACLE_UPDATE_INTERVAL as i128 {
        return Err(InsuranceError::OracleDataTooOld);
    }
    match &oracle.latest_data {
        Some(last_data) => {
            if data.nonce <= last_data.nonce {
                return Err(InsuranceError::InvalidOracleData);
            }
        },
        None => {},
    }
    Ok(())
}

/// Byte length of a string's UTF-8 encoding, as `str::len` reports it.
pub open spec fn utf8_len(s: Seq<char>) -> int {
    vstd::utf8::encode_utf8(s).len() as usize as int
}

/// The registry without `key`, order kept.
pub open spec fn without_key(s: Seq<Pubkey>, key: Pubkey) -> Seq<Pubkey>
    decreases s.len(),
{
    if s.len() == 0 {
        Seq::empty()
    } else {
        let r = without_key(s.drop_last(), key);
        if s.last() == key {
            r
        } else {
            r.push(s.last())
        }
    }
}

proof fn lemma_without_key(s: Seq<Pubkey>, key: Pubkey)
    ensures
        without_key(s, key).len() <= s.len(),
        forall|x: Pubkey| #[trigger]
            without_key(s, key).contains(x) <==> s.contains(x) && x != key,
        s.no_duplicates() ==> without_key(s, key).no_duplicates(),
    decreases s.len(),
{
    if s.len() > 0 {
        let t = s.drop_last();
        lemma_without_key(t, key);
        let r = without_key(t, key);
        assert forall|x: Pubkey| #[trigger] s.contains(x) <==> t.contains(x) || x == s.last() by {
            if s.contains(x) {
                let i = choose|i: int| 0 <= i < s.len() && s[i] == x;
                if i < s.len() - 1 {
                    assert(t[i] == x);
                }
            }
            if t.contains(x) {
                let i = choose|i: int| 0 <= i < t.len() && t[i] == x;
                assert(s[i] == x);
            }
            if x == s.last() {
                assert(s[s.len() - 1] == x);
            }
        }
        if s.last() != key {
            assert forall|x: Pubkey| #[trigger] r.push(s.last()).contains(x) <==> r.contains(x)
                || x == s.last() by {
                if r.push(s.last()).contains(x) {
                    let i = choose|i: int| 0 <= i < r.len() + 1 && r.push(s.last())[i] == x;
                    if i < r.len() {
                        assert(r[i] == x);
                    }
                }
                if r.contains(x) {
                    let i = choose|i: int| 0 <= i < r.len() && r[i] == x;
                    assert(r.push(s.last())[i] == x);
                }
                if x == s.last() {
                    assert(r.push(s.last())[r.len() as int] == x);
                }
            }
            if s.no_duplicates() {
                assert(!t.contains(s.last())) by {
                    if t.contains(s.last()) {
                        let i = choose|i: int| 0 <= i < t.len() && t[i] == s.last();
                        assert(s[i] == s[s.len() - 1]);
                    }
                }
                assert(t.no_duplicates()) by {
                    assert forall|i: int, j: int| 0 <= i < t.len() && 0 <= j < t.len() && i != j
                        implies t[i] != t[j] by {
                        assert(s[i] == t[i] && s[j] == t[j]);
                    }
                }
                let p = r.push(s.last());
                assert forall|i: int, j: int| 0 <= i < p.len() && 0 <= j < p.len() && i != j
                    implies p[i] != p[j] by {
                    if i == r.len() && j < r.len() {
                        assert(r.contains(p[j]));
                    } else if j == r.len() && i < r.len() {
                        assert(r.contains(p[i]));
                    }
                }
            }
        } else {
            if s.no_duplicates() {
                assert(t.no_duplicates()) by {
                    assert forall|i: int, j: int| 0 <= i < t.len() && 0 <= j < t.len() && i != j
                        implies t[i] != t[j] by {
                        assert(s[i] == t[i] && s[j] == t[j]);
                    }
                }
            }
        }
    }
}

/// The first reason, in order, why `register_oracle` refuses; `None` when it succeeds.
pub open spec fn registration_failure(
    m: MasterInsuranceContract,
    admin: Pubkey,
    oracle_key: Pubkey,
    oracle_id: Seq<char>,
    oracle_type: OracleType,
    data_feed_address: Seq<char>,
) -> Option<InsuranceError> {
    if m.authority != admin {
        Some(InsuranceError::Unauthorized)
    } else if utf8_len(oracle_id) > Oracle::MAX_ORACLE_ID_LENGTH {
        Some(InsuranceError::InvalidInput)
    } else if utf8_len(data_feed_address) > Oracle::MAX_DATA_FEED_ADDRESS_LENGTH {
        Some(InsuranceError::InvalidInput)
    } else if m.oracle_registry@.len() >= m.max_oracles {
        Some(InsuranceError::MaxOraclesExceeded)
    } else if m.oracle_registry@.contains(oracle_key) {
        Some(InsuranceError::OracleAlreadyRegistered)
    } else if oracle_type != OracleType::Pyth {
        Some(InsuranceError::InvalidOracleData)
    } else {
        None
    }
}

fn registry_contains(registry: &Vec<Pubkey>, key: Pubkey) -> (r: bool)
    ensures
        r == registry@.contains(key),
{
    let mut i: usize = 0;
    while i < registry.len()
        invariant
            0 <= i <= registry@.len(),
            forall|k: int| 0 <= k < i ==> registry@[k] != key,
        decreases registry@.len() - i,
    {
        if registry[i] == key {
            assert(registry@[i as int] == key);
            return true;
        }
        i = i + 1;
    }
    false
}

/// Registers the oracle at address `oracle_key` (admin only). Refusals, in order: caller is not
/// the authority, identifier longer than 32 bytes, feed address longer than 64 bytes, registry
/// full, address already registered, type other than `Pyth`. A new oracle starts active with
/// reputation 100, fresh health metrics and no reading.
pub fn register_oracle(
    master_contract: &mut MasterInsuranceContract,
    admin: Pubkey,
    oracle_key: Pubkey,
    oracle_authority: Pubkey,
    oracle_id: String,
    oracle_type: OracleType,
    data_feed_address: String,
) -> (r: Result<Oracle, InsuranceError>)
    requires
        old(master_contract).wf(),
    ensures
        final(master_contract).wf(),
        match registration_failure(
            *old(master_contract),
            admin,
            oracle_key,
            oracle_id@,
            oracle_type,
            data_feed_address@,
        ) {
            Some(e) => r == Err::<Oracle, InsuranceError>(e) && *final(master_contract) == *old(master_contract),
            None => r is Ok && r->Ok_0 == (Oracle {
                oracle_id,
                authority: oracle_authority,
                oracle_type,
                is_active: true,
                last_update_timestamp: 0,
                data_feed_address,
                latest_data: None,
                reputation_score: 100,
                update_count: 0,
                health_metrics: OracleHealthMetrics {
                    updates_24h: 0,
                    accuracy_score: 100,
                    last_health_check: 0,
                    failed_validations: 0,
                    circuit_breaker_active: false,
                },
            }) && final(master_contract).oracle_registry@ == old(master_contract).oracle_registry@.push(oracle_key) && *final(master_contract) == (
            MasterInsuranceContract {
                oracle_registry: final(master_contract).oracle_registry,
                ..*old(master_contract)
            }),
        },
{
    if master_contract.authority != admin {
        return Err(InsuranceError::Unauthorized);
    }
    if oracle_id.as_str().len() > Oracle::MAX_ORACLE_ID_LENGTH {
        return Err(InsuranceError::InvalidInput);
    }
    if data_feed_address.as_str().len() > Oracle::MAX_DATA_FEED_ADDRESS_LENGTH {
        return Err(InsuranceError::InvalidInput);
    }
    if master_contract.oracle_registry.len() >= master_contract.max_oracles as usize {
        return Err(InsuranceError::MaxOraclesExceeded);
    }
    if registry_contains(&master_contract.oracle_registry, oracle_key) {
        return Err(InsuranceError::OracleAlreadyRegistered);
    }
    if oracle_type != OracleType::Pyth {
        return Err(InsuranceError::InvalidOracleData);
    }
    let ghost before = master_contract.oracle_registry@;
    master_contract.oracle_registry.push(oracle_key);
    proof {
        let p = master_contract.oracle_registry@;
        assert forall|i: int, j: int| 0 <= i < p.len() && 0 <= j < p.len() && i != j implies p[i]
            != p[j] by {
            if i == before.len() && j < before.len() {
                assert(before[j] == p[j]);
            } else if j == before.len() && i < before.len() {
                assert(before[i] == p[i]);
            }
        }
    }
    Ok(
        Oracle {
            oracle_id,
            authority: oracle_authority,
            oracle_type,
            is_active: true,
            last_update_timestamp: 0,
            data_feed_address,
            latest_data: None,
            reputation_score: 100,
            update_count: 0,
            health_metrics: OracleHealthMetrics::new(),
        },
    )
}

/// Removes the oracle at `oracle_key` from the registry (admin only).
pub fn unregister_oracle(
    master_contract: &mut MasterInsuranceContract,
    admin: Pubkey,
    oracle_key: Pubkey,
) -> (r: Result<(), InsuranceError>)
    requires
        old(master_contract).wf(),
    ensures
        final(master_contract).wf(),
        old(master_contract).authority != admin ==> r == Err::<(), InsuranceError>(
            InsuranceError::Unauthorized,
        ) && *final(master_contract) == *old(master_contract),
        old(master_contract).authority == admin ==> r == Ok::<(), InsuranceError>(())
            && final(master_contract).oracle_registry@ == without_key(
            old(master_contract).oracle_registry@,
            oracle_key,
        ) && *final(master_contract) == (MasterInsuranceContract {
            oracle_registry: final(master_contract).oracle_registry,
            ..*old(master_contract)
        }),
{
    if master_contract.authority != admin {
        return Err(InsuranceError::Unauthorized);
    }
    let mut kept: Vec<Pubkey> = Vec::new();
    let mut i: usize = 0;
    while i < master_contract.oracle_registry.len()
        invariant
            0 <= i <= master_contract.oracle_registry@.len(),
            kept@ == without_key(master_contract.oracle_registry@.take(i as int), oracle_key),
        decreases master_contract.oracle_registry@.len() - i,
    {
        let k = master_contract.oracle_registry[i];
        assert(master_contract.oracle_registry@.take(i as int + 1).drop_last()
            =~= master_contract.oracle_registry@.take(i as int));
        if k != oracle_key {
            kept.push(k);
        }
        i = i + 1;
    }
    assert(master_contract.oracle_registry@.take(i as int) =~= master_contract.oracle_registry@);
    proof {
        lemma_without_key(master_contract.oracle_registry@, oracle_key);
    }
    master_contract.oracle_registry = kept;
    Ok(())
}

/// Switches an oracle on or off (admin only).
pub fn update_oracle_status(
    oracle: &mut Oracle,
    master_contract: &MasterInsuranceContract,
    admin: Pubkey,
    is_active: bool,
) -> (r: Result<(), InsuranceError>)
    ensures
        master_contract.authority != admin ==> r == Err::<(), InsuranceError>(
            InsuranceError::Unauthorized,
        ) && *final(oracle) == *old(oracle),
        master_contract.authority == admin ==> r == Ok::<(), InsuranceError>(()) && *final(oracle)
            == (Oracle { is_active, ..*old(oracle) }),
{
    if master_contract.authority != admin {
        return Err(InsuranceError::Unauthorized);
    }
    oracle.is_active = is_active;
    Ok(())
}

/// Admin correction of a faulty feed: stores `corrected_data` as the latest reading at `now`,
/// clears the circuit breaker and the failure count, and returns the record to log with
/// `reason`.
pub fn emergency_oracle_override(
    oracle: &mut Oracle,
    master_contract: &MasterInsuranceContract,
    admin: Pubkey,
    corrected_data: OracleData,
    reason: String,
    now: i64,
) -> (r: Result<OracleOverridden, InsuranceError>)
    ensures
        master_contract.authority != admin ==> r == Err::<OracleOverridden, InsuranceError>(
            InsuranceError::Unauthorized,
        ) && *final(oracle) == *old(oracle),
        master_contract.authority == admin ==> r == Ok::<OracleOverridden, InsuranceError>(
            OracleOverridden {
                oracle_id: old(oracle).oracle_id,
                admin,
                value: corrected_data.value,
                reason,
                timestamp: now,
            },
        ) && *final(oracle) == (Oracle {
            latest_data: Some(corrected_data),
            last_update_timestamp: now,
            health_metrics: OracleHealthMetrics {
                circuit_breaker_active: false,
                failed_validations: 0,
                ..old(oracle).health_metrics
            },
            ..*old(oracle)
        }),
{
    if master_contract.authority != admin {
        return Err(InsuranceError::Unauthorized);
    }
    oracle.latest_data = Some(corrected_data);
    oracle.last_update_timestamp = now;
    oracle.health_metrics.circuit_breaker_active = false;
    oracle.health_metrics.failed_validations = 0;
    Ok(
        OracleOverridden {
            oracle_id: oracle.oracle_id.clone(),
            admin,
            value: corrected_data.value,
            reason,
            timestamp: now,
        },
    )
}

/// Clears an oracle's circuit breaker and failure count (admin only).
pub fn reset_oracle_circuit_breaker(
    oracle: &mut Oracle,
    master_contract: &MasterInsuranceContract,
    admin: Pubkey,
) -> (r: Result<(), InsuranceError>)
    ensures
        master_contract.authority != admin ==> r == Err::<(), InsuranceError>(
            InsuranceError::Unauthorized,
        ) && *final(oracle) == *old(oracle),
        master_contract.authority == admin ==> r == Ok::<(), InsuranceError>(()) && *final(oracle)
            == (Oracle {
            health_metrics: OracleHealthMetrics {
                circuit_breaker_active: false,
                failed_validations: 0,
                ..old(oracle).health_metrics
            },
            ..*old(oracle)
        }),
{
    if master_contract.authority != admin {
        return Err(InsuranceError::Unauthorized);
    }
    oracle.health_metrics.circuit_breaker_active = false;
    oracle.health_metrics.failed_validations = 0;
    Ok(())
}

/// An oracle counts as healthy when active, breaker off and reputation at least 70.
pub open spec fn is_healthy(o: Oracle) -> bool {
    o.is_active && !o.health_metrics.circuit_breaker_active && o.reputation_score >= 70
}

/// Number of healthy oracles.
pub open spec fn healthy_count(s: Seq<Oracle>) -> int
    decreases s.len(),
{
    if s.len() == 0 {
        0
    } else {
        healthy_count(s.drop_last()) + if is_healthy(s.last()) {
            1int
        } else {
            0int
        }
    }
}

proof fn lemma_healthy_count_bound(s: Seq<Oracle>)
    ensures
        0 <= healthy_count(s) <= s.len(),
    decreases s.len(),
{
    if s.len() > 0 {
        lemma_healthy_count_bound(s.drop_last());
    }
}

/// Fails with `InsufficientOracles` unless at least `min_healthy_oracles` oracles are healthy.
pub fn check_oracle_system_health(oracle_accounts: &[Oracle], min_healthy_oracles: u8) -> (r:
    Result<bool, InsuranceError>)
    ensures
        r == if healthy_count(oracle_accounts@) >= min_healthy_oracles {
            Ok::<bool, InsuranceError>(true)
        } else {
            Err(InsuranceError::InsufficientOracles)
        },
{
    let mut count: usize = 0;
    let mut i: usize = 0;
    while i < oracle_accounts.len()
        invariant
            0 <= i <= oracle_accounts@.len(),
            count == healthy_count(oracle_accounts@.take(i as int)),
        decreases oracle_accounts@.len() - i,
    {
        proof {
            assert(oracle_accounts@.take(i as int + 1).drop_last() =~= oracle_accounts@.take(
                i as int,
            ));
            lemma_healthy_count_bound(oracle_accounts@.take(i as int));
        }
        let o = &oracle_accounts[i];
        if o.is_active && !o.health_metrics.circuit_breaker_active && o.reputation_score >= 70 {
            count = count + 1;
        }
        i = i + 1;
    }
    assert(oracle_accounts@.take(i as int) =~= oracle_accounts@);
    if count >= min_healthy_oracles as usize {
        Ok(true)
    } else {
        Err(InsuranceError::InsufficientOracles)
    }
}

/// A reading that swings more than the allowed percentage away from the previous one is
/// rejected; the oracle then has exactly one more failed validation and a reputation three
/// points lower (not below zero).
pub proof fn lemma_large_swing_rejected(o: Oracle, d: OracleData, now: i64)
    requires
        !o.health_metrics.circuit_breaker_active,
        o.latest_data is Some,
        percentage_change(o.latest_data->Some_0.value, d.value) > MAX_READING_CHANGE_PERCENT,
        o.health_metrics.failed_validations < u32::MAX,
    ensures
        reading_failure(o, d, now) == Some(InsuranceError::InvalidOracleData),
        oracle_after_failure(o, now).health_metrics.failed_validations
            == o.health_metrics.failed_validations + 1,
        oracle_after_failure(o, now).reputation_score == if o.reputation_score >= 3 {
            o.reputation_score - 3
        } else {
            0
        },
{
}

/// The circuit breaker trips on the fifth failed validation and not before: a failure that
/// brings the count to five or more leaves the breaker on, and one that leaves the count below
/// five leaves an inactive breaker off.
pub proof fn lemma_breaker_trips_at_fifth_failure(o: Oracle, now: i64)
    ensures
        o.health_metrics.failed_validations + 1 >= CIRCUIT_BREAKER_THRESHOLD
            ==> oracle_after_failure(o, now).health_metrics.circuit_breaker_active,
        o.health_metrics.failed_validations + 1 < CIRCUIT_BREAKER_THRESHOLD
            && !o.health_metrics.circuit_breaker_active
            ==> !oracle_after_failure(o, now).health_metrics.circuit_breaker_active,
{
}

/// While the circuit breaker is on, every submitted reading is rejected and the breaker stays
/// on; only an explicit reset (or the daily reset of an accurate oracle) clears it.
pub proof fn lemma_breaker_blocks_readings(o: Oracle, d: OracleData, now: i64)
    requires
        o.health_metrics.circuit_breaker_active,
    ensures
        reading_failure(o, d, now) == Some(InsuranceError::OracleConsensusFailure),
        oracle_after_failure(o, now).health_metrics.circuit_breaker_active,
{
}

/// A reading taken at `oracle_timestamp` is at most `staleness_threshold` seconds old at
/// `current_timestamp`; fails with `OracleDataStale` otherwise.
pub fn validate_oracle_freshness(
    oracle_timestamp: i64,
    current_timestamp: i64,
    staleness_threshold: i64,
) -> (r: Result<(), InsuranceError>)
    ensures
        r == if current_timestamp - oracle_timestamp <= staleness_threshold {
            Ok::<(), InsuranceError>(())
        } else {
            Err(InsuranceError::OracleDataStale)
        },
{
    if (current_timestamp as i128) - (oracle_timestamp as i128) <= staleness_threshold as i128 {
        Ok(())
    } else {
        Err(InsuranceError::OracleDataStale)
    }
}

/// The bytes a signature over a reading covers: value, timestamp, confidence and nonce, eight
/// little-endian bytes each (the timestamp in two's complement).
pub open spec fn oracle_message(d: OracleData) -> Seq<u8> {
    le_bytes(d.value as nat, 8).add(le_bytes(d.timestamp as u64 as nat, 8)).add(
        le_bytes(d.confidence as nat, 8),
    ).add(le_bytes(d.nonce as nat, 8))
}

/// The message a reading's signature is made over (see `oracle_message`).
pub fn create_oracle_message(data: &OracleData) -> (r: Vec<u8>)
    ensures
        r@ == oracle_message(*data),
{
    let mut message: Vec<u8> = Vec::new();
    push_u64_le(&mut message, data.value);
    push_u64_le(&mut message, data.timestamp as u64);
    push_u64_le(&mut message, data.confidence);
    push_u64_le(&mut message, data.nonce);
    assert(message@ =~= oracle_message(*data));
    message
}

/// Magic number at the start of a Pyth price account.
pub const PYTH_MAGIC: u32 = 0xa1b2c3d4;

/// A Pyth price account holds at least 208 bytes and starts with the magic number
/// (little-endian); fails with `InvalidOracleData` otherwise. The product identifier is not
/// checked.
pub fn validate_pyth_price_data(price_account_data: &[u8], _expected_product_id: &[u8; 32]) -> (r:
    Result<bool, InsuranceError>)
    ensures
        r == if price_account_data@.len() >= 208 && le_value(price_account_data@.subrange(0, 4))
            == PYTH_MAGIC {
            Ok::<bool, InsuranceError>(true)
        } else {
            Err(InsuranceError::InvalidOracleData)
        },
{
    if price_account_data.len() < 208 {
        return Err(InsuranceError::InvalidOracleData);
    }
    let magic = read_u32_le(price_account_data, 0);
    if magic != PYTH_MAGIC {
        return Err(InsuranceError::InvalidOracleData);
    }
    Ok(true)
}

/// Price (bytes 208..216), confidence (216..224) and publish time (256..264) of a valid Pyth
/// price account, all little-endian. Fails with `InvalidOracleData` for an invalid account or
/// one too short to hold the publish time.
pub fn extract_pyth_price_data(price_account_data: &[u8]) -> (r: Result<
    (i64, u64, i64),
    InsuranceError,
>)
    ensures
        ({
            let d = price_account_data@;
            if d.len() >= 264 && le_value(d.subrange(0, 4)) == PYTH_MAGIC {
                r == Ok::<(i64, u64, i64), InsuranceError>(
                    (
                        le_value(d.subrange(208, 216)) as u64 as i64,
                        le_value(d.subrange(216, 224)) as u64,
                        le_value(d.subrange(256, 264)) as u64 as i64,
                    ),
                )
            } else {
                r == Err::<(i64, u64, i64), InsuranceError>(InsuranceError::InvalidOracleData)
            }
        }),
{
    match validate_pyth_price_data(price_account_data, &[0u8; 32]) {
        Ok(_) => {},
        Err(e) => {
            return Err(e);
        },
    }
    if price_account_data.len() < 264 {
        return Err(InsuranceError::InvalidOracleData);
    }
    let price = read_u64_le(price_account_data, 208) as i64;
    let confidence = read_u64_le(price_account_data, 216);
    let timestamp = read_u64_le(price_account_data, 256) as i64;
    Ok((price, confidence, timestamp))
}

/// Value (bytes 0..8), timestamp (8..16) and confidence (16..24), little-endian, of a raw feed
/// record of at least 24 bytes; signature material and nonce are left zero for the submitter to
/// fill in. Fails with `InvalidOracleData` for a shorter record.
pub fn parse_pyth_format(raw_data: &[u8]) -> (r: Result<OracleData, InsuranceError>)
    ensures
        raw_data@.len() < 24 ==> r == Err::<OracleData, InsuranceError>(
            InsuranceError::InvalidOracleData,
        ),
        raw_data@.len() >= 24 ==> (r matches Ok(d) && d.value == le_value(
            raw_data@.subrange(0, 8),
        ) && d.timestamp == le_value(raw_data@.subrange(8, 16)) as u64 as i64 && d.confidence
            == le_value(raw_data@.subrange(16, 24)) && d.nonce == 0 && (forall|i: int|
            0 <= i < 64 ==> #[trigger] d.signature@[i] == 0)),
{
    if raw_data.len() < 24 {
        return Err(InsuranceError::InvalidOracleData);
    }
    let value = read_u64_le(raw_data, 0);
    let timestamp = read_u64_le(raw_data, 8) as i64;
    let confidence = read_u64_le(raw_data, 16);
    Ok(OracleData { value, timestamp, confidence, signature: [0u8; 64], nonce: 0 })
}

/// The oracle after one accepted-for-processing submission of `d` at `now` (caller authorised,
/// oracle active): rejected readings count against it, accepted ones are stored.
pub open spec fn submission_step(o: Oracle, d: OracleData, now: i64) -> Oracle {
    match reading_failure(o, d, now) {
        Some(_) => oracle_after_failure(o, now),
        None => oracle_after_reading(o, d, now),
    }
}

/// The oracle after the submissions `steps`, in order.
pub open spec fn after_submissions(o: Oracle, steps: Seq<(OracleData, i64)>) -> Oracle
    decreases steps.len(),
{
    if steps.len() == 0 {
        o
    } else {
        let prev = after_submissions(o, steps.drop_last());
        submission_step(prev, steps.last().0, steps.last().1)
    }
}

/// How many of the submissions `steps` were rejected.
pub open spec fn rejected_count(o: Oracle, steps: Seq<(OracleData, i64)>) -> int
    decreases steps.len(),
{
    if steps.len() == 0 {
        0
    } else {
        let prev = after_submissions(o, steps.drop_last());
        rejected_count(o, steps.drop_last()) + if reading_failure(
            prev,
            steps.last().0,
            steps.last().1,
        ) is Some {
            1int
        } else {
            0int
        }
    }
}

/// Over any run of submissions to an oracle that starts with no failures and its breaker off,
/// with no reset in between, the failure count equals the number of rejected readings and the
/// breaker is on exactly when that number has reached five.
pub proof fn lemma_breaker_over_submissions(o: Oracle, steps: Seq<(OracleData, i64)>)
    requires
        o.health_metrics.failed_validations == 0,
        !o.health_metrics.circuit_breaker_active,
        steps.len() < u32::MAX,
    ensures
        after_submissions(o, steps).health_metrics.failed_validations == rejected_count(o, steps),
        after_submissions(o, steps).health_metrics.circuit_breaker_active <==> rejected_count(
            o,
            steps,
        ) >= CIRCUIT_BREAKER_THRESHOLD,
        rejected_count(o, steps) <= steps.len(),
    decreases steps.len(),
{
    if steps.len() > 0 {
        lemma_breaker_over_submissions(o, steps.drop_last());
    }
}

} // verus!
