use siglab_contract::admin::{initialize_master_contract, InitializeParams, MasterInsuranceContract};
use siglab_contract::consensus::{
    check_consensus_timeout, compute_consensus, get_consensus_data, remove_outliers,
    validate_consensus_requirements, ConsensusData,
};
use siglab_contract::error::InsuranceError;
use siglab_contract::oracle::{
    check_oracle_system_health, emergency_oracle_override, register_oracle,
    reset_oracle_circuit_breaker, unregister_oracle, update_oracle_data, update_oracle_status,
    validate_data_reasonableness, validate_oracle_freshness, Oracle, OracleData,
    OracleHealthMetrics, OracleType,
};
use siglab_contract::pubkey::Pubkey;

fn key(n: u128) -> Pubkey {
    Pubkey { high: 0, low: n }
}

fn master() -> MasterInsuranceContract {
    let params = InitializeParams { reserve_ratio: 20, max_oracles: 3, min_consensus_threshold: 3 };
    initialize_master_contract(key(1), params, 1_000).unwrap()
}

fn oracle_with(value: Option<(u64, i64, u64)>) -> Oracle {
    Oracle {
        oracle_id: "feed-a".to_string(),
        authority: key(7),
        oracle_type: OracleType::Pyth,
        is_active: true,
        last_update_timestamp: 0,
        data_feed_address: "addr".to_string(),
        latest_data: value.map(|(v, ts, nonce)| reading(v, ts, nonce)),
        reputation_score: 100,
        update_count: 0,
        health_metrics: OracleHealthMetrics::new(),
    }
}

fn reading(value: u64, timestamp: i64, nonce: u64) -> OracleData {
    OracleData { value, timestamp, confidence: 10, signature: [1u8; 64], nonce }
}

#[test]
fn swing_over_half_is_rejected_and_penalised() {
    let mut o = oracle_with(Some((100, 1_000, 1)));
    let r = update_oracle_data(&mut o, key(7), reading(151, 1_100, 2), 1_100);
    assert_eq!(r, Err(InsuranceError::InvalidOracleData));
    assert_eq!(o.health_metrics.failed_validations, 1);
    assert_eq!(o.reputation_score, 97);
    assert_eq!(o.health_metrics.accuracy_score, 95);
    assert_eq!(o.latest_data.unwrap().value, 100);
}

#[test]
fn swing_of_exactly_half_is_accepted() {
    let mut o = oracle_with(Some((100, 1_000, 1)));
    let r = update_oracle_data(&mut o, key(7), reading(150, 1_100, 2), 1_100);
    assert_eq!(r, Ok(()));
    assert_eq!(o.latest_data.unwrap().value, 150);
    assert_eq!(o.update_count, 1);
    assert_eq!(o.health_metrics.updates_24h, 1);
    assert_eq!(o.last_update_timestamp, 1_100);
}

#[test]
fn reputation_penalty_floors_at_zero() {
    let mut o = oracle_with(Some((100, 1_000, 1)));
    o.reputation_score = 2;
    let _ = update_oracle_data(&mut o, key(7), reading(300, 1_100, 2), 1_100);
    assert_eq!(o.reputation_score, 0);
}

#[test]
fn breaker_trips_after_five_failures_until_reset() {
    let m = master();
    let mut o = oracle_with(Some((100, 1_000, 5)));
    for i in 0..4u32 {
        let r = update_oracle_data(&mut o, key(7), reading(100, 1_000, 1), 1_010);
        assert_eq!(r, Err(InsuranceError::InvalidOracleData));
        assert_eq!(o.health_metrics.failed_validations, i + 1);
        assert!(!o.health_metrics.circuit_breaker_active);
    }
    let r = update_oracle_data(&mut o, key(7), reading(100, 1_000, 1), 1_010);
    assert_eq!(r, Err(InsuranceError::InvalidOracleData));
    assert_eq!(o.health_metrics.failed_validations, 5);
    assert!(o.health_metrics.circuit_breaker_active);
    // a valid reading is now refused too
    let r = update_oracle_data(&mut o, key(7), reading(101, 1_010, 9), 1_010);
    assert_eq!(r, Err(InsuranceError::OracleConsensusFailure));
    assert_eq!(reset_oracle_circuit_breaker(&mut o, &m, key(1)), Ok(()));
    assert!(!o.health_metrics.circuit_breaker_active);
    assert_eq!(o.health_metrics.failed_validations, 0);
    let r = update_oracle_data(&mut o, key(7), reading(101, 1_010, 9), 1_010);
    assert_eq!(r, Ok(()));
}

#[test]
fn reading_checks_each_fail_distinctly() {
    let mut o = oracle_with(None);
    let mut d = reading(100, 1_000, 1);
    d.confidence = 0;
    assert_eq!(update_oracle_data(&mut o, key(7), d, 1_000), Err(InsuranceError::InvalidOracleData));
    let mut d = reading(100, 1_000, 1);
    d.signature = [0u8; 64];
    assert_eq!(
        update_oracle_data(&mut o, key(7), d, 1_000),
        Err(InsuranceError::OracleSignatureInvalid)
    );
    let d = reading(100, 1_000, 1);
    assert_eq!(update_oracle_data(&mut o, key(7), d, 1_301), Err(InsuranceError::OracleDataTooOld));
    assert_eq!(update_oracle_data(&mut o, key(8), d, 1_000), Err(InsuranceError::Unauthorized));
    assert_eq!(o.health_metrics.failed_validations, 3);
    assert_eq!(update_oracle_data(&mut o, key(7), d, 1_300), Ok(()));
    // replayed nonce
    let d2 = reading(100, 1_300, 1);
    assert_eq!(update_oracle_data(&mut o, key(7), d2, 1_300), Err(InsuranceError::InvalidOracleData));
    o.is_active = false;
    assert_eq!(update_oracle_data(&mut o, key(7), reading(100, 1_300, 2), 1_300), Err(InsuranceError::OracleInactive));
}

#[test]
fn registration_rules() {
    let mut m = master();
    let o = register_oracle(&mut m, key(1), key(20), key(7), "a".to_string(), OracleType::Pyth, "f".to_string()).unwrap();
    assert_eq!(o.reputation_score, 100);
    assert!(o.is_active);
    assert!(o.latest_data.is_none());
    assert_eq!(o.authority, key(7));
    assert_eq!(m.oracle_registry, vec![key(20)]);
    let dup = register_oracle(&mut m, key(1), key(20), key(7), "a".to_string(), OracleType::Pyth, "f".to_string());
    assert_eq!(dup.err(), Some(InsuranceError::OracleAlreadyRegistered));
    let chainlink = register_oracle(&mut m, key(1), key(21), key(7), "b".to_string(), OracleType::Chainlink, "f".to_string());
    assert_eq!(chainlink.err(), Some(InsuranceError::InvalidOracleData));
    let not_admin = register_oracle(&mut m, key(2), key(21), key(7), "b".to_string(), OracleType::Pyth, "f".to_string());
    assert_eq!(not_admin.err(), Some(InsuranceError::Unauthorized));
    let long_id = register_oracle(&mut m, key(1), key(21), key(7), "x".repeat(33), OracleType::Pyth, "f".to_string());
    assert_eq!(long_id.err(), Some(InsuranceError::InvalidInput));
    let long_feed = register_oracle(&mut m, key(1), key(21), key(7), "b".to_string(), OracleType::Pyth, "f".repeat(65));
    assert_eq!(long_feed.err(), Some(InsuranceError::InvalidInput));
    assert!(register_oracle(&mut m, key(1), key(21), key(7), "b".to_string(), OracleType::Pyth, "f".to_string()).is_ok());
    assert!(register_oracle(&mut m, key(1), key(22), key(7), "c".to_string(), OracleType::Pyth, "f".to_string()).is_ok());
    let full = register_oracle(&mut m, key(1), key(23), key(7), "d".to_string(), OracleType::Pyth, "f".to_string());
    assert_eq!(full.err(), Some(InsuranceError::MaxOraclesExceeded));
    assert_eq!(unregister_oracle(&mut m, key(1), key(21)), Ok(()));
    assert_eq!(m.oracle_registry, vec![key(20), key(22)]);
    assert_eq!(unregister_oracle(&mut m, key(3), key(20)), Err(InsuranceError::Unauthorized));
}

#[test]
fn consensus_drops_the_outlier() {
    let c = compute_consensus(&[100, 102, 98, 1000, 101], 3, 5_000).unwrap();
    assert_eq!(c.aggregated_value, 100);
    assert_eq!(c.oracle_count, 4);
    assert_eq!(c.median_value, 100);
    assert_eq!(c.standard_deviation, 1);
    assert_eq!(c.confidence_score, 99);
    assert_eq!(c.consensus_timestamp, 5_000);
    assert_eq!(remove_outliers(&[100, 102, 98, 1000, 101]).unwrap(), vec![100, 102, 98, 101]);
}

#[test]
fn consensus_fails_when_filtering_leaves_too_few() {
    let r = compute_consensus(&[100, 102, 98, 1000, 101], 5, 5_000);
    assert_eq!(r, Err(InsuranceError::InsufficientOracles));
    let r = compute_consensus(&[100, 102], 3, 5_000);
    assert_eq!(r, Err(InsuranceError::InsufficientOracles));
}

#[test]
fn consensus_overflow_is_reported() {
    let r = compute_consensus(&[u64::MAX, u64::MAX, 1], 1, 0);
    assert_eq!(r, Err(InsuranceError::MathOverflow));
}

#[test]
fn consensus_over_oracles_skips_stale_and_inactive() {
    let m = master();
    let mut oracles = vec![
        oracle_with(Some((100, 1_000, 1))),
        oracle_with(Some((104, 1_000, 1))),
        oracle_with(Some((102, 1_000, 1))),
        oracle_with(Some((500, 300, 1))),
    ];
    let c = get_consensus_data(&m, &oracles, 1_000).unwrap().unwrap();
    assert_eq!(c.aggregated_value, 102);
    assert_eq!(c.oracle_count, 3);
    assert_eq!(c.median_value, 102);
    oracles[0].is_active = false;
    oracles[3].latest_data = None;
    assert_eq!(get_consensus_data(&m, &oracles, 1_000), Err(InsuranceError::InsufficientOracles));
}

#[test]
fn median_of_even_count_averages_middle_pair() {
    let c = ConsensusData::from_oracle_values(&[4, 1, 3, 2], 0);
    assert_eq!(c.median_value, 2);
    assert_eq!(c.aggregated_value, 2);
    let c = ConsensusData::from_oracle_values(&[], 0);
    assert_eq!(c, ConsensusData { aggregated_value: 0, confidence_score: 0, oracle_count: 0, consensus_timestamp: 0, median_value: 0, standard_deviation: 0 });
}

#[test]
fn integer_square_roots() {
    assert_eq!(ConsensusData::integer_sqrt(0), 0);
    assert_eq!(ConsensusData::integer_sqrt(1), 1);
    assert_eq!(ConsensusData::integer_sqrt(129_529), 359);
    assert_eq!(ConsensusData::integer_sqrt(129_600), 360);
    assert_eq!(ConsensusData::integer_sqrt(u64::MAX), 4_294_967_295);
}

#[test]
fn consensus_requirements() {
    let c = ConsensusData { aggregated_value: 10, confidence_score: 80, oracle_count: 3, consensus_timestamp: 0, median_value: 10, standard_deviation: 1 };
    assert_eq!(validate_consensus_requirements(&c, 80, 3), Ok(true));
    assert_eq!(validate_consensus_requirements(&c, 81, 3), Err(InsuranceError::OracleConsensusFailure));
    assert_eq!(validate_consensus_requirements(&c, 80, 4), Err(InsuranceError::InsufficientOracles));
}

#[test]
fn override_clears_breaker_and_keeps_reason() {
    let m = master();
    let mut o = oracle_with(Some((100, 1_000, 1)));
    o.health_metrics.circuit_breaker_active = true;
    o.health_metrics.failed_validations = 6;
    let ev = emergency_oracle_override(&mut o, &m, key(1), reading(90, 1_000, 2), "feed fault".to_string(), 2_000).unwrap();
    assert_eq!(ev.reason, "feed fault");
    assert_eq!(ev.oracle_id, "feed-a");
    assert!(!o.health_metrics.circuit_breaker_active);
    assert_eq!(o.health_metrics.failed_validations, 0);
    assert_eq!(o.latest_data.unwrap().value, 90);
    assert_eq!(o.last_update_timestamp, 2_000);
    let denied = emergency_oracle_override(&mut o, &m, key(9), reading(90, 1_000, 2), "x".to_string(), 2_000);
    assert_eq!(denied.err(), Some(InsuranceError::Unauthorized));
}

#[test]
fn status_health_and_timeouts() {
    let m = master();
    let mut a = oracle_with(None);
    let b = oracle_with(None);
    assert_eq!(update_oracle_status(&mut a, &m, key(1), false), Ok(()));
    assert!(!a.is_active);
    assert_eq!(update_oracle_status(&mut a, &m, key(5), true), Err(InsuranceError::Unauthorized));
    let all = vec![a.clone(), b.clone()];
    assert_eq!(check_oracle_system_health(&all, 1), Ok(true));
    assert_eq!(check_oracle_system_health(&all, 2), Err(InsuranceError::InsufficientOracles));
    assert!(check_consensus_timeout(&all, 100, 101));
    assert!(!check_consensus_timeout(&all, 100, 100));
}

#[test]
fn reasonableness_and_freshness() {
    let o = oracle_with(Some((0, 0, 0)));
    assert_eq!(validate_data_reasonableness(&o, &reading(1, 0, 1), 100), Ok(true));
    assert_eq!(validate_data_reasonableness(&o, &reading(1, 0, 1), 99), Err(InsuranceError::InvalidOracleData));
    assert_eq!(validate_oracle_freshness(100, 160, 60), Ok(()));
    assert_eq!(validate_oracle_freshness(100, 161, 60), Err(InsuranceError::OracleDataStale));
}

#[test]
fn daily_reset_forgives_accurate_oracles() {
    let mut h = OracleHealthMetrics::new();
    h.record_failed_validation(10);
    assert_eq!(h.accuracy_score, 95);
    h.circuit_breaker_active = true;
    h.reset_daily_metrics(20);
    assert_eq!(h.failed_validations, 0);
    assert!(!h.circuit_breaker_active);
    for _ in 0..4 {
        h.record_failed_validation(30);
    }
    assert_eq!(h.accuracy_score, 75);
    h.reset_daily_metrics(40);
    assert_eq!(h.failed_validations, 4);
    h.record_successful_update(50);
    assert_eq!(h.accuracy_score, 76);
    assert_eq!(h.updates_24h, 1);
}

#[test]
fn two_readings_still_go_through_the_filter() {
    assert_eq!(remove_outliers(&[0, 1]).unwrap(), vec![0]);
    assert_eq!(compute_consensus(&[0, 1], 2, 0), Err(InsuranceError::InsufficientOracles));
    let c = compute_consensus(&[0, 1], 1, 0).unwrap();
    assert_eq!(c.oracle_count, 1);
    assert_eq!(c.aggregated_value, 0);
    assert_eq!(remove_outliers(&[]).unwrap(), Vec::<u64>::new());
    assert_eq!(remove_outliers(&[7]).unwrap(), vec![7]);
}
