use siglab_contract::error::{ErrorKind, InsuranceError};
use siglab_contract::oracle::{
    create_oracle_message, extract_pyth_price_data, parse_pyth_format, validate_pyth_price_data,
    OracleData,
};

fn price_account(len: usize) -> Vec<u8> {
    let mut d = vec![0u8; len];
    d[0..4].copy_from_slice(&0xa1b2c3d4u32.to_le_bytes());
    d
}

#[test]
fn message_layout_is_four_little_endian_words() {
    let data = OracleData { value: 0x0102, timestamp: -1, confidence: 7, signature: [3u8; 64], nonce: 9 };
    let m = create_oracle_message(&data);
    assert_eq!(m.len(), 32);
    assert_eq!(&m[0..8], &[2, 1, 0, 0, 0, 0, 0, 0]);
    assert_eq!(&m[8..16], &[255u8; 8]);
    assert_eq!(&m[16..24], &[7, 0, 0, 0, 0, 0, 0, 0]);
    assert_eq!(&m[24..32], &[9, 0, 0, 0, 0, 0, 0, 0]);
}

#[test]
fn raw_feed_record_parses() {
    let mut raw = Vec::new();
    raw.extend_from_slice(&500u64.to_le_bytes());
    raw.extend_from_slice(&(-20i64).to_le_bytes());
    raw.extend_from_slice(&u64::MAX.to_le_bytes());
    let d = parse_pyth_format(&raw).unwrap();
    assert_eq!(d.value, 500);
    assert_eq!(d.timestamp, -20);
    assert_eq!(d.confidence, u64::MAX);
    assert_eq!(d.nonce, 0);
    assert_eq!(d.signature, [0u8; 64]);
    assert_eq!(parse_pyth_format(&raw[..23]).err(), Some(InsuranceError::InvalidOracleData));
}

#[test]
fn price_account_checks_and_fields() {
    let mut acc = price_account(264);
    acc[208..216].copy_from_slice(&(-42i64).to_le_bytes());
    acc[216..224].copy_from_slice(&77u64.to_le_bytes());
    acc[256..264].copy_from_slice(&1_700_000_000i64.to_le_bytes());
    assert_eq!(validate_pyth_price_data(&acc, &[0u8; 32]), Ok(true));
    assert_eq!(extract_pyth_price_data(&acc), Ok((-42, 77, 1_700_000_000)));
    assert_eq!(validate_pyth_price_data(&price_account(207), &[0u8; 32]), Err(InsuranceError::InvalidOracleData));
    assert_eq!(validate_pyth_price_data(&vec![0u8; 300], &[0u8; 32]), Err(InsuranceError::InvalidOracleData));
    assert_eq!(extract_pyth_price_data(&price_account(230)), Err(InsuranceError::InvalidOracleData));
}

#[test]
fn error_classes() {
    assert_eq!(InsuranceError::InsufficientOracles.kind(), ErrorKind::Consensus);
    assert_eq!(InsuranceError::Unauthorized.kind(), ErrorKind::Authorization);
    assert_eq!(InsuranceError::OracleDataTooOld.kind(), ErrorKind::Staleness);
    assert_eq!(InsuranceError::ReserveRatioViolation.kind(), ErrorKind::Solvency);
    assert_eq!(InsuranceError::MathOverflow.kind(), ErrorKind::Overflow);
    assert_eq!(InsuranceError::PayoutConditionsNotMet.kind(), ErrorKind::State);
    assert_eq!(InsuranceError::InvalidClaimAmount.kind(), ErrorKind::Validation);
}
