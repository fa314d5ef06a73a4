use otc_swap::error::ErrorCode;
use otc_swap::identity::Identity;
use otc_swap::oracle::{
    is_older_than, normalize_price, parse_oracle_state, read_le_i64, read_le_u64, source_price,
    state_price, OraclePolicy, OracleState, PriceQuote, PriceSource, ORACLE_CONFIDENCE_DIVISOR,
    ORACLE_MAX_AGE,
};

fn feed() -> Identity {
    Identity { bytes: [7u8; 32] }
}

fn quote(mantissa: i64, exponent: i32, confidence: u64, observed_at: i64) -> PriceQuote {
    PriceQuote { asset_id: feed(), mantissa, exponent, confidence, observed_at }
}

fn state_bytes(tag: [u8; 8], value: u64, last_update: i64) -> Vec<u8> {
    let mut data: Vec<u8> = Vec::new();
    data.extend_from_slice(&tag);
    data.extend_from_slice(&value.to_le_bytes());
    data.extend_from_slice(&last_update.to_le_bytes());
    data
}

#[test]
fn standard_policy_is_three_hundred_seconds_and_a_thousandth() {
    let policy = OraclePolicy::default();
    assert_eq!(ORACLE_MAX_AGE, 300);
    assert_eq!(ORACLE_CONFIDENCE_DIVISOR, 1000);
    assert_eq!(
        policy,
        OraclePolicy {
            enforce_staleness: true,
            feed_max_age: 300,
            state_max_age: 300,
            confidence_divisor: 1000,
        }
    );
}

#[test]
fn age_is_compared_without_overflow() {
    assert!(!is_older_than(1_000, 700, 300));
    assert!(is_older_than(1_000, 699, 300));
    assert!(!is_older_than(700, 1_000, 300));
    assert!(is_older_than(i64::MAX, i64::MIN, u64::MAX - 1));
    assert!(!is_older_than(i64::MAX, i64::MIN, u64::MAX));
    assert!(!is_older_than(i64::MIN, i64::MAX, 0));
}

#[test]
fn normalize_scales_to_cents() {
    let policy = OraclePolicy::default();
    // 100000.00000000 with exponent -8 is 10,000,000 cents.
    let q = quote(10_000_000_000_000, -8, 1_000_000, 1_000);
    assert_eq!(normalize_price(&q, 1_100, &policy), Ok(10_000_000));
    // 65432.1 with exponent -1 is 6,543,210 cents.
    let q = quote(654_321, -1, 10, 1_000);
    assert_eq!(normalize_price(&q, 1_000, &policy), Ok(6_543_210));
    // Whole units with exponent 0 are multiplied by a hundred.
    let q = quote(50_000, 0, 49, 1_000);
    assert_eq!(normalize_price(&q, 1_000, &policy), Ok(5_000_000));
    // An exponent of -2 leaves the mantissa as it is.
    let q = quote(50_000, -2, 49, 1_000);
    assert_eq!(normalize_price(&q, 1_000, &policy), Ok(50_000));
    // An exponent of -3 divides by ten and rounds down.
    let q = quote(50_009, -3, 49, 1_000);
    assert_eq!(normalize_price(&q, 1_000, &policy), Ok(5_000));
}

#[test]
fn normalize_refuses_a_stale_quote() {
    let policy = OraclePolicy::default();
    let q = quote(10_000_000_000_000, -8, 1_000_000, 1_000);
    assert_eq!(normalize_price(&q, 1_300, &policy), Ok(10_000_000));
    assert_eq!(normalize_price(&q, 1_301, &policy), Err(ErrorCode::StaleOraclePrice));
}

#[test]
fn normalize_accepts_a_quote_from_the_future() {
    let policy = OraclePolicy::default();
    let q = quote(10_000_000_000_000, -8, 1_000_000, 5_000);
    assert_eq!(normalize_price(&q, 1_000, &policy), Ok(10_000_000));
}

#[test]
fn normalize_ignores_age_where_staleness_is_not_enforced() {
    let policy = OraclePolicy { enforce_staleness: false, ..OraclePolicy::default() };
    let q = quote(10_000_000_000_000, -8, 1_000_000, 1_000);
    assert_eq!(normalize_price(&q, 1_000_000, &policy), Ok(10_000_000));
}

#[test]
fn normalize_refuses_a_wide_confidence() {
    let policy = OraclePolicy::default();
    let q = quote(1_000_000, -2, 999, 1_000);
    assert_eq!(normalize_price(&q, 1_000, &policy), Ok(1_000_000));
    let q = quote(1_000_000, -2, 1_000, 1_000);
    assert_eq!(normalize_price(&q, 1_000, &policy), Err(ErrorCode::HighConfidence));
    // Under a thousand the bound is zero, and no confidence is under it.
    let q = quote(999, -2, 0, 1_000);
    assert_eq!(normalize_price(&q, 1_000, &policy), Err(ErrorCode::HighConfidence));
}

#[test]
fn normalize_follows_the_divisor_of_the_policy() {
    let policy = OraclePolicy { confidence_divisor: 10, ..OraclePolicy::default() };
    let q = quote(1_000_000, -2, 99_999, 1_000);
    assert_eq!(normalize_price(&q, 1_000, &policy), Ok(1_000_000));
    let q = quote(1_000_000, -2, 100_000, 1_000);
    assert_eq!(normalize_price(&q, 1_000, &policy), Err(ErrorCode::HighConfidence));
}

#[test]
fn normalize_refuses_a_negative_price() {
    let policy = OraclePolicy::default();
    let q = quote(-1_000_000, -2, 10, 1_000);
    assert_eq!(normalize_price(&q, 1_000, &policy), Err(ErrorCode::InvalidPrice));
    let q = quote(i64::MIN, -2, 10, 1_000);
    assert_eq!(normalize_price(&q, 1_000, &policy), Err(ErrorCode::InvalidPrice));
}

#[test]
fn normalize_reports_staleness_before_anything_else() {
    let policy = OraclePolicy::default();
    let q = quote(-5, 40, u64::MAX, 0);
    assert_eq!(normalize_price(&q, 301, &policy), Err(ErrorCode::StaleOraclePrice));
}

#[test]
fn normalize_reports_confidence_before_sign() {
    let policy = OraclePolicy::default();
    let q = quote(-1_000_000, -2, 1_000, 1_000);
    assert_eq!(normalize_price(&q, 1_000, &policy), Err(ErrorCode::HighConfidence));
}

#[test]
fn normalize_refuses_a_price_that_does_not_fit() {
    let policy = OraclePolicy::default();
    let q = quote(i64::MAX, 0, 10, 1_000);
    assert_eq!(normalize_price(&q, 1_000, &policy), Err(ErrorCode::InvalidPrice));
    let q = quote(1_000_000, 18, 10, 1_000);
    assert_eq!(normalize_price(&q, 1_000, &policy), Err(ErrorCode::InvalidPrice));
    let q = quote(1_000_000, i32::MAX, 10, 1_000);
    assert_eq!(normalize_price(&q, 1_000, &policy), Err(ErrorCode::InvalidPrice));
    let q = quote(1_000_000, i32::MIN, 10, 1_000);
    assert_eq!(normalize_price(&q, 1_000, &policy), Err(ErrorCode::InvalidPrice));
    let q = quote(1_000_000, -22, 10, 1_000);
    assert_eq!(normalize_price(&q, 1_000, &policy), Err(ErrorCode::InvalidPrice));
    let q = quote(1_000_000, -21, 10, 1_000);
    assert_eq!(normalize_price(&q, 1_000, &policy), Ok(0));
}

#[test]
fn read_le_u64_agrees_with_the_standard_library() {
    let values: [u64; 6] = [0, 1, 255, 256, 0x0102_0304_0506_0708, u64::MAX];
    for value in values {
        let mut data: Vec<u8> = vec![0xAA, 0xBB, 0xCC];
        data.extend_from_slice(&value.to_le_bytes());
        data.push(0xDD);
        assert_eq!(read_le_u64(&data, 3), value);
    }
}

#[test]
fn read_le_i64_agrees_with_the_standard_library() {
    let values: [i64; 7] = [0, 1, -1, 300, -300, i64::MAX, i64::MIN];
    for value in values {
        let mut data: Vec<u8> = vec![0x11];
        data.extend_from_slice(&value.to_le_bytes());
        assert_eq!(read_le_i64(&data, 1), value);
    }
}

#[test]
fn read_le_u64_weighs_each_byte_by_its_place() {
    let data: [u8; 8] = [1, 2, 3, 4, 5, 6, 7, 8];
    assert_eq!(read_le_u64(&data, 0), 0x0807_0605_0403_0201);
}

#[test]
fn parse_oracle_state_skips_the_tag() {
    let data = state_bytes([9, 9, 9, 9, 9, 9, 9, 9], 10_000_000, 1_700_000_000);
    assert_eq!(
        parse_oracle_state(&data),
        Ok(OracleState { trend_value: 10_000_000, last_update: 1_700_000_000 })
    );
}

#[test]
fn parse_oracle_state_ignores_what_follows_its_fields() {
    let mut data = state_bytes([0; 8], 42, -7);
    data.extend_from_slice(&[1, 2, 3, 4, 5]);
    assert_eq!(parse_oracle_state(&data), Ok(OracleState { trend_value: 42, last_update: -7 }));
}

#[test]
fn parse_oracle_state_refuses_short_data() {
    let data = state_bytes([0; 8], 42, 7);
    assert_eq!(parse_oracle_state(&data[..23]), Err(ErrorCode::InvalidOracleData));
    assert_eq!(parse_oracle_state(&data[..8]), Err(ErrorCode::InvalidOracleData));
    assert_eq!(parse_oracle_state(&[]), Err(ErrorCode::InvalidOracleData));
    assert!(parse_oracle_state(&data[..24]).is_ok());
}

#[test]
fn state_price_is_the_running_value_while_fresh() {
    let policy = OraclePolicy::default();
    let state = OracleState { trend_value: 9_876_543, last_update: 1_000 };
    assert_eq!(state_price(&state, 1_300, &policy), Ok(9_876_543));
    assert_eq!(state_price(&state, 1_301, &policy), Err(ErrorCode::StaleOraclePrice));
}

#[test]
fn state_price_has_its_own_maximum_age() {
    let policy = OraclePolicy { state_max_age: 10, ..OraclePolicy::default() };
    let state = OracleState { trend_value: 5, last_update: 1_000 };
    assert_eq!(state_price(&state, 1_010, &policy), Ok(5));
    assert_eq!(state_price(&state, 1_011, &policy), Err(ErrorCode::StaleOraclePrice));
    let lax = OraclePolicy { enforce_staleness: false, ..policy };
    assert_eq!(state_price(&state, 1_011, &lax), Ok(5));
}

#[test]
fn source_price_of_a_live_quote_is_normalized() {
    let policy = OraclePolicy::default();
    let q = quote(10_000_000_000_000, -8, 1_000_000, 1_000);
    assert_eq!(source_price(&PriceSource::Live(q), 1_000, &policy), Ok(10_000_000));
    assert_eq!(
        source_price(&PriceSource::Live(q), 2_000, &policy),
        Err(ErrorCode::StaleOraclePrice)
    );
}

#[test]
fn source_price_of_a_mock_is_its_fixed_price() {
    let policy = OraclePolicy::default();
    assert_eq!(source_price(&PriceSource::Mock(12_345), 1_000, &policy), Ok(12_345));
    assert_eq!(source_price(&PriceSource::Mock(0), i64::MAX, &policy), Ok(0));
}

#[test]
fn source_price_of_an_unreadable_feed_is_an_oracle_error() {
    let policy = OraclePolicy::default();
    assert_eq!(
        source_price(&PriceSource::Unreadable, 1_000, &policy),
        Err(ErrorCode::PythError)
    );
}
