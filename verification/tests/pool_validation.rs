//! Tests of the quote-only pool validation: pair decoding, position-time
//! checks and claim-time checks.

use star_damm_honorary_fee::error::HonoraryFeeError;
use star_damm_honorary_fee::validation::{LbPair, PoolValidator};

const TOKEN_X_OFFSET: usize = 139;
const TOKEN_Y_OFFSET: usize = 171;
const ACTIVE_ID_OFFSET: usize = 200;

// The layout places the active id inside the tail of the second mint, so
// the data is built in write order and the second mint is read back from
// the buffer where a test needs its exact value.
fn pool_data(token_x: u8, token_y: u8, active_id: i32) -> Vec<u8> {
    let mut data = vec![0u8; 820];
    for i in TOKEN_X_OFFSET..TOKEN_X_OFFSET + 32 {
        data[i] = token_x;
    }
    for i in TOKEN_Y_OFFSET..TOKEN_Y_OFFSET + 32 {
        data[i] = token_y;
    }
    let le = active_id.to_le_bytes();
    data[ACTIVE_ID_OFFSET..ACTIVE_ID_OFFSET + 4].copy_from_slice(&le);
    data
}

fn y_mint(data: &[u8]) -> Vec<u8> {
    data[TOKEN_Y_OFFSET..TOKEN_Y_OFFSET + 32].to_vec()
}

fn key(b: u8) -> Vec<u8> {
    vec![b; 32]
}

#[test]
fn lb_pair_decodes_fields() {
    let data = pool_data(1, 2, 77);
    let pair = LbPair::try_deserialize(&data).unwrap();
    assert_eq!(pair.token_x_mint, key(1));
    assert_eq!(pair.token_y_mint, y_mint(&data));
    assert_eq!(pair.active_id, 77);
}

#[test]
fn lb_pair_decodes_negative_active_id() {
    let data = pool_data(1, 2, -887272);
    let pair = LbPair::try_deserialize(&data).unwrap();
    assert_eq!(pair.active_id, -887272);
}

#[test]
fn lb_pair_rejects_short_data() {
    assert_eq!(
        LbPair::try_deserialize(&vec![0u8; 819]),
        Err(HonoraryFeeError::PoolNotInitialized)
    );
}

#[test]
fn quote_only_config_accepts_matching_pool() {
    let data = pool_data(1, 2, 0);
    assert_eq!(
        PoolValidator::validate_quote_only_config(&key(9), &key(9), &data, &key(1), &y_mint(&data)),
        Ok(())
    );
}

#[test]
fn quote_only_config_rejects_foreign_owner() {
    let data = pool_data(1, 2, 0);
    assert_eq!(
        PoolValidator::validate_quote_only_config(&key(8), &key(9), &data, &key(1), &y_mint(&data)),
        Err(HonoraryFeeError::PoolNotInitialized)
    );
}

#[test]
fn quote_only_config_rejects_missing_mint() {
    let data = pool_data(1, 2, 0);
    assert_eq!(
        PoolValidator::validate_quote_only_config(&key(9), &key(9), &data, &key(3), &y_mint(&data)),
        Err(HonoraryFeeError::InvalidTokenOrder)
    );
}

#[test]
fn quote_only_config_rejects_equal_mints() {
    let data = pool_data(1, 1, 0);
    assert_eq!(
        PoolValidator::validate_quote_only_config(&key(9), &key(9), &data, &key(1), &key(1)),
        Err(HonoraryFeeError::InvalidTokenOrder)
    );
}

#[test]
fn extract_token_mints_reads_pair() {
    let data = pool_data(4, 5, 0);
    assert_eq!(
        PoolValidator::extract_token_mints(&key(9), &key(9), &data),
        Ok((key(4), y_mint(&data)))
    );
    assert_eq!(
        PoolValidator::extract_token_mints(&key(8), &key(9), &data),
        Err(HonoraryFeeError::PoolNotInitialized)
    );
}

#[test]
fn tick_range_below_price_when_quote_is_x() {
    let data = pool_data(1, 2, 500);
    assert_eq!(
        PoolValidator::calculate_quote_only_tick_range(&data, &key(1)),
        Ok((-887272, 500))
    );
}

#[test]
fn tick_range_above_price_when_quote_is_y() {
    let data = pool_data(1, 2, 500);
    assert_eq!(
        PoolValidator::calculate_quote_only_tick_range(&data, &y_mint(&data)),
        Ok((500, 887272))
    );
}

#[test]
fn tick_range_rejects_unknown_quote() {
    let data = pool_data(1, 2, 500);
    assert_eq!(
        PoolValidator::calculate_quote_only_tick_range(&data, &key(3)),
        Err(HonoraryFeeError::InvalidQuoteMint)
    );
}

#[test]
fn claim_check_accepts_pure_quote_claim() {
    assert_eq!(
        PoolValidator::detect_base_fees_in_claim(5000, 0, &key(1), &key(1), &key(2)),
        Ok(())
    );
    assert_eq!(
        PoolValidator::detect_base_fees_in_claim(0, 5000, &key(2), &key(1), &key(2)),
        Ok(())
    );
}

#[test]
fn claim_check_rejects_base_fees() {
    assert_eq!(
        PoolValidator::detect_base_fees_in_claim(5000, 1, &key(1), &key(1), &key(2)),
        Err(HonoraryFeeError::BaseFeesDetected)
    );
    assert_eq!(
        PoolValidator::detect_base_fees_in_claim(1, 5000, &key(2), &key(1), &key(2)),
        Err(HonoraryFeeError::BaseFeesDetected)
    );
}

#[test]
fn claim_check_rejects_unknown_quote() {
    assert_eq!(
        PoolValidator::detect_base_fees_in_claim(0, 0, &key(3), &key(1), &key(2)),
        Err(HonoraryFeeError::InvalidTokenOrder)
    );
}

#[test]
fn pool_for_distribution_checks_owner() {
    assert_eq!(
        PoolValidator::validate_pool_for_distribution(&key(9), &key(9)),
        Ok(())
    );
    assert_eq!(
        PoolValidator::validate_pool_for_distribution(&key(8), &key(9)),
        Err(HonoraryFeeError::InvalidStreamAccount)
    );
}

#[test]
fn current_tick_extraction() {
    let data = pool_data(1, 2, -42);
    assert_eq!(PoolValidator::extract_current_tick(&data), Ok(-42));
}

#[test]
fn position_must_sit_below_price_for_quote_x() {
    let data = pool_data(1, 2, 100);
    assert_eq!(
        PoolValidator::validate_position_for_quote_only_fees(&data, &key(1), -500, 99),
        Ok(())
    );
    assert_eq!(
        PoolValidator::validate_position_for_quote_only_fees(&data, &key(1), -500, 100),
        Err(HonoraryFeeError::InvalidTokenOrder)
    );
}

#[test]
fn position_must_sit_above_price_for_quote_y() {
    let data = pool_data(1, 2, 100);
    assert_eq!(
        PoolValidator::validate_position_for_quote_only_fees(&data, &y_mint(&data), 101, 500),
        Ok(())
    );
    assert_eq!(
        PoolValidator::validate_position_for_quote_only_fees(&data, &y_mint(&data), 100, 500),
        Err(HonoraryFeeError::InvalidTokenOrder)
    );
}
