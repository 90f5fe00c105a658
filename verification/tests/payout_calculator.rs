//! Tests of the proportional payout calculator, the daily cap and the
//! invocation guards.

use star_damm_honorary_fee::enhanced_utils::{
    AccountParser, EnhancedMathUtil, ValidationUtil,
};
use star_damm_honorary_fee::error::HonoraryFeeError;

#[test]
fn distribution_exact_split() {
    // Weights [100, 200, 300] split 600 exactly: no dust.
    let (payouts, paid, dust) =
        EnhancedMathUtil::calculate_proportional_distribution_with_dust(600, &vec![100, 200, 300], 0)
            .unwrap();
    assert_eq!(payouts, vec![100, 200, 300]);
    assert_eq!(paid, 600);
    assert_eq!(dust, 0);
}

#[test]
fn distribution_rounding_dust() {
    // Three equal weights cannot split 10 evenly: 1 unit of rounding dust.
    let (payouts, paid, dust) =
        EnhancedMathUtil::calculate_proportional_distribution_with_dust(10, &vec![1, 1, 1], 0)
            .unwrap();
    assert_eq!(payouts, vec![3, 3, 3]);
    assert_eq!(paid, 9);
    assert_eq!(dust, 1);
}

#[test]
fn distribution_threshold_withholds() {
    // The first share (10) is below the threshold of 50 and is withheld;
    // the dust is the withheld share plus the rounding loss.
    let (payouts, paid, dust) =
        EnhancedMathUtil::calculate_proportional_distribution_with_dust(510, &vec![10, 500], 50)
            .unwrap();
    assert_eq!(payouts, vec![0, 500]);
    assert_eq!(paid, 500);
    assert_eq!(dust, 10);
}

#[test]
fn distribution_conserves_exactly() {
    // Conservation holds on uneven inputs: paid + dust == total.
    for (total, weights, threshold) in [
        (7u64, vec![2u64, 3], 2u64),
        (1_000_003, vec![17, 19, 23, 29], 0),
        (999, vec![0, 1, 0, 2], 100),
        (12345, vec![1, 10_000_000], 3),
    ] {
        let (payouts, paid, dust) =
            EnhancedMathUtil::calculate_proportional_distribution_with_dust(
                total, &weights, threshold,
            )
            .unwrap();
        assert_eq!(paid + dust, total);
        assert_eq!(paid, payouts.iter().sum::<u64>());
    }
}

#[test]
fn distribution_empty_weights() {
    let (payouts, paid, dust) =
        EnhancedMathUtil::calculate_proportional_distribution_with_dust(600, &vec![], 0).unwrap();
    assert!(payouts.is_empty());
    assert_eq!(paid, 0);
    assert_eq!(dust, 600);
}

#[test]
fn distribution_all_zero_weights() {
    let (payouts, paid, dust) =
        EnhancedMathUtil::calculate_proportional_distribution_with_dust(600, &vec![0, 0], 0)
            .unwrap();
    assert_eq!(payouts, vec![0, 0]);
    assert_eq!(paid, 0);
    assert_eq!(dust, 600);
}

#[test]
fn distribution_weight_sum_overflow() {
    assert_eq!(
        EnhancedMathUtil::calculate_proportional_distribution_with_dust(
            1,
            &vec![u64::MAX, 1],
            0
        ),
        Err(HonoraryFeeError::ArithmeticOverflow)
    );
}

#[test]
fn distribution_product_overflow() {
    assert_eq!(
        EnhancedMathUtil::calculate_proportional_distribution_with_dust(
            u64::MAX,
            &vec![2, 1],
            0
        ),
        Err(HonoraryFeeError::ArithmeticOverflow)
    );
}

#[test]
fn daily_cap_scenario() {
    // Cap 10000 with 9000 already distributed leaves headroom 1000.
    assert_eq!(
        EnhancedMathUtil::apply_daily_cap(2000, 10000, 9000),
        Ok((1000, 1000))
    );
}

#[test]
fn daily_cap_zero_means_unlimited() {
    assert_eq!(
        EnhancedMathUtil::apply_daily_cap(2000, 0, 9000),
        Ok((2000, 0))
    );
}

#[test]
fn daily_cap_exhausted() {
    assert_eq!(
        EnhancedMathUtil::apply_daily_cap(2000, 10000, 12000),
        Ok((0, 2000))
    );
}

#[test]
fn daily_cap_not_binding() {
    assert_eq!(
        EnhancedMathUtil::apply_daily_cap(500, 10000, 9000),
        Ok((500, 0))
    );
}

#[test]
fn invariant_check_accepts_and_rejects() {
    assert_eq!(
        EnhancedMathUtil::validate_distribution_invariants(100, 40, 10, 50),
        Ok(())
    );
    assert_eq!(
        EnhancedMathUtil::validate_distribution_invariants(100, 40, 11, 50),
        Err(HonoraryFeeError::ArithmeticOverflow)
    );
    assert_eq!(
        EnhancedMathUtil::validate_distribution_invariants(100, u64::MAX, 1, 0),
        Err(HonoraryFeeError::ArithmeticOverflow)
    );
}

#[test]
fn timing_continues_open_day_without_cooldown() {
    assert_eq!(
        ValidationUtil::validate_timing_constraints(1000, 1001, false),
        Ok(false)
    );
}

#[test]
fn timing_opens_day_after_cooldown() {
    assert_eq!(
        ValidationUtil::validate_timing_constraints(1000, 1000 + 86_400, true),
        Ok(true)
    );
}

#[test]
fn timing_rejects_early_new_day() {
    assert_eq!(
        ValidationUtil::validate_timing_constraints(1000, 1000 + 86_399, true),
        Err(HonoraryFeeError::CooldownNotElapsed)
    );
}

#[test]
fn pagination_cursor_bounds() {
    assert_eq!(ValidationUtil::validate_pagination_cursor(0, 3, 2), Ok(()));
    assert_eq!(ValidationUtil::validate_pagination_cursor(3, 3, 2), Ok(()));
    assert_eq!(
        ValidationUtil::validate_pagination_cursor(4, 3, 2),
        Err(HonoraryFeeError::InvalidPaginationCursor)
    );
    assert_eq!(
        ValidationUtil::validate_pagination_cursor(0, 3, 0),
        Err(HonoraryFeeError::InvalidPaginationCursor)
    );
    assert_eq!(
        ValidationUtil::validate_pagination_cursor(0, 3, 101),
        Err(HonoraryFeeError::InvalidPaginationCursor)
    );
}

#[test]
fn investor_accounts_must_pair_up() {
    assert_eq!(
        ValidationUtil::validate_investor_accounts(&vec![10]),
        Err(HonoraryFeeError::InvalidStreamAccount)
    );
    assert_eq!(
        ValidationUtil::validate_investor_accounts(&vec![0, 10]),
        Err(HonoraryFeeError::InvalidStreamAccount)
    );
    assert_eq!(
        ValidationUtil::validate_investor_accounts(&vec![10, 0]),
        Err(HonoraryFeeError::InvalidTreasury)
    );
    assert_eq!(
        ValidationUtil::validate_investor_accounts(&vec![10, 10, 5, 5]),
        Ok(())
    );
    assert_eq!(ValidationUtil::validate_investor_accounts(&vec![]), Ok(()));
}

#[test]
fn stream_parsing_reads_layout() {
    let mut data = vec![0u8; 100];
    // locked amount 123_456 little-endian at the head
    data[0] = 0x40;
    data[1] = 0xE2;
    data[2] = 0x01;
    for i in 8..40 {
        data[i] = 7;
    }
    let key = vec![9u8; 32];
    let stream = AccountParser::parse_streamflow_stream(&key, &data).unwrap();
    assert_eq!(stream.locked_amount, 123_456);
    assert_eq!(stream.recipient, vec![7u8; 32]);
    assert_eq!(stream.stream_pubkey, key);
}

#[test]
fn stream_parsing_rejects_short_account() {
    let key = vec![9u8; 32];
    assert_eq!(
        AccountParser::parse_streamflow_stream(&key, &vec![0u8; 99]),
        Err(HonoraryFeeError::InvalidStreamAccount)
    );
}
