//! Overflow-checked arithmetic primitives and the share-of-fees formulas.

use vstd::prelude::*;

use crate::error::HonoraryFeeError;

verus! {

/// Number of basis points in the whole: shares are expressed in 1/10000ths.
pub const BPS_DENOMINATOR: u64 = 10000;

/// Seconds in one distribution day.
pub const SECONDS_PER_DAY: i64 = 86400;

/// The eligible investor share in basis points: the locked fraction of the
/// total allocation, floored to basis points and capped by the policy
/// ceiling.  Zero when the allocation is zero.
pub open spec fn spec_eligible_share_bps(
    locked_total: u64,
    total_allocation: u64,
    max_investor_share_bps: u16,
) -> int {
    if total_allocation == 0 {
        0
    } else {
        let f_locked_bps = locked_total * BPS_DENOMINATOR / (total_allocation as int);
        if f_locked_bps <= max_investor_share_bps {
            f_locked_bps
        } else {
            max_investor_share_bps as int
        }
    }
}

/// The proportional payout of one weight out of a total weight, floored.
pub open spec fn spec_proportional_payout(total_amount: u64, weight: u64, total_weight: u64) -> int
    recommends
        total_weight > 0,
{
    total_amount * weight / (total_weight as int)
}

/// Mathematical utilities with overflow protection.  Every arithmetic step of
/// the engine routes through these; nothing wraps or truncates silently.
pub struct MathUtil;

impl MathUtil {
    /// Multiplication that fails with `ArithmeticOverflow` instead of wrapping.
    pub fn safe_mul(a: u64, b: u64) -> (r: Result<u64, HonoraryFeeError>)
        ensures
            a * b <= u64::MAX ==> r == Ok::<u64, HonoraryFeeError>((a * b) as u64),
            a * b > u64::MAX ==> r == Err::<u64, HonoraryFeeError>(
                HonoraryFeeError::ArithmeticOverflow,
            ),
    {
        match a.checked_mul(b) {
            Some(v) => Ok(v),
            None => Err(HonoraryFeeError::ArithmeticOverflow),
        }
    }

    /// Division that fails with `ArithmeticOverflow` on a zero divisor.
    pub fn safe_div(a: u64, b: u64) -> (r: Result<u64, HonoraryFeeError>)
        ensures
            b != 0 ==> r == Ok::<u64, HonoraryFeeError>((a as int / b as int) as u64),
            b == 0 ==> r == Err::<u64, HonoraryFeeError>(HonoraryFeeError::ArithmeticOverflow),
    {
        if b == 0 {
            return Err(HonoraryFeeError::ArithmeticOverflow);
        }
        Ok(a / b)
    }

    /// Addition that fails with `ArithmeticOverflow` instead of wrapping.
    pub fn safe_add(a: u64, b: u64) -> (r: Result<u64, HonoraryFeeError>)
        ensures
            a + b <= u64::MAX ==> r == Ok::<u64, HonoraryFeeError>((a + b) as u64),
            a + b > u64::MAX ==> r == Err::<u64, HonoraryFeeError>(
                HonoraryFeeError::ArithmeticOverflow,
            ),
    {
        match a.checked_add(b) {
            Some(v) => Ok(v),
            None => Err(HonoraryFeeError::ArithmeticOverflow),
        }
    }

    /// Subtraction that fails with `ArithmeticOverflow` instead of wrapping.
    pub fn safe_sub(a: u64, b: u64) -> (r: Result<u64, HonoraryFeeError>)
        ensures
            a >= b ==> r == Ok::<u64, HonoraryFeeError>((a - b) as u64),
            a < b ==> r == Err::<u64, HonoraryFeeError>(HonoraryFeeError::ArithmeticOverflow),
    {
        match a.checked_sub(b) {
            Some(v) => Ok(v),
            None => Err(HonoraryFeeError::ArithmeticOverflow),
        }
    }

    /// Floor-divided proportional payout of one weight, together with the
    /// remainder of the total that it leaves behind.
    pub fn calculate_proportional_payout(
        total_amount: u64,
        weight: u64,
        total_weight: u64,
    ) -> (r: Result<(u64, u64), HonoraryFeeError>)
        ensures
            total_weight == 0 ==> r == Ok::<(u64, u64), HonoraryFeeError>((0u64, total_amount)),
            total_weight != 0 && total_amount * weight > u64::MAX ==> r == Err::<
                (u64, u64),
                HonoraryFeeError,
            >(HonoraryFeeError::ArithmeticOverflow),
            total_weight != 0 && total_amount * weight <= u64::MAX ==> {
                let payout = spec_proportional_payout(total_amount, weight, total_weight);
                if payout <= total_amount {
                    r == Ok::<(u64, u64), HonoraryFeeError>(
                        (payout as u64, (total_amount - payout) as u64),
                    )
                } else {
                    r == Err::<(u64, u64), HonoraryFeeError>(HonoraryFeeError::ArithmeticOverflow)
                }
            },
    {
        if total_weight == 0 {
            return Ok((0, total_amount));
        }
        let product = Self::safe_mul(total_amount, weight)?;
        let payout = Self::safe_div(product, total_weight)?;
        let remainder = Self::safe_sub(total_amount, payout)?;
        Ok((payout, remainder))
    }

    /// The eligible investor share in basis points: the fraction of the
    /// genesis allocation still locked, floored to basis points, never more
    /// than the policy ceiling.
    pub fn calculate_eligible_share_bps(
        locked_total: u64,
        total_allocation: u64,
        max_investor_share_bps: u16,
    ) -> (r: Result<u16, HonoraryFeeError>)
        ensures
            total_allocation == 0 ==> r == Ok::<u16, HonoraryFeeError>(0u16),
            total_allocation != 0 && locked_total * BPS_DENOMINATOR > u64::MAX ==> r == Err::<
                u16,
                HonoraryFeeError,
            >(HonoraryFeeError::ArithmeticOverflow),
            total_allocation != 0 && locked_total * BPS_DENOMINATOR <= u64::MAX ==> r == Ok::<
                u16,
                HonoraryFeeError,
            >(
                spec_eligible_share_bps(locked_total, total_allocation, max_investor_share_bps)
                    as u16,
            ),
    {
        if total_allocation == 0 {
            return Ok(0);
        }
        let scaled = Self::safe_mul(locked_total, BPS_DENOMINATOR)?;
        let f_locked_bps = Self::safe_div(scaled, total_allocation)?;
        if f_locked_bps <= max_investor_share_bps as u64 {
            Ok(f_locked_bps as u16)
        } else {
            Ok(max_investor_share_bps)
        }
    }

    /// Whether a full distribution day has elapsed between the two timestamps.
    pub fn is_24h_elapsed(last_ts: i64, current_ts: i64) -> (r: bool)
        ensures
            r == (current_ts - last_ts >= SECONDS_PER_DAY),
    {
        (current_ts as i128) - (last_ts as i128) >= SECONDS_PER_DAY as i128
    }
}

/// Law: for a fixed total allocation the eligible share is non-decreasing in
/// the locked total, and it never exceeds the policy ceiling.
pub proof fn lemma_eligible_share_bps_monotonic(
    locked_a: u64,
    locked_b: u64,
    total_allocation: u64,
    max_investor_share_bps: u16,
)
    requires
        locked_a <= locked_b,
    ensures
        spec_eligible_share_bps(locked_a, total_allocation, max_investor_share_bps)
            <= spec_eligible_share_bps(locked_b, total_allocation, max_investor_share_bps),
        spec_eligible_share_bps(locked_a, total_allocation, max_investor_share_bps)
            <= max_investor_share_bps,
        spec_eligible_share_bps(locked_a, total_allocation, max_investor_share_bps) >= 0,
{
    if total_allocation != 0 {
        vstd::arithmetic::mul::lemma_mul_inequality(
            locked_a as int,
            locked_b as int,
            BPS_DENOMINATOR as int,
        );
        vstd::arithmetic::div_mod::lemma_div_is_ordered(
            locked_a * BPS_DENOMINATOR,
            locked_b * BPS_DENOMINATOR,
            total_allocation as int,
        );
        vstd::arithmetic::div_mod::lemma_div_pos_is_pos(
            locked_a * BPS_DENOMINATOR,
            total_allocation as int,
        );
    }
}

} // verus!
