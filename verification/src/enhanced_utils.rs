//! The page-level payout calculator: proportional distribution with dust and
//! threshold handling, daily-cap application, and the validation utilities
//! that guard an invocation.

use vstd::arithmetic::div_mod::{
    lemma_div_is_ordered, lemma_div_pos_is_pos, lemma_fundamental_div_mod,
    lemma_fundamental_div_mod_converse_div, lemma_div_multiples_vanish,
};
use vstd::arithmetic::mul::{lemma_mul_is_commutative, lemma_mul_is_distributive_add};
use vstd::prelude::*;

use crate::error::HonoraryFeeError;

verus! {

/// The sum of a sequence of weights, as an unbounded integer.
pub open spec fn spec_sum_weights(ws: Seq<u64>) -> int
    decreases ws.len(),
{
    if ws.len() == 0 {
        0
    } else {
        spec_sum_weights(ws.drop_last()) + ws.last()
    }
}

/// The floored proportional share of one weight, with the sub-threshold
/// policy applied: a share below the minimum payout threshold is withheld.
pub open spec fn spec_threshold_payout(
    total_amount: u64,
    weight: u64,
    total_weight: int,
    min_payout_threshold: u64,
) -> int
    recommends
        total_weight > 0,
{
    let raw = total_amount * weight / total_weight;
    if raw >= min_payout_threshold {
        raw
    } else {
        0
    }
}

/// The total actually paid over a sequence of weights.
pub open spec fn spec_sum_payouts(
    total_amount: u64,
    ws: Seq<u64>,
    total_weight: int,
    min_payout_threshold: u64,
) -> int
    decreases ws.len(),
{
    if ws.len() == 0 {
        0
    } else {
        spec_sum_payouts(total_amount, ws.drop_last(), total_weight, min_payout_threshold)
            + spec_threshold_payout(total_amount, ws.last(), total_weight, min_payout_threshold)
    }
}

/// When the proportional calculator must fail with `ArithmeticOverflow`:
/// the weights do not sum within `u64`, or some single proportional product
/// does not fit.
pub open spec fn spec_distribution_overflows(total_amount: u64, ws: Seq<u64>) -> bool {
    spec_sum_weights(ws) > u64::MAX || (spec_sum_weights(ws) > 0 && exists|k: int|
        0 <= k < ws.len() && total_amount * ws[k] > u64::MAX)
}

/// The headroom the daily cap leaves, clamped at zero.
pub open spec fn spec_remaining_cap(daily_cap: u64, already_distributed: u64) -> int {
    if already_distributed <= daily_cap {
        daily_cap - already_distributed
    } else {
        0
    }
}

proof fn lemma_sum_weights_take_step(ws: Seq<u64>, i: int)
    requires
        0 <= i < ws.len(),
    ensures
        spec_sum_weights(ws.take(i + 1)) == spec_sum_weights(ws.take(i)) + ws[i],
{
    assert(ws.take(i + 1).drop_last() =~= ws.take(i));
    assert(ws.take(i + 1).last() == ws[i]);
}

proof fn lemma_sum_payouts_take_step(
    total_amount: u64,
    ws: Seq<u64>,
    total_weight: int,
    min_payout_threshold: u64,
    i: int,
)
    requires
        0 <= i < ws.len(),
    ensures
        spec_sum_payouts(total_amount, ws.take(i + 1), total_weight, min_payout_threshold)
            == spec_sum_payouts(total_amount, ws.take(i), total_weight, min_payout_threshold)
            + spec_threshold_payout(total_amount, ws[i], total_weight, min_payout_threshold),
{
    assert(ws.take(i + 1).drop_last() =~= ws.take(i));
    assert(ws.take(i + 1).last() == ws[i]);
}

/// A sum of weights is never negative.
pub proof fn lemma_sum_weights_nonneg(ws: Seq<u64>)
    ensures
        spec_sum_weights(ws) >= 0,
    decreases ws.len(),
{
    if ws.len() > 0 {
        lemma_sum_weights_nonneg(ws.drop_last());
    }
}

/// A prefix of the weights never sums to more than the whole sequence.
proof fn lemma_sum_weights_take_le(ws: Seq<u64>, i: int)
    requires
        0 <= i <= ws.len(),
    ensures
        spec_sum_weights(ws.take(i)) <= spec_sum_weights(ws),
    decreases ws.len() - i,
{
    if i == ws.len() {
        assert(ws.take(i) =~= ws);
    } else {
        lemma_sum_weights_take_step(ws, i);
        lemma_sum_weights_take_le(ws, i + 1);
    }
}

/// Floor division distributes over addition with a loss: the sum of two
/// floored quotients never exceeds the floored quotient of the sum.
proof fn lemma_div_sum_le(a: int, b: int, d: int)
    requires
        a >= 0,
        b >= 0,
        d > 0,
    ensures
        a / d + b / d <= (a + b) / d,
{
    lemma_fundamental_div_mod(a, d);
    lemma_fundamental_div_mod(b, d);
    lemma_mul_is_distributive_add(d, a / d, b / d);
    if a % d + b % d < d {
        lemma_fundamental_div_mod_converse_div(a + b, d, a / d + b / d, a % d + b % d);
    } else {
        lemma_mul_is_distributive_add(d, a / d + b / d, 1);
        lemma_fundamental_div_mod_converse_div(a + b, d, a / d + b / d + 1, a % d + b % d - d);
    }
}

/// The paid total over any prefix is bounded by the proportional share of
/// that prefix's weight in the total amount.
proof fn lemma_sum_payouts_bound(
    total_amount: u64,
    ws: Seq<u64>,
    total_weight: int,
    min_payout_threshold: u64,
)
    requires
        total_weight > 0,
    ensures
        spec_sum_payouts(total_amount, ws, total_weight, min_payout_threshold)
            <= total_amount * spec_sum_weights(ws) / total_weight,
    decreases ws.len(),
{
    if ws.len() == 0 {
        assert(total_amount * 0 == 0);
    } else {
        let prefix = ws.drop_last();
        let w = ws.last();
        lemma_sum_payouts_bound(total_amount, prefix, total_weight, min_payout_threshold);
        lemma_sum_weights_nonneg(prefix);
        lemma_div_pos_is_pos(total_amount * w, total_weight);
        vstd::arithmetic::mul::lemma_mul_nonnegative(total_amount as int, w as int);
        vstd::arithmetic::mul::lemma_mul_nonnegative(
            total_amount as int,
            spec_sum_weights(prefix),
        );
        lemma_div_sum_le(
            total_amount * spec_sum_weights(prefix),
            total_amount * w,
            total_weight,
        );
        lemma_mul_is_distributive_add(total_amount as int, spec_sum_weights(prefix), w as int);
    }
}

/// No payout is negative, so neither is any partial paid total.
pub proof fn lemma_sum_payouts_nonneg(
    total_amount: u64,
    ws: Seq<u64>,
    total_weight: int,
    min_payout_threshold: u64,
)
    requires
        total_weight > 0,
    ensures
        spec_sum_payouts(total_amount, ws, total_weight, min_payout_threshold) >= 0,
    decreases ws.len(),
{
    if ws.len() > 0 {
        lemma_sum_payouts_nonneg(total_amount, ws.drop_last(), total_weight, min_payout_threshold);
        vstd::arithmetic::mul::lemma_mul_nonnegative(total_amount as int, ws.last() as int);
        lemma_div_pos_is_pos(total_amount * ws.last(), total_weight);
    }
}

/// The paid total over the whole weight sequence never exceeds the amount
/// being distributed.
pub proof fn lemma_sum_payouts_le_total(total_amount: u64, ws: Seq<u64>, min_payout_threshold: u64)
    requires
        spec_sum_weights(ws) > 0,
    ensures
        spec_sum_payouts(total_amount, ws, spec_sum_weights(ws), min_payout_threshold)
            <= total_amount,
{
    let tw = spec_sum_weights(ws);
    lemma_sum_payouts_bound(total_amount, ws, tw, min_payout_threshold);
    lemma_mul_is_commutative(total_amount as int, tw);
    lemma_div_multiples_vanish(total_amount as int, tw);
}

/// Enhanced mathematical utilities: the page-level payout calculator.
pub struct EnhancedMathUtil;

impl EnhancedMathUtil {
    /// Proportional distribution of `total_amount` over `weights` with floor
    /// rounding, a minimum payout threshold, and exact dust accounting.
    ///
    /// Returns `(payouts, total_paid, dust)`.  Conservation holds exactly:
    /// `total_paid + dust == total_amount`.  The dust is the floor-rounding
    /// loss plus every withheld sub-threshold share; it stays in the
    /// undistributed pool rather than being stranded.
    pub fn calculate_proportional_distribution_with_dust(
        total_amount: u64,
        weights: &Vec<u64>,
        min_payout_threshold: u64,
    ) -> (r: Result<(Vec<u64>, u64, u64), HonoraryFeeError>)
        ensures
            r is Ok <==> !spec_distribution_overflows(total_amount, weights@),
            r matches Err(e) ==> e == HonoraryFeeError::ArithmeticOverflow,
            r matches Ok(out) ==> {
                let tw = spec_sum_weights(weights@);
                &&& out.0@.len() == weights@.len()
                &&& out.1 + out.2 == total_amount
                &&& out.1 <= total_amount
                &&& (tw == 0 ==> out.1 == 0 && (forall|k: int|
                    0 <= k < weights@.len() ==> out.0@[k] == 0u64))
                &&& (tw > 0 ==> {
                    &&& (forall|k: int|
                        0 <= k < weights@.len() ==> out.0@[k] == spec_threshold_payout(
                            total_amount,
                            weights@[k],
                            tw,
                            min_payout_threshold,
                        ))
                    &&& out.1 == spec_sum_payouts(
                        total_amount,
                        weights@,
                        tw,
                        min_payout_threshold,
                    )
                })
            },
    {
        let n = weights.len();
        if n == 0 {
            return Ok((Vec::new(), 0, total_amount));
        }

        let mut total_weight: u64 = 0;
        let mut i: usize = 0;
        while i < n
            invariant
                n == weights@.len(),
                0 <= i <= n,
                total_weight == spec_sum_weights(weights@.take(i as int)),
            decreases n - i,
        {
            proof {
                lemma_sum_weights_take_step(weights@, i as int);
            }
            total_weight = match total_weight.checked_add(weights[i]) {
                Some(v) => v,
                None => {
                    proof {
                        lemma_sum_weights_take_le(weights@, i as int + 1);
                    }
                    return Err(HonoraryFeeError::ArithmeticOverflow);
                },
            };
            i += 1;
        }
        proof {
            assert(weights@.take(n as int) =~= weights@);
        }

        if total_weight == 0 {
            let mut zeros: Vec<u64> = Vec::new();
            let mut j: usize = 0;
            while j < n
                invariant
                    0 <= j <= n,
                    zeros@.len() == j,
                    forall|k: int| 0 <= k < j ==> zeros@[k] == 0u64,
                decreases n - j,
            {
                zeros.push(0);
                j += 1;
            }
            return Ok((zeros, 0, total_amount));
        }

        let mut payouts: Vec<u64> = Vec::new();
        let mut total_paid: u64 = 0;
        let mut i: usize = 0;
        while i < n
            invariant
                n == weights@.len(),
                0 <= i <= n,
                total_weight == spec_sum_weights(weights@),
                total_weight > 0,
                payouts@.len() == i,
                forall|k: int|
                    0 <= k < i ==> payouts@[k] == spec_threshold_payout(
                        total_amount,
                        weights@[k],
                        total_weight as int,
                        min_payout_threshold,
                    ),
                forall|k: int| 0 <= k < i ==> total_amount * weights@[k] <= u64::MAX,
                total_paid == spec_sum_payouts(
                    total_amount,
                    weights@.take(i as int),
                    total_weight as int,
                    min_payout_threshold,
                ),
                total_paid <= total_amount,
            decreases n - i,
        {
            let w = weights[i];
            let product = match total_amount.checked_mul(w) {
                Some(p) => p,
                None => {
                    return Err(HonoraryFeeError::ArithmeticOverflow);
                },
            };
            let raw = product / total_weight;
            let payout = if raw >= min_payout_threshold {
                raw
            } else {
                0
            };
            proof {
                lemma_sum_payouts_take_step(
                    total_amount,
                    weights@,
                    total_weight as int,
                    min_payout_threshold,
                    i as int,
                );
                lemma_sum_payouts_bound(
                    total_amount,
                    weights@.take(i as int + 1),
                    total_weight as int,
                    min_payout_threshold,
                );
                lemma_sum_weights_take_le(weights@, i as int + 1);
                lemma_sum_weights_nonneg(weights@.take(i as int + 1));
                vstd::arithmetic::mul::lemma_mul_inequality(
                    spec_sum_weights(weights@.take(i as int + 1)),
                    total_weight as int,
                    total_amount as int,
                );
                lemma_mul_is_commutative(
                    total_amount as int,
                    spec_sum_weights(weights@.take(i as int + 1)),
                );
                lemma_mul_is_commutative(total_amount as int, total_weight as int);
                lemma_div_is_ordered(
                    total_amount * spec_sum_weights(weights@.take(i as int + 1)),
                    total_amount * total_weight,
                    total_weight as int,
                );
                lemma_mul_is_commutative(total_amount as int, total_weight as int);
                lemma_div_multiples_vanish(total_amount as int, total_weight as int);
            }
            total_paid = total_paid + payout;
            payouts.push(payout);
            i += 1;
        }
        proof {
            assert(weights@.take(n as int) =~= weights@);
        }

        let dust = total_amount - total_paid;
        Ok((payouts, total_paid, dust))
    }

    /// Applies the optional daily cap: a cap of zero means unlimited; a
    /// positive cap limits the pay-out to the headroom the day still has,
    /// clamped at zero.  Returns `(capped, excess)`.
    pub fn apply_daily_cap(
        requested_amount: u64,
        daily_cap: u64,
        already_distributed: u64,
    ) -> (r: Result<(u64, u64), HonoraryFeeError>)
        ensures
            daily_cap == 0 ==> r == Ok::<(u64, u64), HonoraryFeeError>((requested_amount, 0u64)),
            daily_cap > 0 ==> ({
                let headroom = spec_remaining_cap(daily_cap, already_distributed);
                let capped = if requested_amount <= headroom {
                    requested_amount as int
                } else {
                    headroom
                };
                &&& r == Ok::<(u64, u64), HonoraryFeeError>(
                    (capped as u64, (requested_amount - capped) as u64),
                )
                &&& capped <= headroom
            }),
    {
        if daily_cap == 0 {
            return Ok((requested_amount, 0));
        }
        let remaining_cap = if already_distributed <= daily_cap {
            daily_cap - already_distributed
        } else {
            0
        };
        let capped_amount = if requested_amount <= remaining_cap {
            requested_amount
        } else {
            remaining_cap
        };
        let excess = requested_amount - capped_amount;
        Ok((capped_amount, excess))
    }

    /// Checks the day-level conservation inequality: what was paid out, held
    /// over and earmarked for the creator can never exceed what was claimed.
    pub fn validate_distribution_invariants(
        total_claimed: u64,
        total_distributed: u64,
        carry_over: u64,
        creator_remainder: u64,
    ) -> (r: Result<(), HonoraryFeeError>)
        ensures
            r == if total_distributed + carry_over + creator_remainder <= total_claimed {
                Ok::<(), HonoraryFeeError>(())
            } else {
                Err::<(), HonoraryFeeError>(HonoraryFeeError::ArithmeticOverflow)
            },
    {
        let partial = match total_distributed.checked_add(carry_over) {
            Some(v) => v,
            None => {
                return Err(HonoraryFeeError::ArithmeticOverflow);
            },
        };
        let total_accounted = match partial.checked_add(creator_remainder) {
            Some(v) => v,
            None => {
                return Err(HonoraryFeeError::ArithmeticOverflow);
            },
        };
        if total_accounted <= total_claimed {
            Ok(())
        } else {
            Err(HonoraryFeeError::ArithmeticOverflow)
        }
    }
}

/// Largest page a single invocation may process.
pub const MAX_PAGE_SIZE: u64 = 100;

/// The outcome of checking investor account pairs: the list must hold
/// stream/destination pairs, and no account of a pair may be empty.  The
/// first offending account decides the error.
pub open spec fn spec_validate_investor_accounts(lens: Seq<usize>) -> Result<
    (),
    HonoraryFeeError,
>
    decreases lens.len(),
{
    if lens.len() % 2 != 0 {
        Err(HonoraryFeeError::InvalidStreamAccount)
    } else if lens.len() == 0 {
        Ok(())
    } else if lens[0] == 0 {
        Err(HonoraryFeeError::InvalidStreamAccount)
    } else if lens[1] == 0 {
        Err(HonoraryFeeError::InvalidTreasury)
    } else {
        spec_validate_investor_accounts(lens.skip(2))
    }
}

/// Validation utilities that guard one crank invocation.
pub struct ValidationUtil;

impl ValidationUtil {
    /// Validates the shape of the investor account list, given the byte
    /// length of each account's data: the list holds stream/destination
    /// pairs, and each account must be non-empty.
    pub fn validate_investor_accounts(account_data_lens: &Vec<usize>) -> (r: Result<
        (),
        HonoraryFeeError,
    >)
        ensures
            r == spec_validate_investor_accounts(account_data_lens@),
    {
        let n = account_data_lens.len();
        if n % 2 != 0 {
            return Err(HonoraryFeeError::InvalidStreamAccount);
        }
        let mut i: usize = 0;
        proof {
            assert(account_data_lens@.skip(0) =~= account_data_lens@);
        }
        while i < n
            invariant
                n == account_data_lens@.len(),
                n % 2 == 0,
                i % 2 == 0,
                0 <= i <= n,
                spec_validate_investor_accounts(account_data_lens@)
                    == spec_validate_investor_accounts(account_data_lens@.skip(i as int)),
            decreases n - i,
        {
            proof {
                assert(account_data_lens@.skip(i as int).len() == n - i);
                assert(account_data_lens@.skip(i as int)[0] == account_data_lens@[i as int]);
                assert(account_data_lens@.skip(i as int)[1] == account_data_lens@[i as int + 1]);
                assert(account_data_lens@.skip(i as int).skip(2) =~= account_data_lens@.skip(
                    i as int + 2,
                ));
            }
            if account_data_lens[i] == 0 {
                return Err(HonoraryFeeError::InvalidStreamAccount);
            }
            if account_data_lens[i + 1] == 0 {
                return Err(HonoraryFeeError::InvalidTreasury);
            }
            i += 2;
        }
        proof {
            assert(account_data_lens@.skip(n as int) =~= Seq::<usize>::empty());
        }
        Ok(())
    }

    /// Decides whether this invocation opens a new day.  A day opens only
    /// when the prior day is complete and the cooldown has elapsed; an open
    /// day is continued without re-checking the cooldown; a complete day
    /// whose cooldown has not elapsed is a timing error.
    pub fn validate_timing_constraints(
        last_distribution_ts: i64,
        current_ts: i64,
        day_complete: bool,
    ) -> (r: Result<bool, HonoraryFeeError>)
        ensures
            !day_complete ==> r == Ok::<bool, HonoraryFeeError>(false),
            day_complete && current_ts - last_distribution_ts >= crate::utils::SECONDS_PER_DAY
                ==> r == Ok::<bool, HonoraryFeeError>(true),
            day_complete && current_ts - last_distribution_ts < crate::utils::SECONDS_PER_DAY
                ==> r == Err::<bool, HonoraryFeeError>(HonoraryFeeError::CooldownNotElapsed),
    {
        if !day_complete {
            return Ok(false);
        }
        if crate::utils::MathUtil::is_24h_elapsed(last_distribution_ts, current_ts) {
            Ok(true)
        } else {
            Err(HonoraryFeeError::CooldownNotElapsed)
        }
    }

    /// Validates the pagination request: the page size must be positive and
    /// within the sane bound, and the cursor must not lie beyond the known
    /// investor count.
    pub fn validate_pagination_cursor(cursor: u64, total_accounts: usize, page_size: u64) -> (r:
        Result<(), HonoraryFeeError>)
        ensures
            r == if page_size == 0 || page_size > MAX_PAGE_SIZE || cursor > total_accounts
                as u64 {
                Err::<(), HonoraryFeeError>(HonoraryFeeError::InvalidPaginationCursor)
            } else {
                Ok::<(), HonoraryFeeError>(())
            },
    {
        if page_size == 0 || page_size > MAX_PAGE_SIZE {
            return Err(HonoraryFeeError::InvalidPaginationCursor);
        }
        if cursor > total_accounts as u64 {
            return Err(HonoraryFeeError::InvalidPaginationCursor);
        }
        Ok(())
    }
}

/// A vesting stream record, reconstructed from the vesting source's account
/// data; this system never persists it.
#[derive(Clone, Debug, PartialEq)]
pub struct StreamflowStreamData {
    /// Tokens still locked under the vesting schedule.
    pub locked_amount: u64,
    /// The recipient key held in the stream account.
    pub recipient: Vec<u8>,
    /// The stream account's own key.
    pub stream_pubkey: Vec<u8>,
}

/// Minimum byte length of a well-formed stream account.
pub const STREAM_MIN_LEN: usize = 100;

/// Safe decoding of vesting stream accounts.
pub struct AccountParser;

impl AccountParser {
    /// Decodes a vesting stream account: the locked amount is the
    /// little-endian word at the head of the data and the recipient key
    /// follows it.
    pub fn parse_streamflow_stream(stream_pubkey: &Vec<u8>, data: &Vec<u8>) -> (r: Result<
        StreamflowStreamData,
        HonoraryFeeError,
    >)
        ensures
            r is Ok <==> data@.len() >= STREAM_MIN_LEN,
            r matches Err(e) ==> e == HonoraryFeeError::InvalidStreamAccount,
            r matches Ok(s) ==> {
                &&& s.locked_amount == crate::codec::spec_u64_from_le(data@.subrange(0, 8))
                &&& s.recipient@ == data@.subrange(8, 40)
                &&& s.stream_pubkey@ == stream_pubkey@
            },
    {
        if data.len() < STREAM_MIN_LEN {
            return Err(HonoraryFeeError::InvalidStreamAccount);
        }
        let locked_amount = Self::extract_locked_amount(data)?;
        let recipient = Self::extract_recipient(data)?;
        Ok(
            StreamflowStreamData {
                locked_amount,
                recipient,
                stream_pubkey: crate::codec::copy_bytes(stream_pubkey, 0, stream_pubkey.len()),
            },
        )
    }

    /// The locked amount: the little-endian word at offset zero.
    fn extract_locked_amount(data: &Vec<u8>) -> (r: Result<u64, HonoraryFeeError>)
        ensures
            r is Ok <==> data@.len() >= 8,
            r matches Err(e) ==> e == HonoraryFeeError::InvalidStreamAccount,
            r matches Ok(v) ==> v == crate::codec::spec_u64_from_le(data@.subrange(0, 8)),
    {
        if data.len() < 8 {
            return Err(HonoraryFeeError::InvalidStreamAccount);
        }
        Ok(crate::codec::u64_from_le(data, 0))
    }

    /// The recipient key: the 32 bytes after the locked amount.
    fn extract_recipient(data: &Vec<u8>) -> (r: Result<Vec<u8>, HonoraryFeeError>)
        ensures
            r is Ok <==> data@.len() >= 40,
            r matches Err(e) ==> e == HonoraryFeeError::InvalidStreamAccount,
            r matches Ok(v) ==> v@ == data@.subrange(8, 40),
    {
        if data.len() < 40 {
            return Err(HonoraryFeeError::InvalidStreamAccount);
        }
        Ok(crate::codec::copy_bytes(data, 8, 32))
    }
}

} // verus!
