//! The distribution crank: the day/page state machine.  One invocation
//! opens a day (after the cooldown, with a validated fee claim), drives one
//! page of proportional payouts, and closes the day on the final page,
//! paying the undistributed remainder to the creator.
//!
//! Every function either commits its whole state transition or returns an
//! error and leaves the checkpoint untouched.

use vstd::prelude::*;

use crate::codec::copy_key;
use crate::enhanced_utils::{
    spec_distribution_overflows, spec_remaining_cap, spec_sum_payouts, spec_sum_weights,
    spec_threshold_payout, EnhancedMathUtil, ValidationUtil, MAX_PAGE_SIZE,
};
use crate::error::HonoraryFeeError;
use crate::events::{CreatorPayoutDayClosed, InvestorPayoutPage, QuoteFeesClaimed};
use crate::state::{PolicyState, ProgressState};
use crate::utils::{spec_eligible_share_bps, MathUtil, BPS_DENOMINATOR, SECONDS_PER_DAY};
use crate::validation::{spec_detect_base_fees_in_claim, PoolValidator};

verus! {

/// One investor's page entry, reconstructed fresh from the vesting source
/// for every page; this system never persists it.
#[derive(Clone, Debug, PartialEq)]
pub struct InvestorDistributionAccount {
    /// The investor's vesting stream account key.
    pub stream_account: Vec<u8>,
    /// The investor's quote token account key.
    pub investor_quote_ata: Vec<u8>,
    /// The investor's locked amount as observed at call time.
    pub locked_amount: u64,
}

/// Everything one page invocation decides: the per-investor payouts, the
/// page event, and the day-close event when this was the final page.  The
/// caller executes the transfers; if any of them fails, the host must roll
/// the whole invocation back.
#[derive(Clone, Debug, PartialEq)]
pub struct DistributionOutcome {
    /// Payout per page investor, aligned with the page's slice of the
    /// investor list.  A zero entry means the investor receives nothing.
    pub payouts: Vec<u64>,
    /// The page event.
    pub page_event: InvestorPayoutPage,
    /// The day-close event, present exactly when the page was the final one.
    pub day_closed: Option<CreatorPayoutDayClosed>,
}

/// The total locked amount over a list of investors.
pub open spec fn spec_sum_locked(investors: Seq<InvestorDistributionAccount>) -> int
    decreases investors.len(),
{
    if investors.len() == 0 {
        0
    } else {
        spec_sum_locked(investors.drop_last()) + investors.last().locked_amount
    }
}

/// One past the last investor index of the page at `cursor`.
pub open spec fn spec_page_end(cursor: int, page_size: u64, total: int) -> int {
    if cursor + page_size <= total {
        cursor + page_size
    } else {
        total
    }
}

/// The page's weights: the locked amounts of the investors in
/// `[cursor, end)`.
pub open spec fn spec_page_weights(
    investors: Seq<InvestorDistributionAccount>,
    cursor: int,
    end: int,
) -> Seq<u64>
    recommends
        0 <= cursor <= end <= investors.len(),
{
    investors.subrange(cursor, end).map_values(|inv: InvestorDistributionAccount| inv.locked_amount)
}

/// The complete page transition: what one `distribute_fees` invocation does
/// to the checkpoint, or the error that aborts it with nothing changed.
/// The `Ok` value carries the new checkpoint, the page payouts, the page
/// total, and the creator remainder when the page closed the day.
pub open spec fn spec_distribute_fees(
    policy: PolicyState,
    pre: ProgressState,
    investors: Seq<InvestorDistributionAccount>,
    page_size: u64,
) -> Result<(ProgressState, Seq<int>, int, Option<int>), HonoraryFeeError>
    recommends
        policy.wf(),
        pre.wf(),
{
    let total = investors.len() as int;
    let cursor = pre.pagination_cursor as int;
    if pre.day_complete {
        Err(HonoraryFeeError::DistributionComplete)
    } else if page_size == 0 || page_size > MAX_PAGE_SIZE || cursor > total {
        Err(HonoraryFeeError::InvalidPaginationCursor)
    } else if pre.daily_claimed_total + pre.carry_over > u64::MAX {
        Err(HonoraryFeeError::ArithmeticOverflow)
    } else if spec_sum_locked(investors) > u64::MAX {
        Err(HonoraryFeeError::ArithmeticOverflow)
    } else if policy.total_investor_allocation != 0 && spec_sum_locked(investors)
        * BPS_DENOMINATOR > u64::MAX {
        Err(HonoraryFeeError::ArithmeticOverflow)
    } else {
        let remaining = pre.spec_remaining();
        let eligible = spec_eligible_share_bps(
            spec_sum_locked(investors) as u64,
            policy.total_investor_allocation,
            policy.investor_fee_share_bps,
        );
        if remaining * eligible > u64::MAX {
            Err(HonoraryFeeError::ArithmeticOverflow)
        } else {
            let pool = remaining * eligible / (BPS_DENOMINATOR as int);
            let capped = if policy.daily_cap == 0 {
                pool
            } else {
                let headroom = spec_remaining_cap(policy.daily_cap, pre.daily_distributed);
                if pool <= headroom {
                    pool
                } else {
                    headroom
                }
            };
            let end = spec_page_end(cursor, page_size, total);
            let ws = spec_page_weights(investors, cursor, end);
            if spec_distribution_overflows(capped as u64, ws) {
                Err(HonoraryFeeError::ArithmeticOverflow)
            } else {
                let wpage = spec_sum_weights(ws);
                let payouts = Seq::new(
                    ws.len(),
                    |k: int|
                        if wpage > 0 {
                            spec_threshold_payout(
                                capped as u64,
                                ws[k],
                                wpage,
                                policy.min_payout_lamports,
                            )
                        } else {
                            0
                        },
                );
                let paid = if wpage > 0 {
                    spec_sum_payouts(capped as u64, ws, wpage, policy.min_payout_lamports)
                } else {
                    0
                };
                let closed = end == total;
                let distributed = pre.daily_distributed + paid;
                let creator = pre.daily_claimed_total + pre.carry_over - distributed;
                let post = ProgressState {
                    daily_distributed: distributed as u64,
                    pagination_cursor: end as u64,
                    day_complete: closed,
                    carry_over: if closed {
                        0
                    } else {
                        pre.carry_over
                    },
                    ..pre
                };
                Ok(
                    (
                        post,
                        payouts,
                        paid,
                        if closed {
                            Some(creator)
                        } else {
                            None
                        },
                    ),
                )
            }
        }
    }
}

/// The total locked amount across a whole investor list, with
/// `ArithmeticOverflow` exactly when the sum does not fit.
pub fn get_total_locked_amount(investors: &Vec<InvestorDistributionAccount>) -> (r: Result<
    u64,
    HonoraryFeeError,
>)
    ensures
        r is Ok <==> spec_sum_locked(investors@) <= u64::MAX,
        r matches Ok(v) ==> v == spec_sum_locked(investors@),
        r matches Err(e) ==> e == HonoraryFeeError::ArithmeticOverflow,
{
    let n = investors.len();
    let mut total: u64 = 0;
    let mut i: usize = 0;
    while i < n
        invariant
            n == investors@.len(),
            0 <= i <= n,
            total == spec_sum_locked(investors@.take(i as int)),
        decreases n - i,
    {
        proof {
            lemma_sum_locked_take_step(investors@, i as int);
        }
        total = match total.checked_add(investors[i].locked_amount) {
            Some(v) => v,
            None => {
                proof {
                    lemma_sum_locked_take_le(investors@, i as int + 1);
                }
                return Err(HonoraryFeeError::ArithmeticOverflow);
            },
        };
        i += 1;
    }
    proof {
        assert(investors@.take(n as int) =~= investors@);
    }
    Ok(total)
}

proof fn lemma_sum_locked_take_step(investors: Seq<InvestorDistributionAccount>, i: int)
    requires
        0 <= i < investors.len(),
    ensures
        spec_sum_locked(investors.take(i + 1)) == spec_sum_locked(investors.take(i))
            + investors[i].locked_amount,
{
    assert(investors.take(i + 1).drop_last() =~= investors.take(i));
    assert(investors.take(i + 1).last() == investors[i]);
}

proof fn lemma_sum_locked_nonneg(investors: Seq<InvestorDistributionAccount>)
    ensures
        spec_sum_locked(investors) >= 0,
    decreases investors.len(),
{
    if investors.len() > 0 {
        lemma_sum_locked_nonneg(investors.drop_last());
    }
}

proof fn lemma_sum_locked_take_le(investors: Seq<InvestorDistributionAccount>, i: int)
    requires
        0 <= i <= investors.len(),
    ensures
        spec_sum_locked(investors.take(i)) <= spec_sum_locked(investors),
    decreases investors.len() - i,
{
    if i == investors.len() {
        assert(investors.take(i) =~= investors);
    } else {
        lemma_sum_locked_take_step(investors, i);
        lemma_sum_locked_take_le(investors, i + 1);
    }
}

/// A floored proportional part never exceeds the whole: for `b <= c`,
/// `a * b / c <= a`.
proof fn lemma_mul_div_le(a: int, b: int, c: int)
    requires
        a >= 0,
        0 <= b <= c,
        c > 0,
    ensures
        a * b / c <= a,
{
    vstd::arithmetic::mul::lemma_mul_inequality(b, c, a);
    vstd::arithmetic::mul::lemma_mul_is_commutative(b, a);
    vstd::arithmetic::mul::lemma_mul_is_commutative(c, a);
    vstd::arithmetic::div_mod::lemma_div_is_ordered(a * b, a * c, c);
    vstd::arithmetic::mul::lemma_mul_is_commutative(a, c);
    vstd::arithmetic::div_mod::lemma_div_multiples_vanish(a, c);
}

/// The amount one page pays never exceeds what the day still has
/// available, and the eligible share is a valid fraction.
proof fn lemma_page_paid_bound(
    policy: PolicyState,
    pre: ProgressState,
    investors: Seq<InvestorDistributionAccount>,
    page_size: u64,
)
    requires
        policy.wf(),
        pre.wf(),
    ensures
        spec_distribute_fees(policy, pre, investors, page_size) matches Ok(t) ==> {
            &&& 0 <= t.2 <= pre.spec_remaining()
            &&& t.1.len() == spec_page_end(
                pre.pagination_cursor as int,
                page_size,
                investors.len() as int,
            ) - pre.pagination_cursor
        },
{
    let r = spec_distribute_fees(policy, pre, investors, page_size);
    if r is Ok {
        let total = investors.len() as int;
        let cursor = pre.pagination_cursor as int;
        let remaining = pre.spec_remaining();
        let eligible = spec_eligible_share_bps(
            spec_sum_locked(investors) as u64,
            policy.total_investor_allocation,
            policy.investor_fee_share_bps,
        );
        crate::utils::lemma_eligible_share_bps_monotonic(
            spec_sum_locked(investors) as u64,
            spec_sum_locked(investors) as u64,
            policy.total_investor_allocation,
            policy.investor_fee_share_bps,
        );
        assert(0 <= eligible <= BPS_DENOMINATOR);
        lemma_mul_div_le(remaining, eligible, BPS_DENOMINATOR as int);
        let pool = remaining * eligible / (BPS_DENOMINATOR as int);
        vstd::arithmetic::div_mod::lemma_div_pos_is_pos(
            remaining * eligible,
            BPS_DENOMINATOR as int,
        );
        vstd::arithmetic::mul::lemma_mul_nonnegative(remaining, eligible);
        let capped = if policy.daily_cap == 0 {
            pool
        } else {
            let headroom = spec_remaining_cap(policy.daily_cap, pre.daily_distributed);
            if pool <= headroom {
                pool
            } else {
                headroom
            }
        };
        assert(0 <= capped <= remaining);
        let end = spec_page_end(cursor, page_size, total);
        let ws = spec_page_weights(investors, cursor, end);
        let wpage = spec_sum_weights(ws);
        if wpage > 0 {
            crate::enhanced_utils::lemma_sum_payouts_le_total(
                capped as u64,
                ws,
                policy.min_payout_lamports,
            );
            crate::enhanced_utils::lemma_sum_payouts_nonneg(
                capped as u64,
                ws,
                wpage,
                policy.min_payout_lamports,
            );
        }
    }
}

/// Opens a new distribution day: checks the cooldown, validates the fee
/// claim as quote-only, and resets the checkpoint for day one of
/// pagination.  The caller performs the actual claim and passes the two
/// per-token amounts it reported.
pub fn open_new_day(
    policy: &PolicyState,
    progress: &mut ProgressState,
    vault: &Vec<u8>,
    current_ts: i64,
    claim_amount_a: u64,
    claim_amount_b: u64,
    token_a_mint: &Vec<u8>,
    token_b_mint: &Vec<u8>,
) -> (r: Result<QuoteFeesClaimed, HonoraryFeeError>)
    ensures
        r is Err ==> *final(progress) == *old(progress),
        !old(progress).day_complete ==> r == Err::<QuoteFeesClaimed, HonoraryFeeError>(
            HonoraryFeeError::DistributionComplete,
        ),
        old(progress).day_complete && current_ts - old(progress).last_distribution_ts
            < SECONDS_PER_DAY ==> r == Err::<QuoteFeesClaimed, HonoraryFeeError>(
            HonoraryFeeError::CooldownNotElapsed,
        ),
        old(progress).day_complete && current_ts - old(progress).last_distribution_ts
            >= SECONDS_PER_DAY ==> match spec_detect_base_fees_in_claim(
            claim_amount_a,
            claim_amount_b,
            policy.quote_mint@,
            token_a_mint@,
            token_b_mint@,
        ) {
            Err(e) => r == Err::<QuoteFeesClaimed, HonoraryFeeError>(e),
            Ok(u) => (r matches Ok(ev) && {
                let quote_amount = if policy.quote_mint@ == token_a_mint@ {
                    claim_amount_a
                } else {
                    claim_amount_b
                };
                &&& *final(progress) == (ProgressState {
                    last_distribution_ts: current_ts,
                    daily_distributed: 0u64,
                    pagination_cursor: 0u64,
                    daily_claimed_total: quote_amount,
                    day_complete: false,
                    ..*old(progress)
                })
                &&& final(progress).wf()
                &&& ev.vault@ == vault@
                &&& ev.amount_claimed == quote_amount
                &&& ev.quote_mint@ == policy.quote_mint@
                &&& ev.timestamp == current_ts
            }),
        },
{
    if !progress.day_complete {
        return Err(HonoraryFeeError::DistributionComplete);
    }
    if !MathUtil::is_24h_elapsed(progress.last_distribution_ts, current_ts) {
        return Err(HonoraryFeeError::CooldownNotElapsed);
    }
    match PoolValidator::detect_base_fees_in_claim(
        claim_amount_a,
        claim_amount_b,
        &policy.quote_mint,
        token_a_mint,
        token_b_mint,
    ) {
        Ok(_) => (),
        Err(e) => {
            return Err(e);
        },
    }
    let quote_amount = if crate::codec::keys_equal(&policy.quote_mint, token_a_mint) {
        claim_amount_a
    } else {
        claim_amount_b
    };

    progress.last_distribution_ts = current_ts;
    progress.daily_distributed = 0;
    progress.pagination_cursor = 0;
    progress.daily_claimed_total = quote_amount;
    progress.day_complete = false;

    Ok(
        QuoteFeesClaimed {
            vault: copy_key(vault),
            amount_claimed: quote_amount,
            quote_mint: copy_key(&policy.quote_mint),
            timestamp: current_ts,
        },
    )
}

/// Closes the day: earmarks everything the day still has for the creator,
/// marks the day complete and resets the carry-over, so nothing is
/// stranded.
pub fn close_day_and_pay_creator(
    progress: &mut ProgressState,
    vault: &Vec<u8>,
    current_ts: i64,
) -> (r: Result<CreatorPayoutDayClosed, HonoraryFeeError>)
    requires
        old(progress).daily_distributed <= old(progress).daily_claimed_total + old(
            progress,
        ).carry_over,
    ensures
        r is Ok <==> old(progress).daily_claimed_total + old(progress).carry_over <= u64::MAX,
        r matches Err(e) ==> e == HonoraryFeeError::ArithmeticOverflow && *final(progress) == *old(
            progress,
        ),
        r matches Ok(ev) ==> {
            &&& ev.creator_amount == old(progress).spec_remaining()
            &&& ev.vault@ == vault@
            &&& ev.total_claimed_today == old(progress).daily_claimed_total
            &&& ev.total_distributed_to_investors == old(progress).daily_distributed
            &&& ev.timestamp == current_ts
            &&& *final(progress) == (ProgressState {
                day_complete: true,
                carry_over: 0u64,
                ..*old(progress)
            })
            &&& final(progress).daily_distributed + ev.creator_amount == old(
                progress,
            ).daily_claimed_total + old(progress).carry_over
        },
{
    let total_available = MathUtil::safe_add(progress.daily_claimed_total, progress.carry_over)?;
    let creator_amount = MathUtil::safe_sub(total_available, progress.daily_distributed)?;

    progress.day_complete = true;
    progress.carry_over = 0;

    Ok(
        CreatorPayoutDayClosed {
            vault: copy_key(vault),
            creator_amount,
            total_claimed_today: progress.daily_claimed_total,
            total_distributed_to_investors: progress.daily_distributed,
            timestamp: current_ts,
        },
    )
}

/// Drives one page of an open distribution day, and closes the day when
/// the page reaches the end of the investor list.  Behaves exactly as the
/// mathematical transition `spec_distribute_fees`; an error leaves the
/// checkpoint untouched.
#[verifier::loop_isolation(false)]
pub fn distribute_fees(
    policy: &PolicyState,
    progress: &mut ProgressState,
    vault: &Vec<u8>,
    current_ts: i64,
    investors: &Vec<InvestorDistributionAccount>,
    page_size: u64,
) -> (r: Result<DistributionOutcome, HonoraryFeeError>)
    requires
        policy.wf(),
        old(progress).wf(),
    ensures
        ({
            let s = spec_distribute_fees(*policy, *old(progress), investors@, page_size);
            match r {
                Err(e) => (s matches Err(se) && se == e) && *final(progress) == *old(progress),
                Ok(out) => (s matches Ok(t) && {
                    &&& *final(progress) == t.0
                    &&& out.payouts@.len() == t.1.len()
                    &&& (forall|k: int| 0 <= k < t.1.len() ==> out.payouts@[k] == t.1[k])
                    &&& out.page_event.vault@ == vault@
                    &&& out.page_event.page_start == old(progress).pagination_cursor
                    &&& out.page_event.page_end == t.0.pagination_cursor
                    &&& out.page_event.total_distributed == t.2
                    &&& out.page_event.investor_count == t.1.len()
                    &&& out.page_event.timestamp == current_ts
                    &&& (match (out.day_closed, t.3) {
                        (Some(ev), Some(creator)) => {
                            &&& ev.creator_amount == creator
                            &&& ev.vault@ == vault@
                            &&& ev.total_claimed_today == t.0.daily_claimed_total
                            &&& ev.total_distributed_to_investors == t.0.daily_distributed
                            &&& ev.timestamp == current_ts
                        },
                        (None, None) => true,
                        _ => false,
                    })
                }),
            }
        }),
        r is Ok ==> final(progress).wf(),
        r matches Ok(out) ==> (match out.day_closed {
            Some(ev) => final(progress).day_complete
                && ev.creator_amount + final(progress).daily_distributed
                == old(progress).daily_claimed_total + old(progress).carry_over,
            None => !final(progress).day_complete
                && final(progress).carry_over == old(progress).carry_over
                && final(progress).daily_claimed_total == old(progress).daily_claimed_total,
        }),
{
    if progress.day_complete {
        return Err(HonoraryFeeError::DistributionComplete);
    }
    let total = investors.len();
    ValidationUtil::validate_pagination_cursor(progress.pagination_cursor, total, page_size)?;
    let cursor = progress.pagination_cursor as usize;

    let total_available = MathUtil::safe_add(
        progress.daily_claimed_total,
        progress.carry_over,
    )?;
    let remaining = MathUtil::safe_sub(total_available, progress.daily_distributed)?;

    let total_locked_all = get_total_locked_amount(investors)?;
    proof {
        lemma_sum_locked_nonneg(investors@);
    }

    let eligible_share_bps = MathUtil::calculate_eligible_share_bps(
        total_locked_all,
        policy.total_investor_allocation,
        policy.investor_fee_share_bps,
    )?;
    proof {
        crate::utils::lemma_eligible_share_bps_monotonic(
            total_locked_all,
            total_locked_all,
            policy.total_investor_allocation,
            policy.investor_fee_share_bps,
        );
    }

    let scaled = MathUtil::safe_mul(remaining, eligible_share_bps as u64)?;
    let investor_pool = MathUtil::safe_div(scaled, BPS_DENOMINATOR)?;
    proof {
        lemma_mul_div_le(remaining as int, eligible_share_bps as int, BPS_DENOMINATOR as int);
        vstd::arithmetic::mul::lemma_mul_nonnegative(
            remaining as int,
            eligible_share_bps as int,
        );
        vstd::arithmetic::div_mod::lemma_div_pos_is_pos(
            remaining * (eligible_share_bps as u64),
            BPS_DENOMINATOR as int,
        );
    }

    let (capped, _excess) = EnhancedMathUtil::apply_daily_cap(
        investor_pool,
        policy.daily_cap,
        progress.daily_distributed,
    )?;

    let page = page_size as usize;
    let end = if total - cursor > page {
        cursor + page
    } else {
        total
    };

    let mut weights: Vec<u64> = Vec::new();
    let mut j: usize = cursor;
    while j < end
        invariant
            *progress == *old(progress),
            total == investors@.len(),
            cursor <= j <= end <= total,
            weights@.len() == j - cursor,
            forall|k: int| 0 <= k < j - cursor ==> weights@[k] == investors@[cursor
                + k].locked_amount,
        decreases end - j,
    {
        weights.push(investors[j].locked_amount);
        j += 1;
    }
    proof {
        assert(weights@ =~= spec_page_weights(investors@, cursor as int, end as int));
    }

    let (payouts, total_paid, _dust) =
        EnhancedMathUtil::calculate_proportional_distribution_with_dust(
        capped,
        &weights,
        policy.min_payout_lamports,
    )?;

    proof {
        let pre = *old(progress);
        let total_i = investors@.len() as int;
        let cursor_i = pre.pagination_cursor as int;
        let remaining_i = pre.spec_remaining();
        let eligible_i = spec_eligible_share_bps(
            spec_sum_locked(investors@) as u64,
            policy.total_investor_allocation,
            policy.investor_fee_share_bps,
        );
        assert(remaining == remaining_i);
        assert(eligible_share_bps as int == eligible_i);
        let pool_i = remaining_i * eligible_i / (BPS_DENOMINATOR as int);
        assert(investor_pool == pool_i);
        let capped_i = if policy.daily_cap == 0 {
            pool_i
        } else {
            let headroom = spec_remaining_cap(policy.daily_cap, pre.daily_distributed);
            if pool_i <= headroom {
                pool_i
            } else {
                headroom
            }
        };
        assert(capped as int == capped_i);
        let end_i = spec_page_end(cursor_i, page_size, total_i);
        assert(end as int == end_i);
        let ws = spec_page_weights(investors@, cursor_i, end_i);
        assert(weights@ == ws);
        crate::enhanced_utils::lemma_sum_weights_nonneg(ws);
        if spec_sum_weights(ws) > 0 {
            crate::enhanced_utils::lemma_sum_payouts_nonneg(
                capped,
                ws,
                spec_sum_weights(ws),
                policy.min_payout_lamports,
            );
        }
        assert(total_paid as int == if spec_sum_weights(ws) > 0 {
            spec_sum_payouts(capped as u64, ws, spec_sum_weights(ws), policy.min_payout_lamports)
        } else {
            0
        });
    }

    let page_start_u64 = progress.pagination_cursor;
    progress.daily_distributed = progress.daily_distributed + total_paid;
    progress.pagination_cursor = end as u64;

    let page_event = InvestorPayoutPage {
        vault: copy_key(vault),
        page_start: page_start_u64,
        page_end: end as u64,
        total_distributed: total_paid,
        investor_count: (end - cursor) as u64,
        timestamp: current_ts,
    };

    let day_closed = if end == total {
        let ev = close_day_and_pay_creator(progress, vault, current_ts)?;
        Some(ev)
    } else {
        None
    };

    Ok(DistributionOutcome { payouts, page_event, day_closed })
}

/// Law: conservation across a day.  Every page keeps the checkpoint
/// invariant `daily_distributed <= daily_claimed_total + carry_over`; while
/// the day stays open neither the claimed total nor the carry-over moves,
/// so by induction the invariant holds across any sequence of pages; and
/// the page that closes the day earmarks for the creator exactly what the
/// day claimed plus the carry-over at day open, less what investors were
/// paid.
pub proof fn lemma_day_conservation(
    policy: PolicyState,
    pre: ProgressState,
    investors: Seq<InvestorDistributionAccount>,
    page_size: u64,
)
    requires
        policy.wf(),
        pre.wf(),
    ensures
        spec_distribute_fees(policy, pre, investors, page_size) matches Ok(t) ==> {
            &&& t.0.wf()
            &&& t.0.daily_claimed_total == pre.daily_claimed_total
            &&& pre.daily_distributed <= t.0.daily_distributed <= pre.daily_claimed_total
                + pre.carry_over
            &&& (t.3 is None ==> t.0.carry_over == pre.carry_over && !t.0.day_complete)
            &&& (t.3 matches Some(creator) ==> {
                &&& 0 <= creator
                &&& t.0.daily_distributed + creator == pre.daily_claimed_total + pre.carry_over
                &&& t.0.day_complete
                &&& t.0.carry_over == 0
            })
        },
{
    lemma_page_paid_bound(policy, pre, investors, page_size);
    let r = spec_distribute_fees(policy, pre, investors, page_size);
    if r is Ok {
        let t = r->Ok_0;
        assert(pre.daily_claimed_total + pre.carry_over <= u64::MAX);
        assert(0 <= t.2 <= pre.spec_remaining());
        assert(t.0.daily_distributed == pre.daily_distributed + t.2);
    }
}

/// Law: a duplicate invocation causes no double payment.  Once a day has
/// closed, re-issuing the page call is rejected outright with the
/// checkpoint unchanged; and while a day is open, the page an invocation
/// pays starts exactly at the pagination cursor, which only advances, so
/// investors before the cursor are never paid again.
pub proof fn lemma_duplicate_invocation(
    policy: PolicyState,
    pre: ProgressState,
    investors: Seq<InvestorDistributionAccount>,
    page_size: u64,
)
    requires
        policy.wf(),
        pre.wf(),
        investors.len() <= u64::MAX,
    ensures
        pre.day_complete ==> spec_distribute_fees(policy, pre, investors, page_size) == Err::<
            (ProgressState, Seq<int>, int, Option<int>),
            HonoraryFeeError,
        >(HonoraryFeeError::DistributionComplete),
        spec_distribute_fees(policy, pre, investors, page_size) matches Ok(t) ==> {
            &&& t.1.len() == spec_page_end(
                pre.pagination_cursor as int,
                page_size,
                investors.len() as int,
            ) - pre.pagination_cursor
            &&& t.0.pagination_cursor == spec_page_end(
                pre.pagination_cursor as int,
                page_size,
                investors.len() as int,
            )
            &&& t.0.pagination_cursor >= pre.pagination_cursor
        },
{
    lemma_page_paid_bound(policy, pre, investors, page_size);
    let r = spec_distribute_fees(policy, pre, investors, page_size);
    if r is Ok {
        let t = r->Ok_0;
        let end = spec_page_end(
            pre.pagination_cursor as int,
            page_size,
            investors.len() as int,
        );
        assert(t.0.pagination_cursor == end as u64);
        assert(pre.pagination_cursor <= end <= u64::MAX);
    }
}

} // verus!
