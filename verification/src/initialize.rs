//! Initialization of a vault: validates the pool configuration for
//! quote-only fee accrual and creates the immutable policy and the first
//! checkpoint.

use vstd::prelude::*;

use crate::codec::{copy_key, keys_equal};
use crate::error::HonoraryFeeError;
use crate::events::HonoraryPositionInitialized;
use crate::state::{PolicyState, ProgressState};
use crate::utils::BPS_DENOMINATOR;
use crate::validation::{spec_validate_quote_only_config, PoolValidator};

verus! {

/// Creates the policy and the initial checkpoint for one vault.  The share
/// ceiling must be a valid fraction, the pool must be configured so the
/// position only accrues quote fees, and the creator's destination account
/// must be for the quote mint.  The first checkpoint starts with the day
/// complete and all counters zero, so the first crank invocation opens day
/// one immediately.
pub fn initialize_honorary_position(
    investor_fee_share_bps: u16,
    daily_cap: u64,
    min_payout_lamports: u64,
    total_investor_allocation: u64,
    vault: &Vec<u8>,
    quote_mint: &Vec<u8>,
    base_mint: &Vec<u8>,
    creator_quote_ata: &Vec<u8>,
    creator_ata_mint: &Vec<u8>,
    pool_owner: &Vec<u8>,
    cp_amm_program: &Vec<u8>,
    pool_data: &Vec<u8>,
    position_owner_pda: &Vec<u8>,
    position: &Vec<u8>,
    policy_bump: u8,
    progress_bump: u8,
    current_ts: i64,
) -> (r: Result<(PolicyState, ProgressState, HonoraryPositionInitialized), HonoraryFeeError>)
    requires
        quote_mint@.len() == 32,
        creator_quote_ata@.len() == 32,
    ensures
        investor_fee_share_bps > BPS_DENOMINATOR ==> (r matches Err(e) && e
            == HonoraryFeeError::InvalidTokenOrder),
        investor_fee_share_bps <= BPS_DENOMINATOR ==> match spec_validate_quote_only_config(
            pool_owner@,
            cp_amm_program@,
            pool_data@,
            quote_mint@,
            base_mint@,
        ) {
            Err(e) => r == Err::<
                (PolicyState, ProgressState, HonoraryPositionInitialized),
                HonoraryFeeError,
            >(e),
            Ok(u) => {
                if creator_ata_mint@ != quote_mint@ {
                    r == Err::<
                        (PolicyState, ProgressState, HonoraryPositionInitialized),
                        HonoraryFeeError,
                    >(HonoraryFeeError::InvalidQuoteMint)
                } else {
                    r matches Ok(t) && {
                        &&& t.0.investor_fee_share_bps == investor_fee_share_bps
                        &&& t.0.daily_cap == daily_cap
                        &&& t.0.min_payout_lamports == min_payout_lamports
                        &&& t.0.quote_mint@ == quote_mint@
                        &&& t.0.creator_quote_ata@ == creator_quote_ata@
                        &&& t.0.total_investor_allocation == total_investor_allocation
                        &&& t.0.bump == policy_bump
                        &&& t.0.wf()
                        &&& t.1 == (ProgressState {
                            last_distribution_ts: 0i64,
                            daily_distributed: 0u64,
                            carry_over: 0u64,
                            pagination_cursor: 0u64,
                            daily_claimed_total: 0u64,
                            day_complete: true,
                            bump: progress_bump,
                        })
                        &&& t.1.wf()
                        &&& t.2.vault@ == vault@
                        &&& t.2.position_owner_pda@ == position_owner_pda@
                        &&& t.2.quote_mint@ == quote_mint@
                        &&& t.2.position@ == position@
                        &&& t.2.timestamp == current_ts
                    }
                }
            },
        },
{
    if investor_fee_share_bps > 10000 {
        return Err(HonoraryFeeError::InvalidTokenOrder);
    }

    PoolValidator::validate_quote_only_config(
        pool_owner,
        cp_amm_program,
        pool_data,
        quote_mint,
        base_mint,
    )?;

    if !keys_equal(creator_ata_mint, quote_mint) {
        return Err(HonoraryFeeError::InvalidQuoteMint);
    }

    let policy = PolicyState {
        investor_fee_share_bps,
        daily_cap,
        min_payout_lamports,
        quote_mint: copy_key(quote_mint),
        creator_quote_ata: copy_key(creator_quote_ata),
        total_investor_allocation,
        bump: policy_bump,
    };

    let progress = ProgressState {
        last_distribution_ts: 0,
        daily_distributed: 0,
        carry_over: 0,
        pagination_cursor: 0,
        daily_claimed_total: 0,
        day_complete: true,
        bump: progress_bump,
    };

    let event = HonoraryPositionInitialized {
        vault: copy_key(vault),
        position_owner_pda: copy_key(position_owner_pda),
        quote_mint: copy_key(quote_mint),
        position: copy_key(position),
        timestamp: current_ts,
    };

    Ok((policy, progress, event))
}

} // verus!
