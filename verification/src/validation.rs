//! Quote-only validation of the fee source: decoding the pool pair account
//! and checking that a position, a configuration or a concrete claim can
//! only ever touch the quote asset.

use vstd::prelude::*;

use crate::codec::{copy_bytes, i32_from_le, keys_equal, spec_i32_from_le};
use crate::error::HonoraryFeeError;

verus! {

/// Lowest position tick the pool supports.
pub const MIN_TICK: i32 = -887272;

/// Highest position tick the pool supports.
pub const MAX_TICK: i32 = 887272;

/// Byte length of a well-formed pair account.
pub const LB_PAIR_LEN: usize = 32 + 32 + 4 + 752;

/// Offset of the first token mint in the pair account layout.
pub const TOKEN_X_MINT_OFFSET: usize = 8 + 64 + 64 + 1 + 2;

/// Offset of the second token mint in the pair account layout.
pub const TOKEN_Y_MINT_OFFSET: usize = TOKEN_X_MINT_OFFSET + 32;

/// Offset of the active bin id in the pair account layout.
pub const ACTIVE_ID_OFFSET: usize = 200;

/// The first token mint held in a pair account's data.
pub open spec fn spec_token_x_mint(data: Seq<u8>) -> Seq<u8> {
    data.subrange(TOKEN_X_MINT_OFFSET as int, TOKEN_X_MINT_OFFSET + 32)
}

/// The second token mint held in a pair account's data.
pub open spec fn spec_token_y_mint(data: Seq<u8>) -> Seq<u8> {
    data.subrange(TOKEN_Y_MINT_OFFSET as int, TOKEN_Y_MINT_OFFSET + 32)
}

/// The active bin id held in a pair account's data.
pub open spec fn spec_active_id(data: Seq<u8>) -> int {
    spec_i32_from_le(data.subrange(ACTIVE_ID_OFFSET as int, ACTIVE_ID_OFFSET + 4))
}

/// Simplified pair account: only the fields the validator needs.
#[derive(Clone, Debug, PartialEq)]
pub struct LbPair {
    /// The first token mint of the pair.
    pub token_x_mint: Vec<u8>,
    /// The second token mint of the pair.
    pub token_y_mint: Vec<u8>,
    /// The active bin id, the pool's current price bin.
    pub active_id: i32,
}

impl LbPair {
    /// Decodes a pair account from its raw data.
    pub fn try_deserialize(data: &Vec<u8>) -> (r: Result<LbPair, HonoraryFeeError>)
        ensures
            r is Ok <==> data@.len() >= LB_PAIR_LEN,
            r matches Err(e) ==> e == HonoraryFeeError::PoolNotInitialized,
            r matches Ok(p) ==> {
                &&& p.token_x_mint@ == spec_token_x_mint(data@)
                &&& p.token_y_mint@ == spec_token_y_mint(data@)
                &&& p.active_id == spec_active_id(data@)
            },
    {
        if data.len() < LB_PAIR_LEN {
            return Err(HonoraryFeeError::PoolNotInitialized);
        }
        let token_x_mint = copy_bytes(data, TOKEN_X_MINT_OFFSET, 32);
        let token_y_mint = copy_bytes(data, TOKEN_Y_MINT_OFFSET, 32);
        let active_id = i32_from_le(data, ACTIVE_ID_OFFSET);
        Ok(LbPair { token_x_mint, token_y_mint, active_id })
    }
}

impl Default for LbPair {
    /// An empty pair record.
    fn default() -> (r: LbPair)
        ensures
            r.token_x_mint@ == Seq::<u8>::empty(),
            r.token_y_mint@ == Seq::<u8>::empty(),
            r.active_id == 0,
    {
        LbPair { token_x_mint: Vec::new(), token_y_mint: Vec::new(), active_id: 0 }
    }
}

/// Whether `mint` is one of the two token mints of the pair data.
pub open spec fn spec_pool_has_mint(data: Seq<u8>, mint: Seq<u8>) -> bool {
    spec_token_x_mint(data) == mint || spec_token_y_mint(data) == mint
}

/// The position-time configuration check (see
/// `PoolValidator::validate_quote_only_config`).
pub open spec fn spec_validate_quote_only_config(
    pool_owner: Seq<u8>,
    cp_amm_program: Seq<u8>,
    pool_data: Seq<u8>,
    quote_token_mint: Seq<u8>,
    base_token_mint: Seq<u8>,
) -> Result<(), HonoraryFeeError> {
    if pool_owner != cp_amm_program {
        Err(HonoraryFeeError::PoolNotInitialized)
    } else if pool_data.len() < LB_PAIR_LEN {
        Err(HonoraryFeeError::PoolNotInitialized)
    } else if !spec_pool_has_mint(pool_data, quote_token_mint) || !spec_pool_has_mint(
        pool_data,
        base_token_mint,
    ) {
        Err(HonoraryFeeError::InvalidTokenOrder)
    } else if quote_token_mint == base_token_mint {
        Err(HonoraryFeeError::InvalidTokenOrder)
    } else {
        Ok(())
    }
}

/// The claim-time check (see `PoolValidator::detect_base_fees_in_claim`).
pub open spec fn spec_detect_base_fees_in_claim(
    claim_amount_a: u64,
    claim_amount_b: u64,
    quote_token_mint: Seq<u8>,
    token_a_mint: Seq<u8>,
    token_b_mint: Seq<u8>,
) -> Result<(), HonoraryFeeError> {
    if quote_token_mint != token_a_mint && quote_token_mint != token_b_mint {
        Err(HonoraryFeeError::InvalidTokenOrder)
    } else if quote_token_mint == token_a_mint && claim_amount_b > 0 {
        Err(HonoraryFeeError::BaseFeesDetected)
    } else if quote_token_mint == token_b_mint && claim_amount_a > 0 {
        Err(HonoraryFeeError::BaseFeesDetected)
    } else {
        Ok(())
    }
}

/// The position-range check (see
/// `PoolValidator::validate_position_for_quote_only_fees`).
pub open spec fn spec_validate_position_for_quote_only_fees(
    pool_data: Seq<u8>,
    quote_token_mint: Seq<u8>,
    tick_lower: i32,
    tick_upper: i32,
) -> Result<(), HonoraryFeeError> {
    if pool_data.len() < LB_PAIR_LEN {
        Err(HonoraryFeeError::PoolNotInitialized)
    } else if !spec_pool_has_mint(pool_data, quote_token_mint) {
        Err(HonoraryFeeError::InvalidTokenOrder)
    } else if spec_token_x_mint(pool_data) == quote_token_mint {
        if tick_upper >= spec_active_id(pool_data) {
            Err(HonoraryFeeError::InvalidTokenOrder)
        } else {
            Ok(())
        }
    } else {
        if tick_lower <= spec_active_id(pool_data) {
            Err(HonoraryFeeError::InvalidTokenOrder)
        } else {
            Ok(())
        }
    }
}

/// Pool validator for quote-only fee accrual: position-time and claim-time
/// checkpoints, defense in depth.
pub struct PoolValidator;

impl PoolValidator {
    /// Validates that the pool is configured so the honorary position only
    /// accrues fees in the quote token: the pool account must belong to the
    /// pool program, both configured mints must be in the pair, and quote
    /// and base must differ.
    pub fn validate_quote_only_config(
        pool_owner: &Vec<u8>,
        cp_amm_program: &Vec<u8>,
        pool_data: &Vec<u8>,
        quote_token_mint: &Vec<u8>,
        base_token_mint: &Vec<u8>,
    ) -> (r: Result<(), HonoraryFeeError>)
        ensures
            r == spec_validate_quote_only_config(
                pool_owner@,
                cp_amm_program@,
                pool_data@,
                quote_token_mint@,
                base_token_mint@,
            ),
    {
        if !keys_equal(pool_owner, cp_amm_program) {
            return Err(HonoraryFeeError::PoolNotInitialized);
        }
        let lb_pair = LbPair::try_deserialize(pool_data)?;

        let has_quote_token = keys_equal(&lb_pair.token_x_mint, quote_token_mint) || keys_equal(
            &lb_pair.token_y_mint,
            quote_token_mint,
        );
        let has_base_token = keys_equal(&lb_pair.token_x_mint, base_token_mint) || keys_equal(
            &lb_pair.token_y_mint,
            base_token_mint,
        );
        if !has_quote_token || !has_base_token {
            return Err(HonoraryFeeError::InvalidTokenOrder);
        }
        if keys_equal(quote_token_mint, base_token_mint) {
            return Err(HonoraryFeeError::InvalidTokenOrder);
        }
        Ok(())
    }

    /// Extracts the two token mints from the pool pair account.
    pub fn extract_token_mints(
        pool_owner: &Vec<u8>,
        cp_amm_program: &Vec<u8>,
        pool_data: &Vec<u8>,
    ) -> (r: Result<(Vec<u8>, Vec<u8>), HonoraryFeeError>)
        ensures
            r is Ok <==> pool_owner@ == cp_amm_program@ && pool_data@.len() >= LB_PAIR_LEN,
            r matches Err(e) ==> e == HonoraryFeeError::PoolNotInitialized,
            r matches Ok(m) ==> m.0@ == spec_token_x_mint(pool_data@) && m.1@ == spec_token_y_mint(
                pool_data@,
            ),
    {
        if !keys_equal(pool_owner, cp_amm_program) {
            return Err(HonoraryFeeError::PoolNotInitialized);
        }
        let lb_pair = LbPair::try_deserialize(pool_data)?;
        Ok((lb_pair.token_x_mint, lb_pair.token_y_mint))
    }

    /// The tick range a quote-only position must use: entirely below the
    /// current price when the quote is the pair's first token, entirely
    /// above it when the quote is the second.
    pub fn calculate_quote_only_tick_range(pool_data: &Vec<u8>, quote_token_mint: &Vec<u8>) -> (r:
        Result<(i32, i32), HonoraryFeeError>)
        ensures
            pool_data@.len() < LB_PAIR_LEN ==> r == Err::<(i32, i32), HonoraryFeeError>(
                HonoraryFeeError::PoolNotInitialized,
            ),
            pool_data@.len() >= LB_PAIR_LEN && !spec_pool_has_mint(pool_data@, quote_token_mint@)
                ==> r == Err::<(i32, i32), HonoraryFeeError>(HonoraryFeeError::InvalidQuoteMint),
            pool_data@.len() >= LB_PAIR_LEN && spec_token_x_mint(pool_data@) == quote_token_mint@
                ==> r == Ok::<(i32, i32), HonoraryFeeError>(
                (MIN_TICK, spec_active_id(pool_data@) as i32),
            ),
            pool_data@.len() >= LB_PAIR_LEN && spec_token_x_mint(pool_data@) != quote_token_mint@
                && spec_token_y_mint(pool_data@) == quote_token_mint@ ==> r == Ok::<
                (i32, i32),
                HonoraryFeeError,
            >((spec_active_id(pool_data@) as i32, MAX_TICK)),
    {
        let lb_pair = LbPair::try_deserialize(pool_data)?;

        let is_quote_token_x = keys_equal(&lb_pair.token_x_mint, quote_token_mint);
        let is_quote_token_y = keys_equal(&lb_pair.token_y_mint, quote_token_mint);
        if !is_quote_token_x && !is_quote_token_y {
            return Err(HonoraryFeeError::InvalidQuoteMint);
        }

        if is_quote_token_x {
            Ok((MIN_TICK, lb_pair.active_id))
        } else {
            Ok((lb_pair.active_id, MAX_TICK))
        }
    }

    /// The claim-time checkpoint: rejects a claim that attributes a nonzero
    /// amount to the non-quote token.  Runs on every claim, independent of
    /// the position-time check, because external state can drift.
    pub fn detect_base_fees_in_claim(
        claim_amount_a: u64,
        claim_amount_b: u64,
        quote_token_mint: &Vec<u8>,
        token_a_mint: &Vec<u8>,
        token_b_mint: &Vec<u8>,
    ) -> (r: Result<(), HonoraryFeeError>)
        ensures
            r == spec_detect_base_fees_in_claim(
                claim_amount_a,
                claim_amount_b,
                quote_token_mint@,
                token_a_mint@,
                token_b_mint@,
            ),
    {
        let is_token_a_quote = keys_equal(quote_token_mint, token_a_mint);
        let is_token_b_quote = keys_equal(quote_token_mint, token_b_mint);

        if !is_token_a_quote && !is_token_b_quote {
            return Err(HonoraryFeeError::InvalidTokenOrder);
        }
        if is_token_a_quote && claim_amount_b > 0 {
            return Err(HonoraryFeeError::BaseFeesDetected);
        }
        if is_token_b_quote && claim_amount_a > 0 {
            return Err(HonoraryFeeError::BaseFeesDetected);
        }
        Ok(())
    }

    /// Validates that the pool account belongs to the pool program before a
    /// distribution touches it.
    pub fn validate_pool_for_distribution(pool_owner: &Vec<u8>, cp_amm_program: &Vec<u8>) -> (r:
        Result<(), HonoraryFeeError>)
        ensures
            r == if pool_owner@ == cp_amm_program@ {
                Ok::<(), HonoraryFeeError>(())
            } else {
                Err::<(), HonoraryFeeError>(HonoraryFeeError::InvalidStreamAccount)
            },
    {
        if !keys_equal(pool_owner, cp_amm_program) {
            return Err(HonoraryFeeError::InvalidStreamAccount);
        }
        Ok(())
    }

    /// Extracts the current active bin id from raw pool data.
    pub fn extract_current_tick(pool_data: &Vec<u8>) -> (r: Result<i32, HonoraryFeeError>)
        ensures
            r is Ok <==> pool_data@.len() >= LB_PAIR_LEN,
            r matches Err(e) ==> e == HonoraryFeeError::PoolNotInitialized,
            r matches Ok(t) ==> t == spec_active_id(pool_data@),
    {
        let lb_pair = LbPair::try_deserialize(pool_data)?;
        Ok(lb_pair.active_id)
    }

    /// The position-time checkpoint: a position with this tick range must
    /// lie entirely on the side of the current price that can only accrue
    /// the quote token.
    pub fn validate_position_for_quote_only_fees(
        pool_data: &Vec<u8>,
        quote_token_mint: &Vec<u8>,
        tick_lower: i32,
        tick_upper: i32,
    ) -> (r: Result<(), HonoraryFeeError>)
        ensures
            r == spec_validate_position_for_quote_only_fees(
                pool_data@,
                quote_token_mint@,
                tick_lower,
                tick_upper,
            ),
    {
        let lb_pair = LbPair::try_deserialize(pool_data)?;
        let current_tick = lb_pair.active_id;

        let is_quote_token_x = keys_equal(&lb_pair.token_x_mint, quote_token_mint);
        let is_quote_token_y = keys_equal(&lb_pair.token_y_mint, quote_token_mint);
        if !is_quote_token_x && !is_quote_token_y {
            return Err(HonoraryFeeError::InvalidTokenOrder);
        }

        if is_quote_token_x {
            if tick_upper >= current_tick {
                return Err(HonoraryFeeError::InvalidTokenOrder);
            }
        } else {
            if tick_lower <= current_tick {
                return Err(HonoraryFeeError::InvalidTokenOrder);
            }
        }
        Ok(())
    }
}

} // verus!
