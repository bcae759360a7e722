use vstd::prelude::*;

use crate::error::ErrorCode;
use crate::pubkey::Pubkey;
use crate::state::LiquidityPool;

verus! {

/// A percentage parameter that creation accepts: in (0, 100].
pub open spec fn in_percent_range(p: u8) -> bool {
    0 < p <= 100
}

/// Creation is accepted exactly for two distinct mints and an LTV, a
/// liquidation threshold and a liquidation penalty each in (0, 100]. The
/// interest rate is not checked, nor LTV against the threshold.
pub open spec fn creation_accepted(
    mint_a: Pubkey,
    mint_b: Pubkey,
    ltv_ratio: u8,
    liquidation_threshold: u8,
    liquidation_penalty: u8,
) -> bool {
    &&& mint_a != mint_b
    &&& in_percent_range(ltv_ratio)
    &&& in_percent_range(liquidation_threshold)
    &&& in_percent_range(liquidation_penalty)
}

/// The error of a refused creation: the first check that fails.
pub open spec fn creation_error(
    mint_a: Pubkey,
    mint_b: Pubkey,
    ltv_ratio: u8,
    liquidation_threshold: u8,
) -> ErrorCode {
    if mint_a == mint_b {
        ErrorCode::SameTokenMints
    } else if !in_percent_range(ltv_ratio) {
        ErrorCode::InvalidLtv
    } else if !in_percent_range(liquidation_threshold) {
        ErrorCode::InvalidLiquidationThreshold
    } else {
        ErrorCode::InvalidLiquidationPenalty
    }
}

/// An update is accepted exactly when the caller is the pool's authority,
/// the LTV does not exceed the liquidation threshold, the penalty is under
/// 100 and the interest rate at most 100.
pub open spec fn update_accepted(
    caller: Pubkey,
    authority: Pubkey,
    new_ltv_ratio: u8,
    new_liquidation_threshold: u8,
    new_liquidation_penalty: u8,
    new_interest_rate: u8,
) -> bool {
    &&& caller == authority
    &&& new_ltv_ratio <= new_liquidation_threshold
    &&& new_liquidation_penalty < 100
    &&& new_interest_rate <= 100
}

/// The error of a refused update: the first check that fails.
pub open spec fn update_error(
    caller: Pubkey,
    authority: Pubkey,
    new_ltv_ratio: u8,
    new_liquidation_threshold: u8,
    new_liquidation_penalty: u8,
) -> ErrorCode {
    if caller != authority {
        ErrorCode::InvalidAuthority
    } else if new_ltv_ratio > new_liquidation_threshold {
        ErrorCode::InvalidLtvThreshold
    } else if new_liquidation_penalty >= 100 {
        ErrorCode::InvalidPenalty
    } else {
        ErrorCode::InvalidInterestRate
    }
}

/// The derivation bumps of a new pool's addresses, kept in the pool record.
#[derive(Clone, Copy, Debug)]
pub struct PoolBumps {
    pub liquidity_pool: u8,
    pub token_vault_a: u8,
    pub token_vault_b: u8,
    pub fee_vault_a: u8,
    pub fee_vault_b: u8,
}

/// The accounts of a new pool.
#[derive(Clone, Copy, Debug)]
pub struct InitializeLiquidityPool {
    pub creator: Pubkey,
    pub token_mint_a: Pubkey,
    pub token_mint_b: Pubkey,
    pub lp_token_mint: Pubkey,
    pub token_vault_a: Pubkey,
    pub token_vault_b: Pubkey,
    pub fee_vault_a: Pubkey,
    pub fee_vault_b: Pubkey,
    pub bumps: PoolBumps,
}

impl InitializeLiquidityPool {
    /// The record of a new pool: the creator as authority, the given
    /// parameters, every counter at zero.
    pub open spec fn new_pool(
        self,
        ltv_ratio: u8,
        liquidation_threshold: u8,
        liquidation_penalty: u8,
        interest_rate: u8,
        now: i64,
    ) -> LiquidityPool {
        LiquidityPool {
            authority: self.creator,
            mint_a: self.token_mint_a,
            mint_b: self.token_mint_b,
            lp_mint: self.lp_token_mint,
            vault_a: self.token_vault_a,
            vault_b: self.token_vault_b,
            fees_vault_a: self.fee_vault_a,
            fees_vault_b: self.fee_vault_b,
            total_liquidity: 0,
            total_borrowed_a: 0,
            total_borrowed_b: 0,
            total_borrowed: 0,
            ltv_ratio,
            liquidation_threshold,
            liquidation_penalty,
            interest_rate,
            created_at: now,
            lp_supply: 0,
            bump: self.bumps.liquidity_pool,
            vault_a_bump: self.bumps.token_vault_a,
            vault_b_bump: self.bumps.token_vault_b,
            fees_vault_a_bump: self.bumps.fee_vault_a,
            fees_vault_b_bump: self.bumps.fee_vault_b,
        }
    }
}

fn percent_in_range(p: u8) -> (r: bool)
    ensures
        r == in_percent_range(p),
{
    p != 0 && p <= 100
}

/// Creates the record of a new pool at time `now`.
pub fn initialize_liquidity_pool(
    ctx: &InitializeLiquidityPool,
    ltv_ratio: u8,
    liquidation_threshold: u8,
    liquidation_penalty: u8,
    interest_rate: u8,
    now: i64,
) -> (r: Result<LiquidityPool, ErrorCode>)
    ensures
        r is Ok <==> creation_accepted(
            ctx.token_mint_a,
            ctx.token_mint_b,
            ltv_ratio,
            liquidation_threshold,
            liquidation_penalty,
        ),
        r matches Ok(pool) ==> pool == ctx.new_pool(
            ltv_ratio,
            liquidation_threshold,
            liquidation_penalty,
            interest_rate,
            now,
        ) && pool.wf(),
        r matches Err(e) ==> e == creation_error(
            ctx.token_mint_a,
            ctx.token_mint_b,
            ltv_ratio,
            liquidation_threshold,
        ),
{
    if ctx.token_mint_a == ctx.token_mint_b {
        return Err(ErrorCode::SameTokenMints);
    }
    if !percent_in_range(ltv_ratio) {
        return Err(ErrorCode::InvalidLtv);
    }
    if !percent_in_range(liquidation_threshold) {
        return Err(ErrorCode::InvalidLiquidationThreshold);
    }
    if !percent_in_range(liquidation_penalty) {
        return Err(ErrorCode::InvalidLiquidationPenalty);
    }
    Ok(
        LiquidityPool {
            authority: ctx.creator,
            mint_a: ctx.token_mint_a,
            mint_b: ctx.token_mint_b,
            lp_mint: ctx.lp_token_mint,
            vault_a: ctx.token_vault_a,
            vault_b: ctx.token_vault_b,
            fees_vault_a: ctx.fee_vault_a,
            fees_vault_b: ctx.fee_vault_b,
            total_liquidity: 0,
            total_borrowed_a: 0,
            total_borrowed_b: 0,
            total_borrowed: 0,
            ltv_ratio,
            liquidation_threshold,
            liquidation_penalty,
            interest_rate,
            created_at: now,
            lp_supply: 0,
            bump: ctx.bumps.liquidity_pool,
            vault_a_bump: ctx.bumps.token_vault_a,
            vault_b_bump: ctx.bumps.token_vault_b,
            fees_vault_a_bump: ctx.bumps.fee_vault_a,
            fees_vault_b_bump: ctx.bumps.fee_vault_b,
        },
    )
}

/// The caller of a parameter update and the pool it updates.
#[derive(Clone, Copy, Debug)]
pub struct SetPoolParameters {
    pub creator: Pubkey,
    pub liquidity_pool: LiquidityPool,
}

/// Replaces the pool's four parameters at once, for its authority only.
pub fn set_pool_parameters(
    ctx: &mut SetPoolParameters,
    new_ltv_ratio: u8,
    new_liquidation_threshold: u8,
    new_liquidation_penalty: u8,
    new_interest_rate: u8,
) -> (r: Result<(), ErrorCode>)
    ensures
        r is Ok <==> update_accepted(
            old(ctx).creator,
            old(ctx).liquidity_pool.authority,
            new_ltv_ratio,
            new_liquidation_threshold,
            new_liquidation_penalty,
            new_interest_rate,
        ),
        r matches Err(e) ==> e == update_error(
            old(ctx).creator,
            old(ctx).liquidity_pool.authority,
            new_ltv_ratio,
            new_liquidation_threshold,
            new_liquidation_penalty,
        ),
        r is Err ==> *final(ctx) == *old(ctx),
        r is Ok ==> *final(ctx) == (SetPoolParameters {
            liquidity_pool: LiquidityPool {
                ltv_ratio: new_ltv_ratio,
                liquidation_threshold: new_liquidation_threshold,
                liquidation_penalty: new_liquidation_penalty,
                interest_rate: new_interest_rate,
                ..old(ctx).liquidity_pool
            },
            ..*old(ctx)
        }),
        old(ctx).liquidity_pool.wf() ==> final(ctx).liquidity_pool.wf(),
{
    if !(ctx.creator == ctx.liquidity_pool.authority) {
        return Err(ErrorCode::InvalidAuthority);
    }
    if new_ltv_ratio > new_liquidation_threshold {
        return Err(ErrorCode::InvalidLtvThreshold);
    }
    if new_liquidation_penalty >= 100 {
        return Err(ErrorCode::InvalidPenalty);
    }
    if new_interest_rate > 100 {
        return Err(ErrorCode::InvalidInterestRate);
    }
    ctx.liquidity_pool.ltv_ratio = new_ltv_ratio;
    ctx.liquidity_pool.liquidation_threshold = new_liquidation_threshold;
    ctx.liquidity_pool.liquidation_penalty = new_liquidation_penalty;
    ctx.liquidity_pool.interest_rate = new_interest_rate;
    Ok(())
}

} // verus!
