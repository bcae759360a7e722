use vstd::prelude::*;

use crate::error::ErrorCode;
use crate::ledger::checked_sum;
use crate::pubkey::Pubkey;
use crate::state::{LiquidityPool, LiquidityProviderInfo};
use crate::token::TokenInstruction;

verus! {

/// The records and accounts that a contribution of liquidity reads and writes.
#[derive(Clone, Copy, Debug)]
pub struct ProvideLiquidity {
    pub provider: Pubkey,
    pub token_mint_a: Pubkey,
    pub token_mint_b: Pubkey,
    pub lp_token_mint: Pubkey,
    pub liquidity_pool_key: Pubkey,
    pub liquidity_pool: LiquidityPool,
    pub liquidity_provider_account: LiquidityProviderInfo,
    pub provider_token_a_ata: Pubkey,
    pub provider_token_b_ata: Pubkey,
    pub token_vault_a: Pubkey,
    pub token_vault_b: Pubkey,
    pub provider_lp_mint_ata: Pubkey,
}

impl ProvideLiquidity {
    /// Some counter would leave the range of `u64`.
    pub open spec fn overflows(self, token_a_amount: u64, token_b_amount: u64) -> bool {
        let lp = token_a_amount + token_b_amount;
        let prov = self.liquidity_provider_account;
        ||| lp > u64::MAX
        ||| self.liquidity_pool.total_liquidity + lp > u64::MAX
        ||| prov.provided_token_a + token_a_amount > u64::MAX
        ||| prov.provided_token_b + token_b_amount > u64::MAX
        ||| prov.total_liquidity_provided + lp > u64::MAX
        ||| prov.total_lp_tokens + lp > u64::MAX
    }

    /// The records after a successful contribution: one share per token
    /// deposited, and the provider bound to this pool.
    pub open spec fn after(self, token_a_amount: u64, token_b_amount: u64) -> ProvideLiquidity {
        let lp = token_a_amount + token_b_amount;
        let prov = self.liquidity_provider_account;
        ProvideLiquidity {
            liquidity_pool: LiquidityPool {
                total_liquidity: (self.liquidity_pool.total_liquidity + lp) as u64,
                ..self.liquidity_pool
            },
            liquidity_provider_account: LiquidityProviderInfo {
                liquidity_pool: self.liquidity_pool_key,
                provided_token_a: (prov.provided_token_a + token_a_amount) as u64,
                provided_token_b: (prov.provided_token_b + token_b_amount) as u64,
                total_liquidity_provided: (prov.total_liquidity_provided + lp) as u64,
                total_lp_tokens: (prov.total_lp_tokens + lp) as u64,
                ..prov
            },
            ..self
        }
    }

    /// The token movements of a successful contribution: both deposits into
    /// the vaults, then the shares issued by the pool.
    pub open spec fn instructions(self, token_a_amount: u64, token_b_amount: u64) -> Seq<
        TokenInstruction,
    > {
        seq![
            TokenInstruction::Transfer {
                from: self.provider_token_a_ata,
                to: self.token_vault_a,
                authority: self.provider,
                mint: self.token_mint_a,
                amount: token_a_amount,
                pool_signs: false,
            },
            TokenInstruction::Transfer {
                from: self.provider_token_b_ata,
                to: self.token_vault_b,
                authority: self.provider,
                mint: self.token_mint_b,
                amount: token_b_amount,
                pool_signs: false,
            },
            TokenInstruction::MintTo {
                mint: self.lp_token_mint,
                to: self.provider_lp_mint_ata,
                authority: self.liquidity_pool_key,
                amount: (token_a_amount + token_b_amount) as u64,
            },
        ]
    }
}

/// Deposits equal amounts of both mints into the pool and issues
/// `token_a_amount + token_b_amount` shares to the provider.
pub fn provide_liquidity(ctx: &mut ProvideLiquidity, token_a_amount: u64, token_b_amount: u64) -> (r:
    Result<Vec<TokenInstruction>, ErrorCode>)
    ensures
        token_a_amount != token_b_amount ==> r == Err::<Vec<TokenInstruction>, ErrorCode>(
            ErrorCode::InvalidLiquidityAmount,
        ),
        token_a_amount == token_b_amount && old(ctx).overflows(token_a_amount, token_b_amount)
            ==> r == Err::<Vec<TokenInstruction>, ErrorCode>(ErrorCode::Overflow),
        r is Ok <==> token_a_amount == token_b_amount && !old(ctx).overflows(
            token_a_amount,
            token_b_amount,
        ),
        r is Err ==> *final(ctx) == *old(ctx),
        r is Ok ==> *final(ctx) == old(ctx).after(token_a_amount, token_b_amount),
        r matches Ok(v) ==> v@ == old(ctx).instructions(token_a_amount, token_b_amount),
        old(ctx).liquidity_pool.wf() ==> final(ctx).liquidity_pool.wf(),
{
    if token_a_amount != token_b_amount {
        return Err(ErrorCode::InvalidLiquidityAmount);
    }
    let lp_tokens_to_mint = checked_sum(token_a_amount, token_b_amount, ErrorCode::Overflow)?;
    let prov = ctx.liquidity_provider_account;
    let total_liquidity = checked_sum(
        ctx.liquidity_pool.total_liquidity,
        lp_tokens_to_mint,
        ErrorCode::Overflow,
    )?;
    let provided_token_a = checked_sum(prov.provided_token_a, token_a_amount, ErrorCode::Overflow)?;
    let provided_token_b = checked_sum(prov.provided_token_b, token_b_amount, ErrorCode::Overflow)?;
    let total_liquidity_provided = checked_sum(
        prov.total_liquidity_provided,
        lp_tokens_to_mint,
        ErrorCode::Overflow,
    )?;
    let total_lp_tokens = checked_sum(prov.total_lp_tokens, lp_tokens_to_mint, ErrorCode::Overflow)?;

    let mut out: Vec<TokenInstruction> = Vec::new();
    out.push(
        TokenInstruction::Transfer {
            from: ctx.provider_token_a_ata,
            to: ctx.token_vault_a,
            authority: ctx.provider,
            mint: ctx.token_mint_a,
            amount: token_a_amount,
            pool_signs: false,
        },
    );
    out.push(
        TokenInstruction::Transfer {
            from: ctx.provider_token_b_ata,
            to: ctx.token_vault_b,
            authority: ctx.provider,
            mint: ctx.token_mint_b,
            amount: token_b_amount,
            pool_signs: false,
        },
    );
    out.push(
        TokenInstruction::MintTo {
            mint: ctx.lp_token_mint,
            to: ctx.provider_lp_mint_ata,
            authority: ctx.liquidity_pool_key,
            amount: lp_tokens_to_mint,
        },
    );

    ctx.liquidity_pool.total_liquidity = total_liquidity;
    ctx.liquidity_provider_account = LiquidityProviderInfo {
        provider: prov.provider,
        liquidity_pool: ctx.liquidity_pool_key,
        provided_token_a,
        provided_token_b,
        total_liquidity_provided,
        total_lp_tokens,
    };
    Ok(out)
}

} // verus!
