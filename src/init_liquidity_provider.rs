use vstd::prelude::*;

use crate::pubkey::Pubkey;
use crate::state::LiquidityProviderInfo;

verus! {

/// A provider and the record to set up for it.
#[derive(Clone, Copy, Debug)]
pub struct InitLiquidityProvider {
    pub provider: Pubkey,
    pub liquidity_provider_account: LiquidityProviderInfo,
}

/// Sets the provider's record to an empty one: bound to no pool, every
/// counter at zero.
pub fn initialize_liquidity_provider(ctx: &mut InitLiquidityProvider)
    ensures
        final(ctx).provider == old(ctx).provider,
        final(ctx).liquidity_provider_account.provider == old(ctx).provider,
        final(ctx).liquidity_provider_account.liquidity_pool.is_zero(),
        final(ctx).liquidity_provider_account.provided_token_a == 0,
        final(ctx).liquidity_provider_account.provided_token_b == 0,
        final(ctx).liquidity_provider_account.total_liquidity_provided == 0,
        final(ctx).liquidity_provider_account.total_lp_tokens == 0,
{
    ctx.liquidity_provider_account = LiquidityProviderInfo {
        provider: ctx.provider,
        liquidity_pool: Pubkey::zero(),
        provided_token_a: 0,
        provided_token_b: 0,
        total_liquidity_provided: 0,
        total_lp_tokens: 0,
    };
}

} // verus!
