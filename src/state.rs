use vstd::prelude::*;

use crate::pubkey::Pubkey;

verus! {

/// A two-mint liquidity pool and its lending parameters.
#[derive(Clone, Copy, Debug)]
pub struct LiquidityPool {
    pub authority: Pubkey,
    pub mint_a: Pubkey,
    pub mint_b: Pubkey,
    pub lp_mint: Pubkey,
    pub vault_a: Pubkey,
    pub vault_b: Pubkey,
    pub fees_vault_a: Pubkey,
    pub fees_vault_b: Pubkey,
    pub total_liquidity: u64,
    pub total_borrowed_a: u64,
    pub total_borrowed_b: u64,
    pub total_borrowed: u64,
    pub ltv_ratio: u8,
    pub liquidation_threshold: u8,
    pub liquidation_penalty: u8,
    /// Stored, never applied: no interest accrues.
    pub interest_rate: u8,
    pub created_at: i64,
    /// Stored, never changed after creation.
    pub lp_supply: u64,
    pub bump: u8,
    pub vault_a_bump: u8,
    pub vault_b_bump: u8,
    pub fees_vault_a_bump: u8,
    pub fees_vault_b_bump: u8,
}

impl LiquidityPool {
    /// The pool's invariant: two distinct mints, and a total borrowed that is
    /// the sum of what was borrowed of each.
    pub open spec fn wf(self) -> bool {
        &&& self.mint_a != self.mint_b
        &&& self.total_borrowed == self.total_borrowed_a + self.total_borrowed_b
    }
}

/// One liquidity provider's contributions. Every counter only grows.
#[derive(Clone, Copy, Debug)]
pub struct LiquidityProviderInfo {
    pub provider: Pubkey,
    /// The pool of the latest contribution; all zero before the first.
    pub liquidity_pool: Pubkey,
    pub provided_token_a: u64,
    pub provided_token_b: u64,
    pub total_liquidity_provided: u64,
    pub total_lp_tokens: u64,
}

/// How long a loan runs before it may be liquidated.
#[derive(Clone, Copy, Debug, PartialEq, Eq, Structural)]
pub enum BorrowDuration {
    TenDays,
    TwentyDays,
    ThirtyDays,
}

impl BorrowDuration {
    /// The number that the loan's expiry adds to its start time. It is added
    /// as seconds, though the variants are named for days.
    pub open spec fn spec_seconds(self) -> int {
        match self {
            BorrowDuration::TenDays => 10,
            BorrowDuration::TwentyDays => 20,
            BorrowDuration::ThirtyDays => 30,
        }
    }

    pub fn seconds(&self) -> (r: i64)
        ensures
            r == self.spec_seconds(),
    {
        match self {
            BorrowDuration::TenDays => 10,
            BorrowDuration::TwentyDays => 20,
            BorrowDuration::ThirtyDays => 30,
        }
    }

    /// The duration a borrow's selector stands for: 1 and 2 both give
    /// twenty days, anything but 1 and 2 gives ten, thirty is never chosen.
    pub open spec fn spec_from_selector(selector: u8) -> BorrowDuration {
        if selector == 1 || selector == 2 {
            BorrowDuration::TwentyDays
        } else {
            BorrowDuration::TenDays
        }
    }

    pub fn from_selector(selector: u8) -> (r: BorrowDuration)
        ensures
            r == BorrowDuration::spec_from_selector(selector),
    {
        match selector {
            0 => BorrowDuration::TenDays,
            1 => BorrowDuration::TwentyDays,
            2 => BorrowDuration::TwentyDays,
            _ => BorrowDuration::TenDays,
        }
    }
}

/// A borrower's single position: debt and collateral, across all pools.
#[derive(Clone, Copy, Debug)]
pub struct BorrowInfo {
    pub borrower: Pubkey,
    pub borrowed_from_pool: Pubkey,
    pub total_borrowed: u64,
    pub total_collateral: u64,
    pub borrowed_at: i64,
    pub borrow_duration: BorrowDuration,
    /// Stored, always reset to zero.
    pub repaid_amount: u64,
    /// Stored, never set.
    pub is_closed: bool,
}

impl BorrowInfo {
    /// The time after which the loan may be liquidated.
    pub open spec fn expiry(self) -> int {
        self.borrowed_at + self.borrow_duration.spec_seconds()
    }
}

} // verus!
