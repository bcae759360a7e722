use vstd::prelude::*;

use crate::error::ErrorCode;
use crate::ledger::checked_difference;
use crate::pubkey::Pubkey;
use crate::state::{BorrowInfo, LiquidityPool};
use crate::token::TokenInstruction;

verus! {

/// The records and accounts that a repayment reads and writes.
#[derive(Clone, Copy, Debug)]
pub struct RepayFunds {
    pub borrower: Pubkey,
    /// The mint that was borrowed and is paid back.
    pub wanted_mint: Pubkey,
    /// The mint that was posted as collateral.
    pub giving_mint: Pubkey,
    pub borrower_account_info: BorrowInfo,
    pub liquidity_pool_key: Pubkey,
    pub liquidity_pool: LiquidityPool,
    /// The borrower's account of the borrowed mint.
    pub borrower_ata: Pubkey,
    /// The borrower's account of the collateral mint.
    pub borrower_collateral_ata: Pubkey,
}

impl RepayFunds {
    /// The position's pool reference equals the pool's mint A: the repayment
    /// then goes to vault A and the collateral comes back from fee vault B;
    /// otherwise vault B and fee vault A.
    pub open spec fn routes_to_a(self) -> bool {
        self.borrower_account_info.borrowed_from_pool == self.liquidity_pool.mint_a
    }

    /// The repayment clears the debt.
    pub open spec fn clears_debt(self, repay_amount: u64) -> bool {
        self.borrower_account_info.total_borrowed == repay_amount
    }

    pub open spec fn repay_transfer(self, repay_amount: u64) -> TokenInstruction {
        TokenInstruction::Transfer {
            from: self.borrower_ata,
            to: if self.routes_to_a() {
                self.liquidity_pool.vault_a
            } else {
                self.liquidity_pool.vault_b
            },
            authority: self.borrower,
            mint: self.wanted_mint,
            amount: repay_amount,
            pool_signs: false,
        }
    }

    pub open spec fn release_transfer(self) -> TokenInstruction {
        TokenInstruction::Transfer {
            from: if self.routes_to_a() {
                self.liquidity_pool.fees_vault_b
            } else {
                self.liquidity_pool.fees_vault_a
            },
            to: self.borrower_collateral_ata,
            authority: self.liquidity_pool_key,
            mint: self.giving_mint,
            amount: self.borrower_account_info.total_collateral,
            pool_signs: true,
        }
    }

    /// The token movements of a successful repayment: the payment, and on
    /// full repayment the release of all the collateral.
    pub open spec fn instructions(self, repay_amount: u64) -> Seq<TokenInstruction> {
        if self.clears_debt(repay_amount) {
            seq![self.repay_transfer(repay_amount), self.release_transfer()]
        } else {
            seq![self.repay_transfer(repay_amount)]
        }
    }

    /// The records after a successful repayment.
    pub open spec fn after(self, repay_amount: u64) -> RepayFunds {
        let info = self.borrower_account_info;
        RepayFunds {
            borrower_account_info: BorrowInfo {
                total_borrowed: (info.total_borrowed - repay_amount) as u64,
                total_collateral: if self.clears_debt(repay_amount) {
                    0
                } else {
                    info.total_collateral
                },
                ..info
            },
            ..self
        }
    }
}

/// Pays back `repay_amount` of the debt. When that clears the debt, the whole
/// collateral goes back to the borrower and the position holds none.
pub fn repay_funds(ctx: &mut RepayFunds, repay_amount: u64) -> (r: Result<
    Vec<TokenInstruction>,
    ErrorCode,
>)
    ensures
        repay_amount > old(ctx).borrower_account_info.total_borrowed ==> r == Err::<
            Vec<TokenInstruction>,
            ErrorCode,
        >(ErrorCode::InvalidRepayAmount),
        r is Ok <==> repay_amount <= old(ctx).borrower_account_info.total_borrowed,
        r is Err ==> *final(ctx) == *old(ctx),
        r is Ok ==> *final(ctx) == old(ctx).after(repay_amount),
        r matches Ok(v) ==> v@ == old(ctx).instructions(repay_amount),
{
    let info = ctx.borrower_account_info;
    if repay_amount > info.total_borrowed {
        return Err(ErrorCode::InvalidRepayAmount);
    }
    let pool = ctx.liquidity_pool;
    let routes_to_a = info.borrowed_from_pool == pool.mint_a;

    let mut out: Vec<TokenInstruction> = Vec::new();
    out.push(
        TokenInstruction::Transfer {
            from: ctx.borrower_ata,
            to: if routes_to_a {
                pool.vault_a
            } else {
                pool.vault_b
            },
            authority: ctx.borrower,
            mint: ctx.wanted_mint,
            amount: repay_amount,
            pool_signs: false,
        },
    );

    let remaining = checked_difference(
        info.total_borrowed,
        repay_amount,
        ErrorCode::InvalidRepayAmount,
    )?;
    ctx.borrower_account_info.total_borrowed = remaining;

    if remaining == 0 {
        out.push(
            TokenInstruction::Transfer {
                from: if routes_to_a {
                    pool.fees_vault_b
                } else {
                    pool.fees_vault_a
                },
                to: ctx.borrower_collateral_ata,
                authority: ctx.liquidity_pool_key,
                mint: ctx.giving_mint,
                amount: info.total_collateral,
                pool_signs: true,
            },
        );
        ctx.borrower_account_info.total_collateral = 0;
    }
    proof {
        assert(out@ =~= old(ctx).instructions(repay_amount));
    }
    Ok(out)
}

} // verus!
