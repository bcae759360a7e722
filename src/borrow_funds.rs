use vstd::prelude::*;

use crate::error::ErrorCode;
use crate::ledger::{checked_difference, checked_product, checked_sum};
use crate::pubkey::Pubkey;
use crate::state::{BorrowDuration, BorrowInfo, LiquidityPool};
use crate::token::TokenInstruction;

verus! {

/// What a loan of collateral `amount` yields at loan-to-value `ltv` percent:
/// rounded down.
pub open spec fn borrowed_share(amount: int, ltv: int) -> int {
    amount * ltv / 100
}

/// True when `post` is `pre` after one borrow of collateral `amount` at
/// loan-to-value `ltv`: the debt grows by the share, the collateral by `amount`.
pub open spec fn borrow_applied(pre: BorrowInfo, post: BorrowInfo, amount: u64, ltv: u8) -> bool {
    &&& post.total_borrowed == pre.total_borrowed + borrowed_share(amount as int, ltv as int)
    &&& post.total_collateral == pre.total_collateral + amount
}

/// The debt that a run of borrows adds up to. Each draw is a collateral
/// amount and the loan-to-value in force at that call.
pub open spec fn borrowed_sum(draws: Seq<(u64, u8)>) -> int
    decreases draws.len(),
{
    if draws.len() == 0 {
        0
    } else {
        borrowed_sum(draws.drop_last()) + borrowed_share(
            draws.last().0 as int,
            draws.last().1 as int,
        )
    }
}

/// The collateral that a run of borrows adds up to.
pub open spec fn collateral_sum(draws: Seq<(u64, u8)>) -> int
    decreases draws.len(),
{
    if draws.len() == 0 {
        0
    } else {
        collateral_sum(draws.drop_last()) + draws.last().0
    }
}

/// Over a run of borrows by one borrower with no repayment between them, the
/// position's debt grows by the running sum of each call's loan, and its
/// collateral by the running sum of each call's collateral. `positions[i]` is
/// the position before call `i`, and `positions[i + 1]` the one after it.
pub proof fn lemma_borrows_accumulate(positions: Seq<BorrowInfo>, draws: Seq<(u64, u8)>)
    requires
        positions.len() == draws.len() + 1,
        forall|i: int|
            0 <= i < draws.len() ==> borrow_applied(
                #[trigger] positions[i],
                positions[i + 1],
                draws[i].0,
                draws[i].1,
            ),
    ensures
        positions.last().total_borrowed == positions[0].total_borrowed + borrowed_sum(draws),
        positions.last().total_collateral == positions[0].total_collateral + collateral_sum(draws),
    decreases draws.len(),
{
    if draws.len() > 0 {
        let n = draws.len() - 1;
        assert(borrow_applied(positions[n], positions[n + 1], draws[n].0, draws[n].1));
        lemma_borrows_accumulate(positions.drop_last(), draws.drop_last());
    }
}

/// The records and accounts that a borrow reads and writes.
#[derive(Clone, Copy, Debug)]
pub struct BorrowFunds {
    pub borrower: Pubkey,
    /// The mint the borrower receives.
    pub wanted_mint: Pubkey,
    /// The mint the borrower posts as collateral.
    pub giving_mint: Pubkey,
    pub borrower_account_info: BorrowInfo,
    pub liquidity_pool_key: Pubkey,
    pub liquidity_pool: LiquidityPool,
    /// The borrower's account of the wanted mint.
    pub borrower_ata: Pubkey,
    /// The borrower's account of the collateral mint.
    pub borrower_collateral_ata: Pubkey,
}

impl BorrowFunds {
    pub open spec fn gives_a(self) -> bool {
        self.giving_mint == self.liquidity_pool.mint_a
    }

    /// The collateral is one of the pool's two mints.
    pub open spec fn valid_mint(self) -> bool {
        self.giving_mint == self.liquidity_pool.mint_a || self.giving_mint
            == self.liquidity_pool.mint_b
    }

    pub open spec fn collateral_mint(self) -> Pubkey {
        if self.gives_a() {
            self.liquidity_pool.mint_a
        } else {
            self.liquidity_pool.mint_b
        }
    }

    pub open spec fn borrow_mint(self) -> Pubkey {
        if self.gives_a() {
            self.liquidity_pool.mint_b
        } else {
            self.liquidity_pool.mint_a
        }
    }

    /// The loan is counted against mint A.
    pub open spec fn borrows_a(self) -> bool {
        self.borrow_mint() == self.liquidity_pool.mint_a
    }

    pub open spec fn share(self, amount: u64) -> int {
        borrowed_share(amount as int, self.liquidity_pool.ltv_ratio as int)
    }

    pub open spec fn new_borrowed_a(self, amount: u64) -> int {
        if self.borrows_a() {
            self.liquidity_pool.total_borrowed_a + self.share(amount)
        } else {
            self.liquidity_pool.total_borrowed_a as int
        }
    }

    pub open spec fn new_borrowed_b(self, amount: u64) -> int {
        if self.borrows_a() {
            self.liquidity_pool.total_borrowed_b as int
        } else {
            self.liquidity_pool.total_borrowed_b + self.share(amount)
        }
    }

    /// Some step of the bookkeeping leaves the range of `u64`.
    pub open spec fn leaves_range(self, amount: u64) -> bool {
        ||| amount * self.liquidity_pool.ltv_ratio > u64::MAX
        ||| self.borrower_account_info.total_borrowed + self.share(amount) > u64::MAX
        ||| self.borrower_account_info.total_collateral + amount > u64::MAX
        ||| self.share(amount) > self.liquidity_pool.total_liquidity
        ||| self.new_borrowed_a(amount) > u64::MAX
        ||| self.new_borrowed_b(amount) > u64::MAX
        ||| self.new_borrowed_a(amount) + self.new_borrowed_b(amount) > u64::MAX
    }

    /// The records after a successful borrow.
    pub open spec fn after(self, amount: u64, selector: u8, now: i64) -> BorrowFunds {
        let info = self.borrower_account_info;
        let pool = self.liquidity_pool;
        BorrowFunds {
            borrower_account_info: BorrowInfo {
                borrower: self.borrower,
                borrowed_from_pool: self.liquidity_pool_key,
                total_borrowed: (info.total_borrowed + self.share(amount)) as u64,
                total_collateral: (info.total_collateral + amount) as u64,
                borrowed_at: now,
                borrow_duration: BorrowDuration::spec_from_selector(selector),
                repaid_amount: 0,
                is_closed: false,
            },
            liquidity_pool: LiquidityPool {
                total_liquidity: (pool.total_liquidity - self.share(amount)) as u64,
                total_borrowed_a: self.new_borrowed_a(amount) as u64,
                total_borrowed_b: self.new_borrowed_b(amount) as u64,
                total_borrowed: (self.new_borrowed_a(amount) + self.new_borrowed_b(
                    amount,
                )) as u64,
                ..pool
            },
            ..self
        }
    }

    /// The token movements of a successful borrow: the collateral into the
    /// pool's vault of its mint, then the loan out of the vault of the other
    /// mint, signed by the pool.
    pub open spec fn instructions(self, amount: u64) -> Seq<TokenInstruction> {
        let pool = self.liquidity_pool;
        seq![
            TokenInstruction::Transfer {
                from: self.borrower_collateral_ata,
                to: if self.collateral_mint() == pool.mint_a {
                    pool.vault_a
                } else {
                    pool.vault_b
                },
                authority: self.borrower,
                mint: self.giving_mint,
                amount: amount,
                pool_signs: false,
            },
            TokenInstruction::Transfer {
                from: if self.borrows_a() {
                    pool.vault_a
                } else {
                    pool.vault_b
                },
                to: self.borrower_ata,
                authority: self.liquidity_pool_key,
                mint: self.wanted_mint,
                amount: self.share(amount) as u64,
                pool_signs: true,
            },
        ]
    }
}

/// Posts `amount` of collateral and borrows the other mint of the pool,
/// `amount * ltv / 100` of it rounded down. The borrower's position
/// accumulates debt and collateral, restarts its clock at `now` and takes the
/// duration that `borrow_duration` selects.
pub fn borrow_funds(ctx: &mut BorrowFunds, amount: u64, borrow_duration: u8, now: i64) -> (r: Result<
    Vec<TokenInstruction>,
    ErrorCode,
>)
    ensures
        !old(ctx).valid_mint() ==> r == Err::<Vec<TokenInstruction>, ErrorCode>(
            ErrorCode::InvalidMint,
        ),
        old(ctx).valid_mint() && old(ctx).leaves_range(amount) ==> r == Err::<
            Vec<TokenInstruction>,
            ErrorCode,
        >(ErrorCode::MathOverflow),
        r is Ok <==> old(ctx).valid_mint() && !old(ctx).leaves_range(amount),
        r is Err ==> *final(ctx) == *old(ctx),
        r is Ok ==> *final(ctx) == old(ctx).after(amount, borrow_duration, now),
        r matches Ok(v) ==> v@ == old(ctx).instructions(amount),
        r is Ok ==> borrow_applied(
            old(ctx).borrower_account_info,
            final(ctx).borrower_account_info,
            amount,
            old(ctx).liquidity_pool.ltv_ratio,
        ),
        old(ctx).liquidity_pool.wf() ==> final(ctx).liquidity_pool.wf(),
{
    let pool = ctx.liquidity_pool;
    let info = ctx.borrower_account_info;
    let gives_a = ctx.giving_mint == pool.mint_a;
    if !gives_a && !(ctx.giving_mint == pool.mint_b) {
        return Err(ErrorCode::InvalidMint);
    }
    let (collateral_mint, borrow_mint) = if gives_a {
        (pool.mint_a, pool.mint_b)
    } else {
        (pool.mint_b, pool.mint_a)
    };

    let product = checked_product(amount, pool.ltv_ratio as u64, ErrorCode::MathOverflow)?;
    let borrow_amount = product / 100;

    let total_borrowed = checked_sum(info.total_borrowed, borrow_amount, ErrorCode::MathOverflow)?;
    let total_collateral = checked_sum(info.total_collateral, amount, ErrorCode::MathOverflow)?;
    let total_liquidity = checked_difference(
        pool.total_liquidity,
        borrow_amount,
        ErrorCode::MathOverflow,
    )?;
    let borrows_a = borrow_mint == pool.mint_a;
    let mut borrowed_a = pool.total_borrowed_a;
    let mut borrowed_b = pool.total_borrowed_b;
    if borrows_a {
        borrowed_a = checked_sum(borrowed_a, borrow_amount, ErrorCode::MathOverflow)?;
    } else {
        borrowed_b = checked_sum(borrowed_b, borrow_amount, ErrorCode::MathOverflow)?;
    }
    let borrowed = checked_sum(borrowed_a, borrowed_b, ErrorCode::MathOverflow)?;

    let mut out: Vec<TokenInstruction> = Vec::new();
    out.push(
        TokenInstruction::Transfer {
            from: ctx.borrower_collateral_ata,
            to: if collateral_mint == pool.mint_a {
                pool.vault_a
            } else {
                pool.vault_b
            },
            authority: ctx.borrower,
            mint: ctx.giving_mint,
            amount,
            pool_signs: false,
        },
    );
    out.push(
        TokenInstruction::Transfer {
            from: if borrows_a {
                pool.vault_a
            } else {
                pool.vault_b
            },
            to: ctx.borrower_ata,
            authority: ctx.liquidity_pool_key,
            mint: ctx.wanted_mint,
            amount: borrow_amount,
            pool_signs: true,
        },
    );

    ctx.borrower_account_info = BorrowInfo {
        borrower: ctx.borrower,
        borrowed_from_pool: ctx.liquidity_pool_key,
        total_borrowed,
        total_collateral,
        borrowed_at: now,
        borrow_duration: BorrowDuration::from_selector(borrow_duration),
        repaid_amount: 0,
        is_closed: false,
    };
    ctx.liquidity_pool.total_liquidity = total_liquidity;
    ctx.liquidity_pool.total_borrowed_a = borrowed_a;
    ctx.liquidity_pool.total_borrowed_b = borrowed_b;
    ctx.liquidity_pool.total_borrowed = borrowed;
    Ok(out)
}

} // verus!
