use vstd::prelude::*;

use crate::error::ErrorCode;
use crate::pubkey::Pubkey;
use crate::state::BorrowInfo;
use crate::token::TokenInstruction;

verus! {

/// The records and accounts that a liquidation reads and writes.
#[derive(Clone, Copy, Debug)]
pub struct Liquidate {
    pub liquidator: Pubkey,
    pub borrower: Pubkey,
    pub collateral_mint: Pubkey,
    pub borrower_account_info: BorrowInfo,
    pub borrower_collateral_ata: Pubkey,
    pub liquidator_collateral_ata: Pubkey,
}

impl Liquidate {
    /// The records after a successful liquidation: no debt, no collateral,
    /// no start time.
    pub open spec fn after(self) -> Liquidate {
        Liquidate {
            borrower_account_info: BorrowInfo {
                total_borrowed: 0,
                total_collateral: 0,
                borrowed_at: 0,
                ..self.borrower_account_info
            },
            ..self
        }
    }

    /// The one token movement of a liquidation: all the collateral, from the
    /// borrower's account to the liquidator's, authorized by the borrower.
    pub open spec fn seizure(self) -> TokenInstruction {
        TokenInstruction::Transfer {
            from: self.borrower_collateral_ata,
            to: self.liquidator_collateral_ata,
            authority: self.borrower,
            mint: self.collateral_mint,
            amount: self.borrower_account_info.total_collateral,
            pool_signs: false,
        }
    }
}

/// Seizes the whole collateral of an expired position, at time `now`. The
/// loan has expired once `now` is past its start plus its duration's number.
pub fn handler(ctx: &mut Liquidate, now: i64) -> (r: Result<Vec<TokenInstruction>, ErrorCode>)
    ensures
        now <= old(ctx).borrower_account_info.expiry() ==> r == Err::<
            Vec<TokenInstruction>,
            ErrorCode,
        >(ErrorCode::LoanNotExpired),
        now > old(ctx).borrower_account_info.expiry() && old(ctx).borrower_account_info.borrower
            != old(ctx).borrower ==> r == Err::<Vec<TokenInstruction>, ErrorCode>(
            ErrorCode::InvalidBorrower,
        ),
        r is Ok <==> now > old(ctx).borrower_account_info.expiry()
            && old(ctx).borrower_account_info.borrower == old(ctx).borrower,
        r is Err ==> *final(ctx) == *old(ctx),
        r is Ok ==> *final(ctx) == old(ctx).after(),
        r matches Ok(v) ==> v@ == seq![old(ctx).seizure()],
{
    let info = ctx.borrower_account_info;
    let expiry = info.borrowed_at as i128 + info.borrow_duration.seconds() as i128;
    if !(now as i128 > expiry) {
        return Err(ErrorCode::LoanNotExpired);
    }
    if !(info.borrower == ctx.borrower) {
        return Err(ErrorCode::InvalidBorrower);
    }
    let mut out: Vec<TokenInstruction> = Vec::new();
    out.push(
        TokenInstruction::Transfer {
            from: ctx.borrower_collateral_ata,
            to: ctx.liquidator_collateral_ata,
            authority: ctx.borrower,
            mint: ctx.collateral_mint,
            amount: info.total_collateral,
            pool_signs: false,
        },
    );
    ctx.borrower_account_info.total_borrowed = 0;
    ctx.borrower_account_info.total_collateral = 0;
    ctx.borrower_account_info.borrowed_at = 0;
    Ok(out)
}

} // verus!
