use vstd::prelude::*;

verus! {

/// Every way an operation can fail. A failed operation changes no record.
#[derive(Clone, Copy, Debug, PartialEq, Eq, Structural)]
pub enum ErrorCode {
    CustomError,
    SameTokenMints,
    InvalidAuthority,
    InvalidLtvThreshold,
    InvalidPenalty,
    InvalidInterestRate,
    InvalidLiquidityAmount,
    Overflow,
    InvalidMint,
    MathOverflow,
    InvalidLtv,
    InvalidLiquidationThreshold,
    InvalidLiquidationPenalty,
    InvalidDuration,
    InvalidRepayAmount,
    LoanNotExpired,
    InvalidBorrower,
}

} // verus!
