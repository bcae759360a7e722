use vstd::prelude::*;

use crate::pubkey::Pubkey;

verus! {

/// A token movement that an operation asks the host to carry out.
#[derive(Clone, Copy, Debug, PartialEq, Eq)]
pub enum TokenInstruction {
    /// Move `amount` of `mint` from `from` to `to`, authorized by
    /// `authority`; `pool_signs` says the authority is the pool itself,
    /// which signs with its derived address.
    Transfer { from: Pubkey, to: Pubkey, authority: Pubkey, mint: Pubkey, amount: u64, pool_signs: bool },
    /// Issue `amount` new shares of `mint` to `to`, signed by the pool
    /// `authority`.
    MintTo { mint: Pubkey, to: Pubkey, authority: Pubkey, amount: u64 },
}

} // verus!
