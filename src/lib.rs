//! Accounting core of a collateralized lending protocol: liquidity pools,
//! provider contributions, borrow positions, repayment and liquidation.
//!
//! Every operation is a pure function over the records it touches. It either
//! fails with an [`ErrorCode`] and leaves every record as it was, or it
//! updates the records and returns the token movements that the host must
//! carry out in the same transaction.

pub mod error;
pub mod ledger;
pub mod pubkey;
pub mod state;
pub mod token;

pub mod borrow_funds;
pub mod init_liquidity_provider;
pub mod initialize_pool;
pub mod liquidate;
pub mod provide_liquidity;
pub mod repay_funds;

pub use error::ErrorCode;
pub use pubkey::Pubkey;
pub use state::{BorrowDuration, BorrowInfo, LiquidityPool, LiquidityProviderInfo};
pub use token::TokenInstruction;

pub use borrow_funds::{borrow_funds, BorrowFunds};
pub use init_liquidity_provider::{initialize_liquidity_provider, InitLiquidityProvider};
pub use initialize_pool::{
    initialize_liquidity_pool, set_pool_parameters, InitializeLiquidityPool, PoolBumps,
    SetPoolParameters,
};
pub use liquidate::{handler, Liquidate};
pub use provide_liquidity::{provide_liquidity, ProvideLiquidity};
pub use repay_funds::{repay_funds, RepayFunds};
