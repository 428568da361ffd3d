//! A registry of liquidity pools. Each pool administers a swap through an
//! address that the registry derives from seeds, and acts on the swap by
//! calls that carry those seeds in place of a signature.

pub mod account_validators;
pub mod accounts;
pub mod address;
pub mod cpi_helpers;
pub mod errors;
pub mod identity;
pub mod import_pool;
pub mod instructions;
pub mod laws;
pub mod pools;
pub mod state;

pub use accounts::{
    Account, CommitNewAdmin, Gauge, ImportPoolAsOperator, ImportPoolPermissionless, Mint,
    NewPoolManager, Quarry, RotateAdmin, SendFeesToBeneficiary, SetBeneficiary, SetOperator,
    SwapContext, SwapInfo, SwapTokenInfo, TokenAccount,
};
pub use address::Address;
pub use errors::{ErrorCode, Fault};
pub use instructions::create_quarry::CreateQuarry;
pub use instructions::enable_gauge::EnableGauge;
pub use state::{Pool, PoolManager, SwapFees};
