//! What an operation reads of the accounts that a caller hands in.

use vstd::prelude::*;
use crate::address::Address;
use crate::state::{Pool, PoolManager, SwapFees};

verus! {

/// A record together with the address that it is stored at.
#[derive(Clone, Copy, Debug, PartialEq, Eq)]
pub struct Account<T> {
    /// Where the record is stored.
    pub key: Address,
    /// The record.
    pub data: T,
}

/// One side of a swap.
#[derive(Clone, Copy, Debug, PartialEq, Eq)]
pub struct SwapTokenInfo {
    /// Mint of the token.
    pub mint: Address,
    /// Account that the admin's share of the fees is paid into.
    pub admin_fees: Address,
}

/// What the registry reads of a swap.
#[derive(Clone, Copy, Debug, PartialEq, Eq)]
pub struct SwapInfo {
    /// Initial amplification coefficient.
    pub initial_amp_factor: u64,
    /// Target amplification coefficient.
    pub target_amp_factor: u64,
    /// The identity that may administer the swap.
    pub admin_key: Address,
    /// Token A.
    pub token_a: SwapTokenInfo,
    /// Token B.
    pub token_b: SwapTokenInfo,
    /// Mint of the swap's pool token.
    pub pool_mint: Address,
    /// The swap's fees.
    pub fees: SwapFees,
}

/// What the registry reads of a token account.
#[derive(Clone, Copy, Debug, PartialEq, Eq)]
pub struct TokenAccount {
    /// Mint of the tokens held.
    pub mint: Address,
    /// Owner of the account.
    pub owner: Address,
    /// Number of tokens held.
    pub amount: u64,
    /// Identity that may spend from the account beside the owner.
    pub delegate: Option<Address>,
    /// Identity that may close the account in the owner's place.
    pub close_authority: Option<Address>,
}

/// What the registry reads of a token mint.
#[derive(Clone, Copy, Debug, PartialEq, Eq)]
pub struct Mint {
    /// Number of decimals of the token.
    pub decimals: u8,
}

/// What the registry reads of a quarry of the reward service.
#[derive(Clone, Copy, Debug, PartialEq, Eq)]
pub struct Quarry {
    /// Mint of the token that is staked in the quarry.
    pub token_mint_key: Address,
}

/// What the registry reads of a gauge of the incentive service.
#[derive(Clone, Copy, Debug, PartialEq, Eq)]
pub struct Gauge {
    /// The quarry that the gauge directs rewards to.
    pub quarry: Address,
}

/// Accounts for creating a [PoolManager].
#[derive(Clone, Copy, Debug, PartialEq, Eq)]
pub struct NewPoolManager {
    /// The [PoolManager].
    pub pool_manager: Account<PoolManager>,
    /// Base key.
    pub base: Address,
    /// Admin of the [PoolManager].
    pub admin: Address,
    /// Operator of the [PoolManager].
    pub operator: Address,
    /// Beneficiary of the [PoolManager].
    pub beneficiary: Address,
}

/// Accounts for importing a [Pool].
#[derive(Clone, Copy, Debug, PartialEq, Eq)]
pub struct ImportPoolPermissionless {
    /// The [PoolManager].
    pub pool_manager: Account<PoolManager>,
    /// Swap to import.
    pub swap: Account<SwapInfo>,
    /// The [Pool] to fill in.
    pub pool: Account<Pool>,
    /// Fee account for token A.
    pub token_a_fees: Account<TokenAccount>,
    /// Fee account for token B.
    pub token_b_fees: Account<TokenAccount>,
    /// Mint of the LP token.
    pub lp_mint: Account<Mint>,
}

/// Accounts for importing a [Pool] as admin or operator.
#[derive(Clone, Copy, Debug, PartialEq, Eq)]
pub struct ImportPoolAsOperator {
    /// The caller, who must be the admin or operator of the [PoolManager].
    pub admin_or_operator: Address,
    /// Import pool accounts.
    pub import_pool: ImportPoolPermissionless,
}

/// Accounts for an admin action on a pool's swap.
#[derive(Clone, Copy, Debug, PartialEq, Eq)]
pub struct SwapContext {
    /// The [PoolManager].
    pub pool_manager: Account<PoolManager>,
    /// The swap to act on.
    pub swap: Address,
    /// The [Pool] that administers the swap.
    pub pool: Account<Pool>,
    /// The program that runs the swap.
    pub swap_program: Address,
    /// The caller, who must be the manager's admin.
    pub admin: Address,
}

/// Accounts for proposing a new admin of a pool's swap.
#[derive(Clone, Copy, Debug, PartialEq, Eq)]
pub struct CommitNewAdmin {
    /// The [PoolManager].
    pub pool_manager: Account<PoolManager>,
    /// The swap to act on.
    pub swap: Address,
    /// The [Pool] that administers the swap.
    pub pool: Account<Pool>,
    /// The caller, who must be the manager's admin.
    pub admin: Address,
    /// The proposed admin of the swap.
    pub new_admin: Address,
    /// The program that runs the swap.
    pub swap_program: Address,
}

/// Accounts for sending a pool's fees to the beneficiary.
#[derive(Clone, Copy, Debug, PartialEq, Eq)]
pub struct SendFeesToBeneficiary {
    /// The [PoolManager].
    pub pool_manager: Account<PoolManager>,
    /// The [Pool] that owns the fee account.
    pub pool: Account<Pool>,
    /// The fee account to empty.
    pub fee_account: Account<TokenAccount>,
    /// The account to pay into.
    pub beneficiary_account: Account<TokenAccount>,
    /// The token program.
    pub token_program: Address,
}

/// Accounts for handing the manager to a new admin.
#[derive(Clone, Copy, Debug, PartialEq, Eq)]
pub struct RotateAdmin {
    /// The [PoolManager].
    pub pool_manager: Account<PoolManager>,
    /// The caller, who must be the manager's admin.
    pub admin: Address,
    /// The new admin.
    pub new_admin: Address,
}

/// Accounts for setting the manager's operator.
#[derive(Clone, Copy, Debug, PartialEq, Eq)]
pub struct SetOperator {
    /// The [PoolManager].
    pub pool_manager: Account<PoolManager>,
    /// The caller, who must be the manager's admin.
    pub admin: Address,
    /// The new operator.
    pub operator: Address,
}

/// Accounts for setting the manager's beneficiary.
#[derive(Clone, Copy, Debug, PartialEq, Eq)]
pub struct SetBeneficiary {
    /// The [PoolManager].
    pub pool_manager: Account<PoolManager>,
    /// The caller, who must be the manager's admin.
    pub admin: Address,
    /// The new beneficiary.
    pub beneficiary: Address,
}

} // verus!
