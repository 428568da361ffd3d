//! The step that both ways of importing a pool end in.

use vstd::prelude::*;
use crate::accounts::{Account, ImportPoolPermissionless};
use crate::errors::ErrorCode;
use crate::state::{sort_mints, sorted_pair, Pool, PoolManager};

verus! {

impl ImportPoolPermissionless {
    /// The pool record that an import writes: the manager's address, the
    /// swap's mints in ascending order, the manager's count as the index.
    pub open spec fn new_pool(&self, bump: u8, permissionless_import: bool) -> Pool {
        let sorted = sorted_pair(self.swap.data.token_a.mint, self.swap.data.token_b.mint);
        Pool {
            manager: self.pool_manager.key,
            mint_a: sorted.0,
            mint_b: sorted.1,
            bump,
            swap: self.swap.key,
            index: self.pool_manager.data.num_pools,
            token_a_fees: self.token_a_fees.key,
            token_b_fees: self.token_b_fees.key,
            lp_mint: self.lp_mint.key,
            token_decimals: self.lp_mint.data.decimals,
            permissionless_import,
        }
    }

    /// The accounts as an import leaves them: the new pool record, and the
    /// manager's count one higher.
    pub open spec fn imported(&self, bump: u8, permissionless_import: bool) -> ImportPoolPermissionless {
        ImportPoolPermissionless {
            pool_manager: Account {
                key: self.pool_manager.key,
                data: PoolManager {
                    num_pools: (self.pool_manager.data.num_pools + 1) as u64,
                    ..self.pool_manager.data
                },
            },
            pool: Account { key: self.pool.key, data: self.new_pool(bump, permissionless_import) },
            ..*self
        }
    }

    /// What the import step answers: the first refused relationship, then
    /// `IntegerOverflow` where the count is full, else `Ok`.
    pub open spec fn import_check(&self) -> Result<(), ErrorCode> {
        if self.check().is_err() {
            self.check()
        } else if self.pool_manager.data.num_pools == u64::MAX {
            Err(ErrorCode::IntegerOverflow)
        } else {
            Ok(())
        }
    }
}

/// Imports a pool without checking the swap against the manager's policy.
///
/// Succeeds exactly when the relationships hold and the manager's count is
/// not full. The new pool then gets the count before the call as its index,
/// the count goes up by one, and the mints are stored in ascending order.
/// Whenever it refuses, nothing has changed.
pub fn import_pool_unchecked(
    accounts: &mut ImportPoolPermissionless,
    bump: u8,
    permissionless_import: bool,
) -> (r: Result<(), ErrorCode>)
    ensures
        r == old(accounts).import_check(),
        r.is_ok() <==> (old(accounts).relationships_hold() && old(accounts).pool_manager.data.num_pools
            < u64::MAX),
        r.is_ok() ==> *final(accounts) == old(accounts).imported(bump, permissionless_import),
        r.is_ok() ==> final(accounts).pool.data.index == old(accounts).pool_manager.data.num_pools
            && final(accounts).pool_manager.data.num_pools == final(accounts).pool.data.index + 1,
        r.is_ok() ==> final(accounts).pool.data.mints_ascending(),
        r.is_err() ==> *final(accounts) == *old(accounts),
{
    accounts.validate()?;
    let num_pools = match accounts.pool_manager.data.num_pools.checked_add(1) {
        Some(n) => n,
        None => {
            return Err(ErrorCode::IntegerOverflow);
        },
    };
    let index = match num_pools.checked_sub(1) {
        Some(i) => i,
        None => {
            return Err(ErrorCode::IntegerOverflow);
        },
    };
    let sorted = sort_mints(accounts.swap.data.token_a.mint, accounts.swap.data.token_b.mint);
    accounts.pool_manager.data.num_pools = num_pools;
    accounts.pool.data = Pool {
        manager: accounts.pool_manager.key,
        mint_a: sorted.0,
        mint_b: sorted.1,
        bump,
        swap: accounts.swap.key,
        index,
        token_a_fees: accounts.token_a_fees.key,
        token_b_fees: accounts.token_b_fees.key,
        lp_mint: accounts.lp_mint.key,
        token_decimals: accounts.lp_mint.data.decimals,
        permissionless_import,
    };
    Ok(())
}

} // verus!
