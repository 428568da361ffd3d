//! The checks that every operation makes on its accounts before it acts.
//!
//! Each set of accounts has a spec function `check`, which gives the first
//! refusal in the order the checks are made, or `Ok`, and a predicate that
//! says in one conjunction when nothing is refused.

use vstd::prelude::*;
use crate::accounts::{
    Account, CommitNewAdmin, ImportPoolAsOperator, ImportPoolPermissionless, RotateAdmin,
    SendFeesToBeneficiary, SetBeneficiary, SetOperator, SwapContext, SwapTokenInfo, TokenAccount,
};
use crate::address::Address;
use crate::errors::ErrorCode;
use crate::state::{Pool, PoolManager};

verus! {

/// Refuses with `error` unless the two addresses are the same.
pub open spec fn keys_eq(a: Address, b: Address, error: ErrorCode) -> Result<(), ErrorCode> {
    if a == b {
        Ok(())
    } else {
        Err(error)
    }
}

/// Refuses with `error` unless the two addresses are the same.
pub fn assert_keys_eq(a: &Address, b: &Address, error: ErrorCode) -> (r: Result<(), ErrorCode>)
    ensures
        r == keys_eq(*a, *b, error),
{
    if a.equals(b) {
        Ok(())
    } else {
        Err(error)
    }
}

/// What the admin-gated operations on a swap ask: the caller is the
/// manager's admin, the pool belongs to the manager, and the swap is the
/// pool's.
pub open spec fn admin_gate(
    pool_manager: Account<PoolManager>,
    pool: Account<Pool>,
    swap: Address,
    admin: Address,
) -> Result<(), ErrorCode> {
    if pool_manager.data.admin != admin {
        Err(ErrorCode::NotAdmin)
    } else if pool_manager.key != pool.data.manager {
        Err(ErrorCode::KeyMismatch)
    } else if swap != pool.data.swap {
        Err(ErrorCode::KeyMismatch)
    } else {
        Ok(())
    }
}

/// Makes the checks of [admin_gate].
pub fn validate_admin_gate(
    pool_manager: &Account<PoolManager>,
    pool: &Account<Pool>,
    swap: &Address,
    admin: &Address,
) -> (r: Result<(), ErrorCode>)
    ensures
        r == admin_gate(*pool_manager, *pool, *swap, *admin),
        r.is_ok() <==> (pool_manager.data.admin == *admin && pool_manager.key == pool.data.manager
            && *swap == pool.data.swap),
{
    if !pool_manager.data.admin.equals(admin) {
        return Err(ErrorCode::NotAdmin);
    }
    if !pool_manager.key.equals(&pool.data.manager) {
        return Err(ErrorCode::KeyMismatch);
    }
    if !swap.equals(&pool.data.swap) {
        return Err(ErrorCode::KeyMismatch);
    }
    Ok(())
}

impl ImportPoolPermissionless {
    /// Whether `fees` is the account that the swap pays the admin's fees of
    /// one token into, held by the pool alone.
    pub open spec fn fee_account_fits(&self, fees: Account<TokenAccount>, info: SwapTokenInfo) -> bool {
        &&& fees.data.owner == self.pool.key
        &&& fees.data.mint == info.mint
        &&& fees.data.delegate.is_none()
        &&& fees.data.close_authority.is_none()
        &&& fees.key == info.admin_fees
    }

    /// The first refusal of a fee account, or `Ok`.
    pub open spec fn fee_account_check(
        &self,
        fees: Account<TokenAccount>,
        info: SwapTokenInfo,
    ) -> Result<(), ErrorCode> {
        if fees.data.owner != self.pool.key {
            Err(ErrorCode::KeyMismatch)
        } else if fees.data.mint != info.mint {
            Err(ErrorCode::KeyMismatch)
        } else if fees.data.delegate.is_some() {
            Err(ErrorCode::InvariantFailed)
        } else if fees.data.close_authority.is_some() {
            Err(ErrorCode::InvariantFailed)
        } else if fees.key != info.admin_fees {
            Err(ErrorCode::KeyMismatch)
        } else {
            Ok(())
        }
    }

    /// Whether the swap is administered by the pool, its pool token is the
    /// LP mint, and both fee accounts fit.
    pub open spec fn relationships_hold(&self) -> bool {
        &&& self.swap.data.admin_key == self.pool.key
        &&& self.swap.data.pool_mint == self.lp_mint.key
        &&& self.fee_account_fits(self.token_a_fees, self.swap.data.token_a)
        &&& self.fee_account_fits(self.token_b_fees, self.swap.data.token_b)
    }

    /// The first refused relationship, or `Ok`.
    pub open spec fn check(&self) -> Result<(), ErrorCode> {
        if self.swap.data.admin_key != self.pool.key {
            Err(ErrorCode::KeyMismatch)
        } else if self.swap.data.pool_mint != self.lp_mint.key {
            Err(ErrorCode::KeyMismatch)
        } else if self.fee_account_check(self.token_a_fees, self.swap.data.token_a).is_err() {
            self.fee_account_check(self.token_a_fees, self.swap.data.token_a)
        } else {
            self.fee_account_check(self.token_b_fees, self.swap.data.token_b)
        }
    }

    /// Whether the swap meets the manager's policy for imports by anyone:
    /// amplification within the bounds, the initial fees, and two different
    /// mints in ascending order.
    pub open spec fn initial_parameters_hold(&self) -> bool {
        let swap = self.swap.data;
        let pm = self.pool_manager.data;
        &&& swap.initial_amp_factor >= pm.min_permissionless_amp_factor
        &&& swap.target_amp_factor <= pm.max_permissionless_amp_factor
        &&& swap.fees == pm.initial_fees
        &&& swap.token_a.mint.precedes(swap.token_b.mint)
    }

    /// The first refusal of the manager's policy, or `Ok`.
    pub open spec fn initial_parameters_check(&self) -> Result<(), ErrorCode> {
        let swap = self.swap.data;
        let pm = self.pool_manager.data;
        if !(swap.initial_amp_factor >= pm.min_permissionless_amp_factor
            && swap.target_amp_factor <= pm.max_permissionless_amp_factor) {
            Err(ErrorCode::InitialAmpOutOfRange)
        } else if swap.fees != pm.initial_fees {
            Err(ErrorCode::InitialFeesMismatch)
        } else if swap.token_a.mint == swap.token_b.mint {
            Err(ErrorCode::SwapTokensCannotBeEqual)
        } else if !swap.token_a.mint.precedes(swap.token_b.mint) {
            Err(ErrorCode::SwapTokensNotSorted)
        } else {
            Ok(())
        }
    }

    /// Checks that the swap to import is administered by the pool and pays
    /// its admin fees to the pool's two fee accounts.
    pub fn validate(&self) -> (r: Result<(), ErrorCode>)
        ensures
            r == self.check(),
            r.is_ok() <==> self.relationships_hold(),
    {
        assert_keys_eq(&self.swap.data.admin_key, &self.pool.key, ErrorCode::KeyMismatch)?;
        assert_keys_eq(&self.swap.data.pool_mint, &self.lp_mint.key, ErrorCode::KeyMismatch)?;
        self.validate_fee_accounts(&self.token_a_fees, &self.swap.data.token_a)?;
        self.validate_fee_accounts(&self.token_b_fees, &self.swap.data.token_b)?;
        Ok(())
    }

    /// Checks the swap against the manager's policy for imports by anyone.
    pub fn validate_initial_parameters(&self) -> (r: Result<(), ErrorCode>)
        ensures
            r == self.initial_parameters_check(),
            r.is_ok() <==> self.initial_parameters_hold(),
    {
        let swap = &self.swap.data;
        let pm = &self.pool_manager.data;
        if !(swap.initial_amp_factor >= pm.min_permissionless_amp_factor
            && swap.target_amp_factor <= pm.max_permissionless_amp_factor) {
            return Err(ErrorCode::InitialAmpOutOfRange);
        }
        if swap.fees != pm.initial_fees {
            return Err(ErrorCode::InitialFeesMismatch);
        }
        proof {
            Address::lemma_precedes_irreflexive(swap.token_a.mint);
        }
        if swap.token_a.mint.equals(&swap.token_b.mint) {
            return Err(ErrorCode::SwapTokensCannotBeEqual);
        }
        if !swap.token_a.mint.less_than(&swap.token_b.mint) {
            return Err(ErrorCode::SwapTokensNotSorted);
        }
        Ok(())
    }

    /// Checks one fee account against one side of the swap.
    pub fn validate_fee_accounts(&self, fees: &Account<TokenAccount>, swap_token_info: &SwapTokenInfo) -> (r:
        Result<(), ErrorCode>)
        ensures
            r == self.fee_account_check(*fees, *swap_token_info),
            r.is_ok() <==> self.fee_account_fits(*fees, *swap_token_info),
    {
        assert_keys_eq(&fees.data.owner, &self.pool.key, ErrorCode::KeyMismatch)?;
        assert_keys_eq(&fees.data.mint, &swap_token_info.mint, ErrorCode::KeyMismatch)?;
        if fees.data.delegate.is_some() {
            return Err(ErrorCode::InvariantFailed);
        }
        if fees.data.close_authority.is_some() {
            return Err(ErrorCode::InvariantFailed);
        }
        assert_keys_eq(&fees.key, &swap_token_info.admin_fees, ErrorCode::KeyMismatch)?;
        Ok(())
    }
}

impl ImportPoolAsOperator {
    /// Whether the caller is the manager's admin or its operator.
    pub open spec fn caller_is_trusted(&self) -> bool {
        self.admin_or_operator == self.import_pool.pool_manager.data.admin
            || self.admin_or_operator == self.import_pool.pool_manager.data.operator
    }

    /// `NotAdminOrOperator` unless the caller is trusted.
    pub open spec fn check(&self) -> Result<(), ErrorCode> {
        if self.caller_is_trusted() {
            Ok(())
        } else {
            Err(ErrorCode::NotAdminOrOperator)
        }
    }

    /// Checks that the caller is the manager's admin or its operator.
    pub fn validate(&self) -> (r: Result<(), ErrorCode>)
        ensures
            r == self.check(),
    {
        if self.admin_or_operator.equals(&self.import_pool.pool_manager.data.admin)
            || self.admin_or_operator.equals(&self.import_pool.pool_manager.data.operator) {
            Ok(())
        } else {
            Err(ErrorCode::NotAdminOrOperator)
        }
    }
}

impl SwapContext {
    /// The first refusal of [admin_gate] on these accounts, or `Ok`.
    pub open spec fn check(&self) -> Result<(), ErrorCode> {
        admin_gate(self.pool_manager, self.pool, self.swap, self.admin)
    }

    /// Checks that the caller is the admin of the pool's manager and that
    /// the swap is the pool's.
    pub fn validate(&self) -> (r: Result<(), ErrorCode>)
        ensures
            r == self.check(),
            r.is_ok() <==> (self.pool_manager.data.admin == self.admin && self.pool_manager.key
                == self.pool.data.manager && self.swap == self.pool.data.swap),
    {
        validate_admin_gate(&self.pool_manager, &self.pool, &self.swap, &self.admin)
    }
}

impl CommitNewAdmin {
    /// The first refusal of [admin_gate] on these accounts, or `Ok`.
    pub open spec fn check(&self) -> Result<(), ErrorCode> {
        admin_gate(self.pool_manager, self.pool, self.swap, self.admin)
    }

    /// Checks that the caller is the admin of the pool's manager and that
    /// the swap is the pool's.
    pub fn validate(&self) -> (r: Result<(), ErrorCode>)
        ensures
            r == self.check(),
            r.is_ok() <==> (self.pool_manager.data.admin == self.admin && self.pool_manager.key
                == self.pool.data.manager && self.swap == self.pool.data.swap),
    {
        validate_admin_gate(&self.pool_manager, &self.pool, &self.swap, &self.admin)
    }
}

impl SendFeesToBeneficiary {
    /// Whether the pool belongs to the manager, the account paid into is
    /// owned by the manager's beneficiary as it stands now, and the account
    /// emptied is one of the pool's two fee accounts.
    pub open spec fn relationships_hold(&self) -> bool {
        &&& self.pool_manager.key == self.pool.data.manager
        &&& self.beneficiary_account.data.owner == self.pool_manager.data.beneficiary
        &&& (self.fee_account.key == self.pool.data.token_a_fees || self.fee_account.key
            == self.pool.data.token_b_fees)
    }

    /// The first refused relationship, or `Ok`.
    pub open spec fn check(&self) -> Result<(), ErrorCode> {
        if self.pool_manager.key != self.pool.data.manager {
            Err(ErrorCode::KeyMismatch)
        } else if self.beneficiary_account.data.owner != self.pool_manager.data.beneficiary {
            Err(ErrorCode::KeyMismatch)
        } else if !(self.fee_account.key == self.pool.data.token_a_fees || self.fee_account.key
            == self.pool.data.token_b_fees) {
            Err(ErrorCode::InvalidFeeAccount)
        } else {
            Ok(())
        }
    }

    /// Checks the accounts of a fee withdrawal. Nothing is asked of the caller.
    pub fn validate(&self) -> (r: Result<(), ErrorCode>)
        ensures
            r == self.check(),
            r.is_ok() <==> self.relationships_hold(),
    {
        assert_keys_eq(&self.pool_manager.key, &self.pool.data.manager, ErrorCode::KeyMismatch)?;
        assert_keys_eq(
            &self.beneficiary_account.data.owner,
            &self.pool_manager.data.beneficiary,
            ErrorCode::KeyMismatch,
        )?;
        if !(self.fee_account.key.equals(&self.pool.data.token_a_fees) || self.fee_account.key.equals(
            &self.pool.data.token_b_fees,
        )) {
            return Err(ErrorCode::InvalidFeeAccount);
        }
        Ok(())
    }
}

impl RotateAdmin {
    /// `NotAdmin` unless the caller is the manager's admin.
    pub open spec fn check(&self) -> Result<(), ErrorCode> {
        keys_eq(self.pool_manager.data.admin, self.admin, ErrorCode::NotAdmin)
    }

    /// Checks that the caller is the manager's admin.
    pub fn validate(&self) -> (r: Result<(), ErrorCode>)
        ensures
            r == self.check(),
    {
        assert_keys_eq(&self.pool_manager.data.admin, &self.admin, ErrorCode::NotAdmin)
    }
}

impl SetOperator {
    /// `NotAdmin` unless the caller is the manager's admin.
    pub open spec fn check(&self) -> Result<(), ErrorCode> {
        keys_eq(self.pool_manager.data.admin, self.admin, ErrorCode::NotAdmin)
    }

    /// Checks that the caller is the manager's admin.
    pub fn validate(&self) -> (r: Result<(), ErrorCode>)
        ensures
            r == self.check(),
    {
        assert_keys_eq(&self.pool_manager.data.admin, &self.admin, ErrorCode::NotAdmin)
    }
}

impl SetBeneficiary {
    /// `NotAdmin` unless the caller is the manager's admin.
    pub open spec fn check(&self) -> Result<(), ErrorCode> {
        keys_eq(self.pool_manager.data.admin, self.admin, ErrorCode::NotAdmin)
    }

    /// Checks that the caller is the manager's admin.
    pub fn validate(&self) -> (r: Result<(), ErrorCode>)
        ensures
            r == self.check(),
    {
        assert_keys_eq(&self.pool_manager.data.admin, &self.admin, ErrorCode::NotAdmin)
    }
}

} // verus!
