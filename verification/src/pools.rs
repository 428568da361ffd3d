//! The operations of the registry.
//!
//! Each one first checks its accounts and refuses before anything has
//! changed. Those that act on another program hand back the call to send.

use vstd::prelude::*;
use crate::accounts::{
    Account, CommitNewAdmin, ImportPoolAsOperator, ImportPoolPermissionless, NewPoolManager,
    RotateAdmin, SendFeesToBeneficiary, SetBeneficiary, SetOperator, SwapContext,
};
use crate::address::Address;
use crate::cpi_helpers::{
    create_pool_admin_user_context, pool_admin_cpi_context, AdminUserContext, CpiContext,
    SwapAdminCall, SwapCommitNewAdmin, SwapInstruction, TokenTransfer, TransferCall,
};
use crate::errors::ErrorCode;
use crate::identity::{
    derives, gen_pool_signer_seeds, manager_seeds, manager_signer_seeds, pool_seeds,
    pool_signer_seeds, proves_authority, signer_seeds, verify_address,
};
use crate::import_pool::import_pool_unchecked;
use crate::state::{
    lemma_sorted_pair, Pool, PoolManager, SwapFees, MAX_PERMISSIONLESS_AMP_FACTOR,
    MIN_PERMISSIONLESS_AMP_FACTOR,
};

verus! {

/// The seeds and nonce that prove the authority of a stored pool.
pub open spec fn pool_authority(pool: Pool) -> Seq<Seq<u8>> {
    signer_seeds(pool_seeds(pool.manager, pool.mint_a, pool.mint_b), pool.bump)
}

/// The seeds and nonce that prove the authority of a stored manager.
pub open spec fn manager_authority(pool_manager: PoolManager) -> Seq<Seq<u8>> {
    signer_seeds(manager_seeds(pool_manager.base), pool_manager.bump)
}

/// Whether `manager` is the record of a manager just created from these
/// accounts: no pools, no pending admin, the three roles as supplied, and
/// the fixed policy for imports by anyone.
pub open spec fn is_new_manager(manager: PoolManager, accounts: NewPoolManager, bump: u8) -> bool {
    &&& manager.base == accounts.base
    &&& manager.bump == bump
    &&& manager.num_pools == 0
    &&& manager.admin == accounts.admin
    &&& manager.pending_admin@ == Seq::new(32, |i: int| 0u8)
    &&& manager.initial_fees == SwapFees::spec_initial()
    &&& manager.min_permissionless_amp_factor == 10
    &&& manager.max_permissionless_amp_factor == 200
    &&& manager.operator == accounts.operator
    &&& manager.beneficiary == accounts.beneficiary
}

/// Creates a new [PoolManager] at the address that its base and `bump`
/// give under the program, and refuses with `InvalidSeeds` where the
/// supplied address is another.
pub fn new_pool_manager(program_id: &Address, accounts: &mut NewPoolManager, bump: u8) -> (r: Result<
    (),
    ErrorCode,
>)
    ensures
        r == (if derives(
            manager_seeds(old(accounts).base),
            bump,
            *program_id,
            old(accounts).pool_manager.key,
        ) {
            Ok::<(), ErrorCode>(())
        } else {
            Err(ErrorCode::InvalidSeeds)
        }),
        r.is_ok() ==> is_new_manager(final(accounts).pool_manager.data, *old(accounts), bump),
        r.is_ok() ==> proves_authority(
            manager_authority(final(accounts).pool_manager.data),
            *program_id,
            final(accounts).pool_manager.key,
        ),
        r.is_ok() ==> *final(accounts) == (NewPoolManager {
            pool_manager: Account {
                key: old(accounts).pool_manager.key,
                data: final(accounts).pool_manager.data,
            },
            ..*old(accounts)
        }),
        r.is_err() ==> *final(accounts) == *old(accounts),
{
    let seeds = manager_signer_seeds(&accounts.base, bump);
    verify_address(&seeds, program_id, &accounts.pool_manager.key)?;
    accounts.pool_manager.data = PoolManager {
        base: accounts.base,
        bump,
        num_pools: 0,
        admin: accounts.admin,
        pending_admin: Address::zero(),
        initial_fees: SwapFees::initial(),
        min_permissionless_amp_factor: MIN_PERMISSIONLESS_AMP_FACTOR,
        max_permissionless_amp_factor: MAX_PERMISSIONLESS_AMP_FACTOR,
        operator: accounts.operator,
        beneficiary: accounts.beneficiary,
    };
    Ok(())
}

impl ImportPoolPermissionless {
    /// Whether the supplied pool address is the one that the manager, the
    /// swap's two mints and `bump` give under the program.
    pub open spec fn pool_is_derived(&self, program_id: Address, bump: u8) -> bool {
        derives(
            pool_seeds(self.pool_manager.key, self.swap.data.token_a.mint, self.swap.data.token_b.mint),
            bump,
            program_id,
            self.pool.key,
        )
    }

    /// What an import by anyone answers: `InvalidSeeds` for a pool address
    /// that is not derived, then the first refused relationship, then the
    /// first refusal of the policy, then `IntegerOverflow` for a full count.
    pub open spec fn permissionless_check(&self, program_id: Address, bump: u8) -> Result<
        (),
        ErrorCode,
    > {
        if !self.pool_is_derived(program_id, bump) {
            Err(ErrorCode::InvalidSeeds)
        } else if self.check().is_err() {
            self.check()
        } else if self.initial_parameters_check().is_err() {
            self.initial_parameters_check()
        } else {
            self.import_check()
        }
    }

    /// Checks the supplied pool address against the derivation.
    pub fn validate_pool_address(&self, program_id: &Address, bump: u8) -> (r: Result<(), ErrorCode>)
        ensures
            r == (if self.pool_is_derived(*program_id, bump) {
                Ok::<(), ErrorCode>(())
            } else {
                Err(ErrorCode::InvalidSeeds)
            }),
    {
        let seeds = pool_signer_seeds(
            &self.pool_manager.key,
            &self.swap.data.token_a.mint,
            &self.swap.data.token_b.mint,
            bump,
        );
        verify_address(&seeds, program_id, &self.pool.key)
    }
}

impl ImportPoolAsOperator {
    /// What an import by the operator answers: `InvalidSeeds` for a pool
    /// address that is not derived, then `NotAdminOrOperator`, then the
    /// first refused relationship, then `IntegerOverflow` for a full count.
    pub open spec fn operator_check(&self, program_id: Address, bump: u8) -> Result<(), ErrorCode> {
        if !self.import_pool.pool_is_derived(program_id, bump) {
            Err(ErrorCode::InvalidSeeds)
        } else if !self.caller_is_trusted() {
            Err(ErrorCode::NotAdminOrOperator)
        } else {
            self.import_pool.import_check()
        }
    }
}

/// Imports a [Pool] from a swap; anyone may call this.
///
/// The swap must have the pool as its admin and the pool's accounts as its
/// fee accounts, and must meet the manager's policy. On success the pool is
/// recorded as imported without the operator. A swap whose initial
/// amplification is below the manager's minimum is always refused.
pub fn import_pool_permissionless(
    program_id: &Address,
    accounts: &mut ImportPoolPermissionless,
    bump: u8,
) -> (r: Result<(), ErrorCode>)
    ensures
        r == old(accounts).permissionless_check(*program_id, bump),
        r.is_ok() <==> (old(accounts).pool_is_derived(*program_id, bump) && old(accounts).relationships_hold() && old(accounts).initial_parameters_hold() && old(accounts).pool_manager.data.num_pools < u64::MAX),
        r.is_ok() ==> *final(accounts) == old(accounts).imported(bump, true),
        r.is_ok() ==> proves_authority(
            pool_authority(final(accounts).pool.data),
            *program_id,
            final(accounts).pool.key,
        ),
        r.is_ok() ==> final(accounts).pool.data.index == old(accounts).pool_manager.data.num_pools
            && final(accounts).pool_manager.data.num_pools == final(accounts).pool.data.index + 1,
        r.is_err() ==> *final(accounts) == *old(accounts),
        old(accounts).swap.data.initial_amp_factor < old(accounts).pool_manager.data.min_permissionless_amp_factor ==> r.is_err(),
{
    accounts.validate_pool_address(program_id, bump)?;
    accounts.validate()?;
    accounts.validate_initial_parameters()?;
    proof {
        lemma_sorted_pair(accounts.swap.data.token_a.mint, accounts.swap.data.token_b.mint);
    }
    import_pool_unchecked(accounts, bump, true)
}

/// Imports a pool as the [PoolManager]'s admin or operator, whom the
/// policy does not bind. On success the pool is recorded as imported by
/// the operator.
pub fn import_pool_as_operator(program_id: &Address, accounts: &mut ImportPoolAsOperator, bump: u8) -> (r:
    Result<(), ErrorCode>)
    ensures
        r == old(accounts).operator_check(*program_id, bump),
        r.is_ok() <==> (old(accounts).import_pool.pool_is_derived(*program_id, bump) && old(accounts).caller_is_trusted() && old(accounts).import_pool.relationships_hold() && old(accounts).import_pool.pool_manager.data.num_pools < u64::MAX),
        r.is_ok() ==> final(accounts).import_pool == old(accounts).import_pool.imported(bump, false),
        r.is_ok() ==> proves_authority(
            pool_authority(final(accounts).import_pool.pool.data),
            *program_id,
            final(accounts).import_pool.pool.key,
        ),
        r.is_ok() ==> final(accounts).import_pool.pool.data.index == old(accounts).import_pool.pool_manager.data.num_pools
            && final(accounts).import_pool.pool_manager.data.num_pools == final(accounts).import_pool.pool.data.index + 1,
        r.is_err() ==> final(accounts).import_pool == old(accounts).import_pool,
        final(accounts).admin_or_operator == old(accounts).admin_or_operator,
{
    accounts.import_pool.validate_pool_address(program_id, bump)?;
    accounts.validate()?;
    proof {
        lemma_sorted_pair(
            accounts.import_pool.swap.data.token_a.mint,
            accounts.import_pool.swap.data.token_b.mint,
        );
    }
    import_pool_unchecked(&mut accounts.import_pool, bump, false)
}

/// Whether `call` is the admin call on the pool's swap that asks
/// `instruction`: sent to the swap program, with the pool's address as the
/// admin and the pool's seeds and nonce as the proof of authority.
pub open spec fn is_pool_admin_call(call: SwapAdminCall, ctx: SwapContext, instruction: SwapInstruction) -> bool {
    &&& call.ctx.program == ctx.swap_program
    &&& call.ctx.accounts == (AdminUserContext { admin: ctx.pool.key, swap: ctx.swap })
    &&& call.ctx.seeds() == pool_authority(ctx.pool.data)
    &&& call.instruction == instruction
}

/// Builds the admin call on the pool's swap that asks `instruction`, once
/// the accounts have passed their checks.
pub fn pool_admin_call(ctx: &SwapContext, instruction: SwapInstruction) -> (r: Result<
    SwapAdminCall,
    ErrorCode,
>)
    ensures
        match r {
            Ok(call) => ctx.check().is_ok() && is_pool_admin_call(call, *ctx, instruction),
            Err(e) => ctx.check() == Err::<(), ErrorCode>(e),
        },
{
    ctx.validate()?;
    let seeds = gen_pool_signer_seeds(&ctx.pool.data);
    let cpi_ctx = pool_admin_cpi_context(&ctx.pool, ctx.swap, ctx.swap_program).with_signer(seeds);
    Ok(SwapAdminCall { ctx: cpi_ctx, instruction })
}

/// Ramp the swap's amplification coefficient to some target amplification coefficient.
pub fn ramp_a(ctx: &SwapContext, target_amp: u64, stop_ramp_ts: i64) -> (r: Result<
    SwapAdminCall,
    ErrorCode,
>)
    ensures
        match r {
            Ok(call) => ctx.check().is_ok() && is_pool_admin_call(
                call,
                *ctx,
                SwapInstruction::RampA { target_amp, stop_ramp_ts },
            ),
            Err(e) => ctx.check() == Err::<(), ErrorCode>(e),
        },
{
    pool_admin_call(ctx, SwapInstruction::RampA { target_amp, stop_ramp_ts })
}

/// Stop ramping the amplification coefficient.
pub fn stop_ramp_a(ctx: &SwapContext) -> (r: Result<SwapAdminCall, ErrorCode>)
    ensures
        match r {
            Ok(call) => ctx.check().is_ok() && is_pool_admin_call(
                call,
                *ctx,
                SwapInstruction::StopRampA,
            ),
            Err(e) => ctx.check() == Err::<(), ErrorCode>(e),
        },
{
    pool_admin_call(ctx, SwapInstruction::StopRampA)
}

/// Pause the swap.
pub fn pause_swap(ctx: &SwapContext) -> (r: Result<SwapAdminCall, ErrorCode>)
    ensures
        match r {
            Ok(call) => ctx.check().is_ok() && is_pool_admin_call(call, *ctx, SwapInstruction::Pause),
            Err(e) => ctx.check() == Err::<(), ErrorCode>(e),
        },
{
    pool_admin_call(ctx, SwapInstruction::Pause)
}

/// Unpause the swap.
pub fn unpause_swap(ctx: &SwapContext) -> (r: Result<SwapAdminCall, ErrorCode>)
    ensures
        match r {
            Ok(call) => ctx.check().is_ok() && is_pool_admin_call(
                call,
                *ctx,
                SwapInstruction::Unpause,
            ),
            Err(e) => ctx.check() == Err::<(), ErrorCode>(e),
        },
{
    pool_admin_call(ctx, SwapInstruction::Unpause)
}

/// Commits a new admin to the swap: the call proposes `new_admin`, in the
/// pool's name, as the swap's next admin.
pub fn commit_new_admin(ctx: &CommitNewAdmin) -> (r: Result<CpiContext<SwapCommitNewAdmin>, ErrorCode>)
    ensures
        match r {
            Ok(call) => {
                &&& ctx.check().is_ok()
                &&& call.program == ctx.swap_program
                &&& call.accounts == (SwapCommitNewAdmin {
                    admin_ctx: AdminUserContext { admin: ctx.pool.key, swap: ctx.swap },
                    new_admin: ctx.new_admin,
                })
                &&& call.seeds() == pool_authority(ctx.pool.data)
            },
            Err(e) => ctx.check() == Err::<(), ErrorCode>(e),
        },
{
    ctx.validate()?;
    let seeds = gen_pool_signer_seeds(&ctx.pool.data);
    let admin_user_context = create_pool_admin_user_context(&ctx.pool, ctx.swap);
    let cpi_ctx = CpiContext::new(
        ctx.swap_program,
        SwapCommitNewAdmin { admin_ctx: admin_user_context, new_admin: ctx.new_admin },
    ).with_signer(seeds);
    Ok(cpi_ctx)
}

/// Apply the new admin on the swap.
pub fn apply_new_admin(ctx: &SwapContext) -> (r: Result<SwapAdminCall, ErrorCode>)
    ensures
        match r {
            Ok(call) => ctx.check().is_ok() && is_pool_admin_call(
                call,
                *ctx,
                SwapInstruction::ApplyNewAdmin,
            ),
            Err(e) => ctx.check() == Err::<(), ErrorCode>(e),
        },
{
    pool_admin_call(ctx, SwapInstruction::ApplyNewAdmin)
}

/// Set new fees on the swap.
pub fn set_new_fees(ctx: &SwapContext, new_fees: SwapFees) -> (r: Result<SwapAdminCall, ErrorCode>)
    ensures
        match r {
            Ok(call) => ctx.check().is_ok() && is_pool_admin_call(
                call,
                *ctx,
                SwapInstruction::SetNewFees { new_fees },
            ),
            Err(e) => ctx.check() == Err::<(), ErrorCode>(e),
        },
{
    pool_admin_call(ctx, SwapInstruction::SetNewFees { new_fees })
}

/// Whether `call` moves the whole balance of the fee account to the
/// beneficiary's account, in the pool's name.
pub open spec fn is_fee_transfer(call: TransferCall, ctx: SendFeesToBeneficiary) -> bool {
    &&& call.ctx.program == ctx.token_program
    &&& call.ctx.accounts == (TokenTransfer {
        from: ctx.fee_account.key,
        to: ctx.beneficiary_account.key,
        authority: ctx.pool.key,
    })
    &&& call.ctx.seeds() == pool_authority(ctx.pool.data)
    &&& call.amount == ctx.fee_account.data.amount
}

/// Sends the fees on a [Pool] fee account to an account owned by the
/// manager's beneficiary as it stands at the call. Anyone may call this.
/// The transfer takes all that the fee account holds, which may be nothing.
pub fn send_fees_to_beneficiary(ctx: &SendFeesToBeneficiary) -> (r: Result<TransferCall, ErrorCode>)
    ensures
        match r {
            Ok(call) => ctx.relationships_hold() && is_fee_transfer(call, *ctx),
            Err(e) => ctx.check() == Err::<(), ErrorCode>(e),
        },
{
    ctx.validate()?;
    let seeds = gen_pool_signer_seeds(&ctx.pool.data);
    let cpi_ctx = CpiContext::new(
        ctx.token_program,
        TokenTransfer {
            from: ctx.fee_account.key,
            to: ctx.beneficiary_account.key,
            authority: ctx.pool.key,
        },
    ).with_signer(seeds);
    Ok(TransferCall { ctx: cpi_ctx, amount: ctx.fee_account.data.amount })
}

/// Hands the [PoolManager] to a new admin. Only the admin may do so.
pub fn rotate_admin(accounts: &mut RotateAdmin) -> (r: Result<(), ErrorCode>)
    ensures
        r == old(accounts).check(),
        r.is_ok() ==> *final(accounts) == (RotateAdmin {
            pool_manager: Account {
                key: old(accounts).pool_manager.key,
                data: PoolManager { admin: old(accounts).new_admin, ..old(accounts).pool_manager.data },
            },
            ..*old(accounts)
        }),
        r.is_err() ==> *final(accounts) == *old(accounts),
{
    accounts.validate()?;
    accounts.pool_manager.data.admin = accounts.new_admin;
    Ok(())
}

/// Sets the [PoolManager]'s operator. Only the admin may do so.
pub fn set_operator(accounts: &mut SetOperator) -> (r: Result<(), ErrorCode>)
    ensures
        r == old(accounts).check(),
        r.is_ok() ==> *final(accounts) == (SetOperator {
            pool_manager: Account {
                key: old(accounts).pool_manager.key,
                data: PoolManager { operator: old(accounts).operator, ..old(accounts).pool_manager.data },
            },
            ..*old(accounts)
        }),
        r.is_err() ==> *final(accounts) == *old(accounts),
{
    accounts.validate()?;
    accounts.pool_manager.data.operator = accounts.operator;
    Ok(())
}

/// Sets the [PoolManager]'s beneficiary. Only the admin may do so.
pub fn set_beneficiary(accounts: &mut SetBeneficiary) -> (r: Result<(), ErrorCode>)
    ensures
        r == old(accounts).check(),
        r.is_ok() ==> *final(accounts) == (SetBeneficiary {
            pool_manager: Account {
                key: old(accounts).pool_manager.key,
                data: PoolManager {
                    beneficiary: old(accounts).beneficiary,
                    ..old(accounts).pool_manager.data
                },
            },
            ..*old(accounts)
        }),
        r.is_err() ==> *final(accounts) == *old(accounts),
{
    accounts.validate()?;
    accounts.pool_manager.data.beneficiary = accounts.beneficiary;
    Ok(())
}

} // verus!
