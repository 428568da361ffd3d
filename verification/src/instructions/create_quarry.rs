//! Creating a quarry for a pool's LP token.

use vstd::prelude::*;
use crate::accounts::Account;
use crate::account_validators::assert_keys_eq;
use crate::address::Address;
use crate::cpi_helpers::CpiContext;
use crate::errors::ErrorCode;
use crate::identity::gen_pool_manager_signer_seeds;
use crate::pools::manager_authority;
use crate::state::{Pool, PoolManager};

verus! {

/// Accounts for creating a quarry.
#[derive(Clone, Copy, Debug, PartialEq, Eq)]
pub struct CreateQuarry {
    /// The [PoolManager], which is the delegate of the operator.
    pub pool_manager: Account<PoolManager>,
    /// The operator of the reward service's rewarder.
    pub operator: Address,
    /// The rewarder.
    pub rewarder: Address,
    /// Quarry to be created.
    pub quarry: Address,
    /// Mint of the LP token.
    pub token_mint: Address,
    /// The [Pool] that the quarry is for.
    pub pool: Account<Pool>,
    /// Payer of the quarry's creation.
    pub payer: Address,
    /// The system program.
    pub system_program: Address,
    /// The program that keeps quarries.
    pub quarry_mine_program: Address,
    /// The program that the operator belongs to.
    pub quarry_operator_program: Address,
}

/// The operator's accounts of a call made by one of its delegates.
#[derive(Clone, Copy, Debug, PartialEq, Eq)]
pub struct WithDelegate {
    /// The operator.
    pub operator: Address,
    /// The delegate, which must sign.
    pub delegate: Address,
    /// The rewarder.
    pub rewarder: Address,
    /// The program that keeps quarries.
    pub quarry_mine_program: Address,
}

/// Accounts of the call that creates a quarry.
#[derive(Clone, Copy, Debug, PartialEq, Eq)]
pub struct DelegateCreateQuarry {
    /// Operator, delegate and rewarder.
    pub with_delegate: WithDelegate,
    /// Quarry to be created.
    pub quarry: Address,
    /// Mint of the token to stake.
    pub token_mint: Address,
    /// Payer of the quarry's creation.
    pub payer: Address,
    /// An account that the operator no longer reads.
    pub unused_account: Address,
    /// The system program.
    pub system_program: Address,
}

/// The call that creates a quarry at a given nonce.
#[derive(Clone, Debug, PartialEq, Eq)]
pub struct CreateQuarryCall {
    /// Program, accounts and signer.
    pub ctx: CpiContext<DelegateCreateQuarry>,
    /// Nonce of the quarry's address.
    pub bump: u8,
}

impl CreateQuarry {
    /// Whether the mint is the pool's LP mint and the pool was imported by
    /// the operator.
    pub open spec fn relationships_hold(&self) -> bool {
        &&& self.token_mint == self.pool.data.lp_mint
        &&& !self.pool.data.permissionless_import
    }

    /// `KeyMismatch` for another mint than the pool's LP mint, then
    /// `InvariantFailed` for a pool that anyone imported, else `Ok`.
    pub open spec fn check(&self) -> Result<(), ErrorCode> {
        if self.token_mint != self.pool.data.lp_mint {
            Err(ErrorCode::KeyMismatch)
        } else if self.pool.data.permissionless_import {
            Err(ErrorCode::InvariantFailed)
        } else {
            Ok(())
        }
    }

    /// Checks that the quarry is for the LP token of a pool that the
    /// operator imported.
    pub fn validate(&self) -> (r: Result<(), ErrorCode>)
        ensures
            r == self.check(),
            r.is_ok() <==> self.relationships_hold(),
    {
        assert_keys_eq(&self.token_mint, &self.pool.data.lp_mint, ErrorCode::KeyMismatch)?;
        if self.pool.data.permissionless_import {
            return Err(ErrorCode::InvariantFailed);
        }
        Ok(())
    }

    /// The accounts of the call that creates the quarry, with the manager
    /// as the operator's delegate.
    pub open spec fn call_accounts(&self) -> DelegateCreateQuarry {
        DelegateCreateQuarry {
            with_delegate: WithDelegate {
                operator: self.operator,
                delegate: self.pool_manager.key,
                rewarder: self.rewarder,
                quarry_mine_program: self.quarry_mine_program,
            },
            quarry: self.quarry,
            token_mint: self.token_mint,
            payer: self.payer,
            unused_account: self.system_program,
            system_program: self.system_program,
        }
    }
}

/// Builds the call that creates a quarry for the pool's LP token, made in
/// the manager's name to the operator's program. A pool that anyone
/// imported gets none.
pub fn handler(ctx: &CreateQuarry, bump: u8) -> (r: Result<CreateQuarryCall, ErrorCode>)
    ensures
        match r {
            Ok(call) => {
                &&& ctx.relationships_hold()
                &&& call.ctx.program == ctx.quarry_operator_program
                &&& call.ctx.accounts == ctx.call_accounts()
                &&& call.ctx.seeds() == manager_authority(ctx.pool_manager.data)
                &&& call.bump == bump
            },
            Err(e) => ctx.check() == Err::<(), ErrorCode>(e),
        },
{
    ctx.validate()?;
    let seeds = gen_pool_manager_signer_seeds(&ctx.pool_manager.data);
    let cpi_ctx = CpiContext::new(
        ctx.quarry_operator_program,
        DelegateCreateQuarry {
            with_delegate: WithDelegate {
                operator: ctx.operator,
                delegate: ctx.pool_manager.key,
                rewarder: ctx.rewarder,
                quarry_mine_program: ctx.quarry_mine_program,
            },
            quarry: ctx.quarry,
            token_mint: ctx.token_mint,
            payer: ctx.payer,
            unused_account: ctx.system_program,
            system_program: ctx.system_program,
        },
    ).with_signer(seeds);
    Ok(CreateQuarryCall { ctx: cpi_ctx, bump })
}

} // verus!
