//! Enabling the gauge of a pool's quarry.

use vstd::prelude::*;
use crate::accounts::{Account, Gauge, Quarry};
use crate::account_validators::assert_keys_eq;
use crate::address::Address;
use crate::cpi_helpers::CpiContext;
use crate::errors::ErrorCode;
use crate::identity::gen_pool_manager_signer_seeds;
use crate::pools::manager_authority;
use crate::state::{Pool, PoolManager};

verus! {

/// Accounts for enabling a gauge.
#[derive(Clone, Copy, Debug, PartialEq, Eq)]
pub struct EnableGauge {
    /// The [PoolManager], which is the foreman of the gauges.
    pub pool_manager: Account<PoolManager>,
    /// The keeper of the gauges.
    pub gaugemeister: Address,
    /// The gauge to enable.
    pub gauge: Account<Gauge>,
    /// The quarry of the gauge.
    pub quarry: Account<Quarry>,
    /// The [Pool] whose LP token is staked in the quarry.
    pub pool: Account<Pool>,
    /// The program that keeps gauges.
    pub gauge_program: Address,
}

/// Accounts of the call that enables a gauge.
#[derive(Clone, Copy, Debug, PartialEq, Eq)]
pub struct GaugeEnable {
    /// The keeper of the gauges.
    pub gaugemeister: Address,
    /// The gauge to enable.
    pub gauge: Address,
    /// The foreman, which must sign.
    pub foreman: Address,
}

impl EnableGauge {
    /// Whether the quarry is the gauge's, the pool's LP token is the one
    /// staked in it, and the pool was imported by the operator.
    pub open spec fn relationships_hold(&self) -> bool {
        &&& self.quarry.key == self.gauge.data.quarry
        &&& self.pool.data.lp_mint == self.quarry.data.token_mint_key
        &&& !self.pool.data.permissionless_import
    }

    /// `KeyMismatch` for a quarry that is not the gauge's or that stakes
    /// another token, then `InvariantFailed` for a pool that anyone
    /// imported, else `Ok`.
    pub open spec fn check(&self) -> Result<(), ErrorCode> {
        if self.quarry.key != self.gauge.data.quarry {
            Err(ErrorCode::KeyMismatch)
        } else if self.pool.data.lp_mint != self.quarry.data.token_mint_key {
            Err(ErrorCode::KeyMismatch)
        } else if self.pool.data.permissionless_import {
            Err(ErrorCode::InvariantFailed)
        } else {
            Ok(())
        }
    }

    /// Checks that gauge, quarry and pool belong together and that the
    /// operator imported the pool.
    pub fn validate(&self) -> (r: Result<(), ErrorCode>)
        ensures
            r == self.check(),
            r.is_ok() <==> self.relationships_hold(),
    {
        assert_keys_eq(&self.quarry.key, &self.gauge.data.quarry, ErrorCode::KeyMismatch)?;
        assert_keys_eq(
            &self.pool.data.lp_mint,
            &self.quarry.data.token_mint_key,
            ErrorCode::KeyMismatch,
        )?;
        if self.pool.data.permissionless_import {
            return Err(ErrorCode::InvariantFailed);
        }
        Ok(())
    }
}

/// Builds the call that enables the gauge, made in the manager's name as
/// the foreman. A pool that anyone imported gets none.
pub fn handler(ctx: &EnableGauge) -> (r: Result<CpiContext<GaugeEnable>, ErrorCode>)
    ensures
        match r {
            Ok(call) => {
                &&& ctx.relationships_hold()
                &&& call.program == ctx.gauge_program
                &&& call.accounts == (GaugeEnable {
                    gaugemeister: ctx.gaugemeister,
                    gauge: ctx.gauge.key,
                    foreman: ctx.pool_manager.key,
                })
                &&& call.seeds() == manager_authority(ctx.pool_manager.data)
            },
            Err(e) => ctx.check() == Err::<(), ErrorCode>(e),
        },
{
    ctx.validate()?;
    let seeds = gen_pool_manager_signer_seeds(&ctx.pool_manager.data);
    let cpi_ctx = CpiContext::new(
        ctx.gauge_program,
        GaugeEnable {
            gaugemeister: ctx.gaugemeister,
            gauge: ctx.gauge.key,
            foreman: ctx.pool_manager.key,
        },
    ).with_signer(seeds);
    Ok(cpi_ctx)
}

} // verus!
