//! What holds of the operations taken together.

use vstd::prelude::*;
use crate::accounts::{ImportPoolPermissionless, SendFeesToBeneficiary, SetBeneficiary};
use crate::address::Address;
use crate::cpi_helpers::TransferCall;
use crate::errors::{ErrorCode, Fault};
use crate::instructions::create_quarry::CreateQuarry;
use crate::instructions::enable_gauge::EnableGauge;
use crate::identity::proves_authority;
use crate::pools::{is_fee_transfer, pool_authority};
use crate::state::{lemma_sorted_pair, sorted_pair, Pool, PoolManager};

verus! {

/// An imported pool gets the manager's count before the import as its
/// index, and leaves the count at that index plus one.
pub proof fn lemma_import_assigns_next_index(
    accounts: ImportPoolPermissionless,
    bump: u8,
    permissionless_import: bool,
)
    requires
        accounts.import_check().is_ok(),
    ensures
        accounts.imported(bump, permissionless_import).pool.data.index
            == accounts.pool_manager.data.num_pools,
        accounts.imported(bump, permissionless_import).pool_manager.data.num_pools
            == accounts.imported(bump, permissionless_import).pool.data.index + 1,
{
}

/// The sorted mints of an imported pool are the sorted mints of its swap,
/// and the pool stores them in ascending order of their bytes.
pub proof fn lemma_import_sorts_mints(
    accounts: ImportPoolPermissionless,
    bump: u8,
    permissionless_import: bool,
)
    ensures
        accounts.imported(bump, permissionless_import).pool.data.spec_sorted_mints() == sorted_pair(
            accounts.swap.data.token_a.mint,
            accounts.swap.data.token_b.mint,
        ),
        accounts.imported(bump, permissionless_import).pool.data.mints_ascending(),
        accounts.imported(bump, permissionless_import).pool.data.spec_sorted_mints() == (
            accounts.imported(bump, permissionless_import).pool.data.mint_a,
            accounts.imported(bump, permissionless_import).pool.data.mint_b,
        ),
{
    lemma_sorted_pair(accounts.swap.data.token_a.mint, accounts.swap.data.token_b.mint);
}

/// A pool imported at a derived address carries the proof of its own
/// authority: the seeds and nonce that its record gives are those that the
/// ledger derives its address from.
pub proof fn lemma_imported_pool_proves_its_address(
    accounts: ImportPoolPermissionless,
    program_id: Address,
    bump: u8,
    permissionless_import: bool,
)
    requires
        accounts.pool_is_derived(program_id, bump),
    ensures
        proves_authority(
            pool_authority(accounts.imported(bump, permissionless_import).pool.data),
            program_id,
            accounts.imported(bump, permissionless_import).pool.key,
        ),
{
    lemma_sorted_pair(accounts.swap.data.token_a.mint, accounts.swap.data.token_b.mint);
}

/// Whatever two mints a pool holds, its sorted mints are in ascending order.
pub proof fn lemma_sorted_mints_ascend(pool: Pool)
    ensures
        !pool.spec_sorted_mints().1.precedes(pool.spec_sorted_mints().0),
{
    lemma_sorted_pair(pool.mint_a, pool.mint_b);
}

/// Sending a pool's fees twice in a row: when the first transfer has been
/// made and nothing was paid into the fee account since, the second call is
/// accepted as the first was, and the transfer it asks for moves nothing.
pub proof fn lemma_second_fee_transfer_is_empty(
    first: SendFeesToBeneficiary,
    sent: TransferCall,
    second: SendFeesToBeneficiary,
    again: TransferCall,
)
    requires
        first.check().is_ok(),
        is_fee_transfer(sent, first),
        second.pool_manager == first.pool_manager,
        second.pool == first.pool,
        second.token_program == first.token_program,
        second.fee_account.key == first.fee_account.key,
        second.beneficiary_account.key == first.beneficiary_account.key,
        second.beneficiary_account.data.owner == first.beneficiary_account.data.owner,
        second.fee_account.data.amount == first.fee_account.data.amount - sent.amount,
        is_fee_transfer(again, second),
    ensures
        second.check().is_ok(),
        again.amount == 0,
{
}

/// An import by anyone of a swap whose initial amplification is below the
/// manager's minimum is refused: as a breach of policy where the pool's
/// address and the relationships are in order, and for their fault where
/// they are not.
pub proof fn lemma_low_amp_is_refused(accounts: ImportPoolPermissionless, program_id: Address, bump: u8)
    requires
        accounts.swap.data.initial_amp_factor < accounts.pool_manager.data.min_permissionless_amp_factor,
    ensures
        accounts.permissionless_check(program_id, bump).is_err(),
        accounts.pool_is_derived(program_id, bump) && accounts.relationships_hold()
            ==> accounts.permissionless_check(program_id, bump) == Err::<(), ErrorCode>(
            ErrorCode::InitialAmpOutOfRange,
        ) && ErrorCode::InitialAmpOutOfRange.fault() == Fault::PolicyViolation,
{
}

/// A pool that the operator imported may get a quarry for its LP token; a
/// pool that anyone imported is refused one, as a mismatch.
pub proof fn lemma_quarry_for_operator_pools_only(ctx: CreateQuarry)
    ensures
        !ctx.pool.data.permissionless_import && ctx.token_mint == ctx.pool.data.lp_mint
            ==> ctx.check().is_ok(),
        ctx.pool.data.permissionless_import ==> ctx.check().is_err() && ctx.check().unwrap_err().fault()
            == Fault::RelationshipMismatch,
{
}

/// A pool that anyone imported is refused a gauge, as a mismatch.
pub proof fn lemma_gauge_for_operator_pools_only(ctx: EnableGauge)
    ensures
        ctx.pool.data.permissionless_import ==> ctx.check().is_err() && ctx.check().unwrap_err().fault()
            == Fault::RelationshipMismatch,
        ctx.relationships_hold() <==> ctx.check().is_ok(),
{
}

/// Once the beneficiary is set, a fee transfer is accepted exactly into
/// accounts that the new beneficiary owns, whoever held the role while the
/// fees came in.
pub proof fn lemma_fees_follow_the_beneficiary(
    set: SetBeneficiary,
    manager_after: PoolManager,
    send: SendFeesToBeneficiary,
)
    requires
        set.check().is_ok(),
        manager_after == (PoolManager { beneficiary: set.beneficiary, ..set.pool_manager.data }),
        send.pool_manager.key == set.pool_manager.key,
        send.pool_manager.data == manager_after,
        send.pool_manager.key == send.pool.data.manager,
        send.fee_account.key == send.pool.data.token_a_fees || send.fee_account.key
            == send.pool.data.token_b_fees,
    ensures
        send.check().is_ok() <==> send.beneficiary_account.data.owner == set.beneficiary,
{
}

} // verus!
