//! Delegated calls: what the registry asks of another program in the name
//! of an address that it owns. A call is a value; whoever runs the registry
//! sends it, and the ledger accepts it only if the seeds give the authority.

use vstd::prelude::*;
use crate::accounts::Account;
use crate::address::Address;
use crate::identity::seeds_view;
use crate::state::{Pool, SwapFees};

verus! {

/// A call into another program: the program, the accounts it is to act on,
/// and the seeds of the address in whose name it is made.
#[derive(Clone, Debug, PartialEq, Eq)]
pub struct CpiContext<T> {
    /// The program to call.
    pub program: Address,
    /// The accounts of the call.
    pub accounts: T,
    /// Seeds and nonce of the signing address; empty where none signs.
    pub signer_seeds: Vec<Vec<u8>>,
}

impl<T> CpiContext<T> {
    /// The signer seeds as sequences of bytes.
    pub open spec fn seeds(&self) -> Seq<Seq<u8>> {
        seeds_view(self.signer_seeds@)
    }

    /// A call that no derived address signs.
    pub fn new(program: Address, accounts: T) -> (r: Self)
        ensures
            r.program == program,
            r.accounts == accounts,
            r.seeds() == Seq::<Seq<u8>>::empty(),
    {
        let r = CpiContext { program, accounts, signer_seeds: Vec::new() };
        assert(r.seeds() =~= Seq::<Seq<u8>>::empty());
        r
    }

    /// The same call, signed by the address of the given seeds.
    pub fn with_signer(self, signer_seeds: Vec<Vec<u8>>) -> (r: Self)
        ensures
            r.program == self.program,
            r.accounts == self.accounts,
            r.signer_seeds == signer_seeds,
    {
        CpiContext { program: self.program, accounts: self.accounts, signer_seeds }
    }
}

/// Accounts of an admin call on a swap.
#[derive(Clone, Copy, Debug, PartialEq, Eq)]
pub struct AdminUserContext {
    /// The admin of the swap, which must sign.
    pub admin: Address,
    /// The swap.
    pub swap: Address,
}

/// Accounts of the call that proposes a new admin of a swap.
#[derive(Clone, Copy, Debug, PartialEq, Eq)]
pub struct SwapCommitNewAdmin {
    /// The admin and the swap.
    pub admin_ctx: AdminUserContext,
    /// The proposed admin.
    pub new_admin: Address,
}

/// What an admin call asks of a swap.
#[derive(Clone, Copy, Debug, PartialEq, Eq)]
pub enum SwapInstruction {
    /// Ramp the amplification coefficient to a target, to be reached at a time.
    RampA { target_amp: u64, stop_ramp_ts: i64 },
    /// Stop ramping.
    StopRampA,
    /// Pause the swap.
    Pause,
    /// Unpause the swap.
    Unpause,
    /// Make the proposed admin the admin.
    ApplyNewAdmin,
    /// Replace the fees.
    SetNewFees { new_fees: SwapFees },
}

/// An admin call on a swap.
#[derive(Clone, Debug, PartialEq, Eq)]
pub struct SwapAdminCall {
    /// Program, accounts and signer.
    pub ctx: CpiContext<AdminUserContext>,
    /// What is asked.
    pub instruction: SwapInstruction,
}

/// Accounts of a token transfer.
#[derive(Clone, Copy, Debug, PartialEq, Eq)]
pub struct TokenTransfer {
    /// The account to take from.
    pub from: Address,
    /// The account to pay into.
    pub to: Address,
    /// The owner of `from`, which must sign.
    pub authority: Address,
}

/// A token transfer of a given amount.
#[derive(Clone, Debug, PartialEq, Eq)]
pub struct TransferCall {
    /// Program, accounts and signer.
    pub ctx: CpiContext<TokenTransfer>,
    /// Number of tokens to move.
    pub amount: u64,
}

/// Creates the accounts of an admin call with the pool's address as the admin.
pub fn create_pool_admin_user_context(pool: &Account<Pool>, swap: Address) -> (r: AdminUserContext)
    ensures
        r.admin == pool.key,
        r.swap == swap,
{
    AdminUserContext { admin: pool.key, swap }
}

/// Creates an admin call to the swap program with the pool's address as
/// the admin, not yet signed.
pub fn pool_admin_cpi_context(pool: &Account<Pool>, swap: Address, swap_program: Address) -> (r:
    CpiContext<AdminUserContext>)
    ensures
        r.program == swap_program,
        r.accounts.admin == pool.key,
        r.accounts.swap == swap,
        r.seeds() == Seq::<Seq<u8>>::empty(),
{
    CpiContext::new(swap_program, create_pool_admin_user_context(pool, swap))
}

} // verus!
