//! Addresses that the registry owns: each is derived from a list of seeds
//! and a nonce, and whoever shows the seeds and the nonce may act as it.

use vstd::prelude::*;
use crate::address::Address;
use crate::errors::ErrorCode;
use crate::state::{sorted_pair, Pool, PoolManager};

verus! {

/// `PubkeyError`, the error that `Pubkey::create_program_address` returns.
/// Nothing is read of it: every refusal of a derivation counts alike.
#[verifier::external_type_specification]
#[verifier::external_body]
pub struct ExPubkeyError(anchor_lang::solana_program::pubkey::PubkeyError);

/// The address that the ledger derives for a program from a list of seeds,
/// or `None` where it derives none: the result of
/// `Pubkey::create_program_address` on these seeds and this program.
pub uninterp spec fn program_address(seeds: Seq<Seq<u8>>, program_id: Seq<u8>) -> Option<Seq<u8>>;

/// The seeds as sequences of bytes.
pub open spec fn seeds_view(seeds: Seq<Vec<u8>>) -> Seq<Seq<u8>> {
    Seq::new(seeds.len(), |i: int| seeds[i]@)
}

/// The tag that opens the seeds of every manager: the text `pool-manager`.
pub open spec fn manager_tag() -> Seq<u8> {
    seq![112u8, 111u8, 111u8, 108u8, 45u8, 109u8, 97u8, 110u8, 97u8, 103u8, 101u8, 114u8]
}

/// The tag that opens the seeds of every pool: the text `pool`.
pub open spec fn pool_tag() -> Seq<u8> {
    seq![112u8, 111u8, 111u8, 108u8]
}

/// Seeds of the manager with the given base.
pub open spec fn manager_seeds(base: Address) -> Seq<Seq<u8>> {
    seq![manager_tag(), base@]
}

/// Seeds of the pool of the given manager for the given two mints, which
/// enter in ascending order whichever way round they are given.
pub open spec fn pool_seeds(manager: Address, mint_a: Address, mint_b: Address) -> Seq<Seq<u8>> {
    let sorted = sorted_pair(mint_a, mint_b);
    seq![pool_tag(), manager@, sorted.0@, sorted.1@]
}

/// The seeds that prove authority: the seeds of the address, then the nonce.
pub open spec fn signer_seeds(seeds: Seq<Seq<u8>>, bump: u8) -> Seq<Seq<u8>> {
    seeds.push(seq![bump])
}

/// Whether the seeds and nonce prove authority over `address`: the ledger
/// derives that very address from them under the program.
pub open spec fn proves_authority(authority: Seq<Seq<u8>>, program_id: Address, address: Address) -> bool {
    program_address(authority, program_id@) == Some(address@)
}

/// Whether the seeds with the nonce give `address` under the program.
pub open spec fn derives(seeds: Seq<Seq<u8>>, bump: u8, program_id: Address, address: Address) -> bool {
    proves_authority(signer_seeds(seeds, bump), program_id, address)
}

/// Most seeds that a derivation takes.
pub const MAX_SEEDS: usize = 16;

/// Most bytes that one seed may have.
pub const MAX_SEED_LEN: usize = 32;

/// Whether there are more seeds, or more bytes in one of them, than a
/// derivation takes.
pub open spec fn seeds_too_long(seeds: Seq<Seq<u8>>) -> bool {
    seeds.len() > MAX_SEEDS || exists|i: int| 0 <= i < seeds.len() && (#[trigger] seeds[i]).len() > MAX_SEED_LEN
}

/// Calls `Pubkey::create_program_address`, which hashes the seeds, the
/// program's address and a fixed marker, and refuses a result that lies on
/// the signing curve, more than 16 seeds, or a seed of more than 32 bytes.
/// The contract names the outcome, claiming that the same seeds and program
/// always give the same address or the same refusal, and says of it only
/// that seeds which are too long are refused.
#[verifier::external_body]
fn create_program_address(seeds: &Vec<Vec<u8>>, program_id: &Address) -> (r: Result<
    Address,
    anchor_lang::solana_program::pubkey::PubkeyError,
>)
    ensures
        match r {
            Ok(address) => program_address(seeds_view(seeds@), program_id@) == Some(address@),
            Err(_) => program_address(seeds_view(seeds@), program_id@).is_none(),
        },
        seeds_too_long(seeds_view(seeds@)) ==> r.is_err(),
{
    let parts: Vec<&[u8]> = seeds.iter().map(|seed| seed.as_slice()).collect();
    let program = anchor_lang::solana_program::pubkey::Pubkey::new_from_array(program_id.bytes);
    match anchor_lang::solana_program::pubkey::Pubkey::create_program_address(&parts, &program) {
        Ok(key) => Ok(Address { bytes: key.to_bytes() }),
        Err(e) => Err(e),
    }
}

/// The tag of a manager's seeds, as bytes.
pub fn manager_tag_bytes() -> (r: Vec<u8>)
    ensures
        r@ == manager_tag(),
{
    let r: Vec<u8> = vec![112u8, 111u8, 111u8, 108u8, 45u8, 109u8, 97u8, 110u8, 97u8, 103u8, 101u8, 114u8];
    assert(r@ =~= manager_tag());
    r
}

/// The tag of a pool's seeds, as bytes.
pub fn pool_tag_bytes() -> (r: Vec<u8>)
    ensures
        r@ == pool_tag(),
{
    let r: Vec<u8> = vec![112u8, 111u8, 111u8, 108u8];
    assert(r@ =~= pool_tag());
    r
}

/// The seeds and nonce by which a manager's address signs.
pub fn manager_signer_seeds(base: &Address, bump: u8) -> (r: Vec<Vec<u8>>)
    ensures
        seeds_view(r@) == signer_seeds(manager_seeds(*base), bump),
{
    let mut seeds: Vec<Vec<u8>> = Vec::new();
    seeds.push(manager_tag_bytes());
    seeds.push(base.to_vec());
    let nonce: Vec<u8> = vec![bump];
    assert(nonce@ =~= seq![bump]);
    seeds.push(nonce);
    assert(seeds_view(seeds@) =~= signer_seeds(manager_seeds(*base), bump));
    seeds
}

/// The seeds and nonce by which a pool's address signs.
pub fn pool_signer_seeds(manager: &Address, mint_a: &Address, mint_b: &Address, bump: u8) -> (r: Vec<
    Vec<u8>,
>)
    ensures
        seeds_view(r@) == signer_seeds(pool_seeds(*manager, *mint_a, *mint_b), bump),
{
    let sorted = crate::state::sort_mints(*mint_a, *mint_b);
    let mut seeds: Vec<Vec<u8>> = Vec::new();
    seeds.push(pool_tag_bytes());
    seeds.push(manager.to_vec());
    seeds.push(sorted.0.to_vec());
    seeds.push(sorted.1.to_vec());
    let nonce: Vec<u8> = vec![bump];
    assert(nonce@ =~= seq![bump]);
    seeds.push(nonce);
    assert(seeds_view(seeds@) =~= signer_seeds(pool_seeds(*manager, *mint_a, *mint_b), bump));
    seeds
}

/// The signer seeds of a stored [PoolManager].
pub fn gen_pool_manager_signer_seeds(pool_manager: &PoolManager) -> (r: Vec<Vec<u8>>)
    ensures
        seeds_view(r@) == signer_seeds(manager_seeds(pool_manager.base), pool_manager.bump),
{
    manager_signer_seeds(&pool_manager.base, pool_manager.bump)
}

/// The signer seeds of a stored [Pool].
pub fn gen_pool_signer_seeds(pool: &Pool) -> (r: Vec<Vec<u8>>)
    ensures
        seeds_view(r@) == signer_seeds(
            pool_seeds(pool.manager, pool.mint_a, pool.mint_b),
            pool.bump,
        ),
{
    pool_signer_seeds(&pool.manager, &pool.mint_a, &pool.mint_b, pool.bump)
}

/// Decides whether a derivation gave the address that the caller supplied.
/// `derived` is what the ledger derived, or `None` where it derived nothing.
pub fn check_derived(derived: Option<Address>, supplied: &Address) -> (r: Result<(), ErrorCode>)
    ensures
        r == (if derived == Some(*supplied) {
            Ok::<(), ErrorCode>(())
        } else {
            Err(ErrorCode::InvalidSeeds)
        }),
{
    match derived {
        Some(address) => {
            if address.equals(supplied) {
                Ok(())
            } else {
                Err(ErrorCode::InvalidSeeds)
            }
        },
        None => Err(ErrorCode::InvalidSeeds),
    }
}

/// Derives the address of the given signer seeds under the program.
/// Seeds that are too long give none.
pub fn derive_address(seeds: &Vec<Vec<u8>>, program_id: &Address) -> (r: Option<Address>)
    ensures
        match r {
            Some(address) => program_address(seeds_view(seeds@), program_id@) == Some(address@),
            None => program_address(seeds_view(seeds@), program_id@).is_none(),
        },
        seeds_too_long(seeds_view(seeds@)) ==> r.is_none(),
{
    match create_program_address(seeds, program_id) {
        Ok(address) => Some(address),
        Err(_) => None,
    }
}

/// Checks that `supplied` is the address that the signer seeds give under
/// the program, and refuses with `InvalidSeeds` where it is not.
pub fn verify_address(seeds: &Vec<Vec<u8>>, program_id: &Address, supplied: &Address) -> (r: Result<
    (),
    ErrorCode,
>)
    ensures
        r == (if proves_authority(seeds_view(seeds@), *program_id, *supplied) {
            Ok::<(), ErrorCode>(())
        } else {
            Err(ErrorCode::InvalidSeeds)
        }),
{
    let derived = derive_address(seeds, program_id);
    proof {
        if let Some(address) = derived {
            Address::lemma_view_injective(address, *supplied);
        }
    }
    check_derived(derived, supplied)
}

} // verus!
