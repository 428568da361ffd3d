use anchor_lang::prelude::Pubkey;
use pools::address::Address;
use pools::errors::{ErrorCode, Fault};
use pools::identity::{
    check_derived, derive_address, gen_pool_manager_signer_seeds, gen_pool_signer_seeds,
    manager_signer_seeds, manager_tag_bytes, pool_signer_seeds, pool_tag_bytes, verify_address,
};
use pools::state::{sort_mints, Pool, PoolManager, SwapFees};

fn addr(n: u8) -> Address {
    Address::new([n; 32])
}

fn find(seeds: &[&[u8]], program: &Address) -> (Address, u8) {
    let (key, bump) = Pubkey::find_program_address(seeds, &Pubkey::new_from_array(program.bytes));
    (Address::new(key.to_bytes()), bump)
}

#[test]
fn equals_compares_all_bytes() {
    let a = addr(7);
    let mut bytes = [7u8; 32];
    assert!(a.equals(&Address::new(bytes)));
    bytes[31] = 8;
    assert!(!a.equals(&Address::new(bytes)));
    bytes[31] = 7;
    bytes[0] = 6;
    assert!(!a.equals(&Address::new(bytes)));
}

#[test]
fn zero_address_is_all_zero() {
    assert_eq!(Address::zero().bytes, [0u8; 32]);
    assert_eq!(Address::zero().bytes, Pubkey::default().to_bytes());
}

#[test]
fn less_than_is_lexicographic_on_bytes() {
    let mut lo = [0u8; 32];
    lo[0] = 1;
    lo[31] = 255;
    let mut hi = [0u8; 32];
    hi[0] = 2;
    let lo = Address::new(lo);
    let hi = Address::new(hi);
    assert!(lo.less_than(&hi));
    assert!(!hi.less_than(&lo));
    assert!(!lo.less_than(&lo));
    // the last byte decides when all others agree
    let mut x = [9u8; 32];
    let y = Address::new(x);
    x[31] = 10;
    let x = Address::new(x);
    assert!(y.less_than(&x));
    assert!(!x.less_than(&y));
    // bytes compare unsigned
    assert!(addr(127).less_than(&addr(128)));
    assert!(addr(0).less_than(&addr(255)));
}

#[test]
fn less_than_agrees_with_the_ledger_order() {
    let samples = [addr(0), addr(1), addr(200), addr(255), Address::new({
        let mut b = [1u8; 32];
        b[5] = 0;
        b
    })];
    for a in samples.iter() {
        for b in samples.iter() {
            let ka = Pubkey::new_from_array(a.bytes);
            let kb = Pubkey::new_from_array(b.bytes);
            assert_eq!(a.less_than(b), ka < kb);
            assert_eq!(a.equals(b), ka == kb);
        }
    }
}

#[test]
fn sort_mints_puts_the_smaller_first() {
    assert_eq!(sort_mints(addr(5), addr(3)), (addr(3), addr(5)));
    assert_eq!(sort_mints(addr(3), addr(5)), (addr(3), addr(5)));
    assert_eq!(sort_mints(addr(4), addr(4)), (addr(4), addr(4)));
}

#[test]
fn to_vec_gives_the_bytes() {
    let mut bytes = [0u8; 32];
    for i in 0..32 {
        bytes[i] = i as u8;
    }
    assert_eq!(Address::new(bytes).to_vec(), bytes.to_vec());
}

#[test]
fn tags_are_the_namespace_texts() {
    assert_eq!(manager_tag_bytes(), b"pool-manager".to_vec());
    assert_eq!(pool_tag_bytes(), b"pool".to_vec());
}

#[test]
fn manager_seeds_are_tag_base_and_nonce() {
    let seeds = manager_signer_seeds(&addr(9), 254);
    assert_eq!(seeds, vec![b"pool-manager".to_vec(), vec![9u8; 32], vec![254u8]]);
}

#[test]
fn pool_seeds_hold_the_mints_in_ascending_order() {
    let expected = vec![b"pool".to_vec(), vec![1u8; 32], vec![3u8; 32], vec![5u8; 32], vec![250u8]];
    assert_eq!(pool_signer_seeds(&addr(1), &addr(5), &addr(3), 250), expected);
    assert_eq!(pool_signer_seeds(&addr(1), &addr(3), &addr(5), 250), expected);
}

#[test]
fn stored_records_give_their_own_seeds() {
    let manager = PoolManager {
        base: addr(4),
        bump: 7,
        num_pools: 0,
        admin: addr(1),
        pending_admin: Address::zero(),
        initial_fees: SwapFees::initial(),
        min_permissionless_amp_factor: 10,
        max_permissionless_amp_factor: 200,
        operator: addr(2),
        beneficiary: addr(3),
    };
    assert_eq!(
        gen_pool_manager_signer_seeds(&manager),
        vec![b"pool-manager".to_vec(), vec![4u8; 32], vec![7u8]]
    );
    let pool = Pool {
        manager: addr(20),
        mint_a: addr(9),
        mint_b: addr(8),
        bump: 3,
        swap: addr(21),
        index: 0,
        token_a_fees: addr(22),
        token_b_fees: addr(23),
        lp_mint: addr(24),
        token_decimals: 6,
        permissionless_import: false,
    };
    assert_eq!(pool.sorted_mints(), (addr(8), addr(9)));
    assert_eq!(
        gen_pool_signer_seeds(&pool),
        vec![b"pool".to_vec(), vec![20u8; 32], vec![8u8; 32], vec![9u8; 32], vec![3u8]]
    );
}

#[test]
fn derive_address_is_the_ledger_derivation() {
    let program = addr(42);
    let base = addr(9);
    let (expected, bump) = find(&[b"pool-manager", &base.bytes], &program);
    let seeds = manager_signer_seeds(&base, bump);
    let derived = derive_address(&seeds, &program);
    assert_eq!(derived, Some(expected));
    // the result is neither the program nor any of the seeds
    assert_ne!(derived, Some(program));
    assert_ne!(derived, Some(base));
    // another program gives another address
    assert_ne!(derive_address(&seeds, &addr(43)), Some(expected));
}

#[test]
fn derive_address_refuses_too_long_a_seed() {
    let seeds = vec![vec![0u8; 33]];
    assert_eq!(derive_address(&seeds, &addr(42)), None);
    let many: Vec<Vec<u8>> = (0..17).map(|i| vec![i as u8]).collect();
    assert_eq!(derive_address(&many, &addr(42)), None);
}

#[test]
fn check_derived_accepts_only_the_supplied_address() {
    assert_eq!(check_derived(Some(addr(1)), &addr(1)), Ok(()));
    assert_eq!(check_derived(Some(addr(2)), &addr(1)), Err(ErrorCode::InvalidSeeds));
    assert_eq!(check_derived(None, &addr(1)), Err(ErrorCode::InvalidSeeds));
}

#[test]
fn verify_address_rejects_a_wrong_nonce() {
    let program = addr(42);
    let base = addr(9);
    let (expected, bump) = find(&[b"pool-manager", &base.bytes], &program);
    assert_eq!(verify_address(&manager_signer_seeds(&base, bump), &program, &expected), Ok(()));
    assert_eq!(
        verify_address(&manager_signer_seeds(&base, bump.wrapping_sub(1)), &program, &expected),
        Err(ErrorCode::InvalidSeeds)
    );
    assert_eq!(
        verify_address(&manager_signer_seeds(&base, bump), &program, &base),
        Err(ErrorCode::InvalidSeeds)
    );
}

#[test]
fn every_reason_has_its_category() {
    assert_eq!(ErrorCode::NotAdmin.category(), Fault::AuthorizationDenied);
    assert_eq!(ErrorCode::NotAdminOrOperator.category(), Fault::AuthorizationDenied);
    assert_eq!(ErrorCode::InitialAmpOutOfRange.category(), Fault::PolicyViolation);
    assert_eq!(ErrorCode::InitialFeesMismatch.category(), Fault::PolicyViolation);
    assert_eq!(ErrorCode::SwapTokensNotSorted.category(), Fault::PolicyViolation);
    assert_eq!(ErrorCode::SwapTokensCannotBeEqual.category(), Fault::PolicyViolation);
    assert_eq!(ErrorCode::InvalidFeeAccount.category(), Fault::RelationshipMismatch);
    assert_eq!(ErrorCode::KeyMismatch.category(), Fault::RelationshipMismatch);
    assert_eq!(ErrorCode::InvariantFailed.category(), Fault::RelationshipMismatch);
    assert_eq!(ErrorCode::IntegerOverflow.category(), Fault::StateInvariantViolation);
    assert_eq!(ErrorCode::InvalidSeeds.category(), Fault::StateInvariantViolation);
}
