use anchor_lang::prelude::Pubkey;
use pools::accounts::{
    Account, ImportPoolAsOperator, ImportPoolPermissionless, Mint, NewPoolManager, RotateAdmin,
    SetBeneficiary, SetOperator, SwapInfo, SwapTokenInfo, TokenAccount,
};
use pools::address::Address;
use pools::errors::{ErrorCode, Fault};
use pools::import_pool::import_pool_unchecked;
use pools::pools::{
    import_pool_as_operator, import_pool_permissionless, new_pool_manager, rotate_admin,
    set_beneficiary, set_operator,
};
use pools::state::{Pool, PoolManager, SwapFees};

const PROGRAM: Address = Address { bytes: [77u8; 32] };
const ADMIN: Address = Address { bytes: [1u8; 32] };
const OPERATOR: Address = Address { bytes: [2u8; 32] };
const BENEFICIARY: Address = Address { bytes: [3u8; 32] };
const BASE: Address = Address { bytes: [4u8; 32] };
const MINT_LO: Address = Address { bytes: [10u8; 32] };
const MINT_HI: Address = Address { bytes: [11u8; 32] };
const SWAP: Address = Address { bytes: [12u8; 32] };
const LP_MINT: Address = Address { bytes: [13u8; 32] };
const FEES_A: Address = Address { bytes: [14u8; 32] };
const FEES_B: Address = Address { bytes: [15u8; 32] };

fn find(seeds: &[&[u8]], program: &Address) -> (Address, u8) {
    let (key, bump) = Pubkey::find_program_address(seeds, &Pubkey::new_from_array(program.bytes));
    (Address::new(key.to_bytes()), bump)
}

fn blank_manager() -> PoolManager {
    PoolManager {
        base: Address::zero(),
        bump: 0,
        num_pools: 0,
        admin: Address::zero(),
        pending_admin: Address::zero(),
        initial_fees: SwapFees {
            admin_trade_fee_numerator: 0,
            admin_trade_fee_denominator: 0,
            admin_withdraw_fee_numerator: 0,
            admin_withdraw_fee_denominator: 0,
            trade_fee_numerator: 0,
            trade_fee_denominator: 0,
            withdraw_fee_numerator: 0,
            withdraw_fee_denominator: 0,
        },
        min_permissionless_amp_factor: 0,
        max_permissionless_amp_factor: 0,
        operator: Address::zero(),
        beneficiary: Address::zero(),
    }
}

fn blank_pool() -> Pool {
    Pool {
        manager: Address::zero(),
        mint_a: Address::zero(),
        mint_b: Address::zero(),
        bump: 0,
        swap: Address::zero(),
        index: 0,
        token_a_fees: Address::zero(),
        token_b_fees: Address::zero(),
        lp_mint: Address::zero(),
        token_decimals: 0,
        permissionless_import: false,
    }
}

fn manager() -> (Account<PoolManager>, u8) {
    let (key, bump) = find(&[b"pool-manager", &BASE.bytes], &PROGRAM);
    let mut accounts = NewPoolManager {
        pool_manager: Account { key, data: blank_manager() },
        base: BASE,
        admin: ADMIN,
        operator: OPERATOR,
        beneficiary: BENEFICIARY,
    };
    assert_eq!(new_pool_manager(&PROGRAM, &mut accounts, bump), Ok(()));
    (accounts.pool_manager, bump)
}

/// Accounts of a sound import of the swap with the given two mints, and the pool's nonce.
fn import_accounts(
    pool_manager: Account<PoolManager>,
    mint_a: Address,
    mint_b: Address,
) -> (ImportPoolPermissionless, u8) {
    let (lo, hi) = if mint_a.bytes <= mint_b.bytes { (mint_a, mint_b) } else { (mint_b, mint_a) };
    let (pool_key, bump) = find(&[b"pool", &pool_manager.key.bytes, &lo.bytes, &hi.bytes], &PROGRAM);
    let fee_account = |key: Address, mint: Address| Account {
        key,
        data: TokenAccount { mint, owner: pool_key, amount: 0, delegate: None, close_authority: None },
    };
    let accounts = ImportPoolPermissionless {
        pool_manager,
        swap: Account {
            key: SWAP,
            data: SwapInfo {
                initial_amp_factor: 100,
                target_amp_factor: 100,
                admin_key: pool_key,
                token_a: SwapTokenInfo { mint: mint_a, admin_fees: FEES_A },
                token_b: SwapTokenInfo { mint: mint_b, admin_fees: FEES_B },
                pool_mint: LP_MINT,
                fees: SwapFees::initial(),
            },
        },
        pool: Account { key: pool_key, data: blank_pool() },
        token_a_fees: fee_account(FEES_A, mint_a),
        token_b_fees: fee_account(FEES_B, mint_b),
        lp_mint: Account { key: LP_MINT, data: Mint { decimals: 6 } },
    };
    (accounts, bump)
}

fn refused_unchanged(accounts: ImportPoolPermissionless, bump: u8, expected: ErrorCode) {
    let mut after = accounts;
    assert_eq!(import_pool_permissionless(&PROGRAM, &mut after, bump), Err(expected));
    assert_eq!(after, accounts);
}

#[test]
fn new_manager_has_the_fixed_policy() {
    let (pm, bump) = manager();
    assert_eq!(
        pm.data,
        PoolManager {
            base: BASE,
            bump,
            num_pools: 0,
            admin: ADMIN,
            pending_admin: Address::new([0u8; 32]),
            initial_fees: SwapFees {
                admin_trade_fee_numerator: 0,
                admin_trade_fee_denominator: 10_000,
                admin_withdraw_fee_numerator: 0,
                admin_withdraw_fee_denominator: 10_000,
                trade_fee_numerator: 4,
                trade_fee_denominator: 10_000,
                withdraw_fee_numerator: 0,
                withdraw_fee_denominator: 10_000,
            },
            min_permissionless_amp_factor: 10,
            max_permissionless_amp_factor: 200,
            operator: OPERATOR,
            beneficiary: BENEFICIARY,
        }
    );
}

#[test]
fn new_manager_at_another_address_is_refused() {
    let (key, bump) = find(&[b"pool-manager", &BASE.bytes], &PROGRAM);
    let accounts = NewPoolManager {
        pool_manager: Account { key, data: blank_manager() },
        base: BASE,
        admin: ADMIN,
        operator: OPERATOR,
        beneficiary: BENEFICIARY,
    };
    let mut wrong_nonce = accounts;
    let r = new_pool_manager(&PROGRAM, &mut wrong_nonce, bump.wrapping_sub(1));
    assert_eq!(r, Err(ErrorCode::InvalidSeeds));
    assert_eq!(r.unwrap_err().category(), Fault::StateInvariantViolation);
    assert_eq!(wrong_nonce, accounts);
    let mut wrong_key = accounts;
    wrong_key.pool_manager.key = BASE;
    assert_eq!(new_pool_manager(&PROGRAM, &mut wrong_key, bump), Err(ErrorCode::InvalidSeeds));
    let mut wrong_base = accounts;
    wrong_base.base = ADMIN;
    assert_eq!(new_pool_manager(&PROGRAM, &mut wrong_base, bump), Err(ErrorCode::InvalidSeeds));
}

#[test]
fn permissionless_import_records_the_pool() {
    let (pm, _) = manager();
    let (mut accounts, bump) = import_accounts(pm, MINT_LO, MINT_HI);
    assert_eq!(import_pool_permissionless(&PROGRAM, &mut accounts, bump), Ok(()));
    assert_eq!(accounts.pool_manager.data.num_pools, 1);
    assert_eq!(
        accounts.pool.data,
        Pool {
            manager: pm.key,
            mint_a: MINT_LO,
            mint_b: MINT_HI,
            bump,
            swap: SWAP,
            index: 0,
            token_a_fees: FEES_A,
            token_b_fees: FEES_B,
            lp_mint: LP_MINT,
            token_decimals: 6,
            permissionless_import: true,
        }
    );
    assert_eq!(PoolManager { num_pools: 0, ..accounts.pool_manager.data }, pm.data);
}

#[test]
fn each_import_takes_the_next_index() {
    let (pm, _) = manager();
    let (mut first, bump) = import_accounts(pm, MINT_LO, MINT_HI);
    assert_eq!(import_pool_permissionless(&PROGRAM, &mut first, bump), Ok(()));
    let other_mint = Address::new([99u8; 32]);
    let (mut second, bump) = import_accounts(first.pool_manager, MINT_HI, other_mint);
    assert_eq!(import_pool_permissionless(&PROGRAM, &mut second, bump), Ok(()));
    assert_eq!(first.pool.data.index, 0);
    assert_eq!(second.pool.data.index, 1);
    assert_eq!(second.pool_manager.data.num_pools, 2);
    let mut high = second.pool_manager;
    high.data.num_pools = u64::MAX - 1;
    let (mut third, bump) = import_accounts(high, MINT_LO, other_mint);
    assert_eq!(import_pool_permissionless(&PROGRAM, &mut third, bump), Ok(()));
    assert_eq!(third.pool.data.index, u64::MAX - 1);
    assert_eq!(third.pool_manager.data.num_pools, u64::MAX);
}

#[test]
fn import_fails_rather_than_wrap_the_count() {
    let (mut pm, _) = manager();
    pm.data.num_pools = u64::MAX;
    let (accounts, bump) = import_accounts(pm, MINT_LO, MINT_HI);
    refused_unchanged(accounts, bump, ErrorCode::IntegerOverflow);
    assert_eq!(ErrorCode::IntegerOverflow.category(), Fault::StateInvariantViolation);
    let mut direct = accounts;
    assert_eq!(import_pool_unchecked(&mut direct, bump, false), Err(ErrorCode::IntegerOverflow));
    assert_eq!(direct, accounts);
}

#[test]
fn amp_factor_below_the_minimum_is_a_policy_violation() {
    let (pm, _) = manager();
    let (mut accounts, bump) = import_accounts(pm, MINT_LO, MINT_HI);
    accounts.swap.data.initial_amp_factor = 9;
    let before = accounts;
    let r = import_pool_permissionless(&PROGRAM, &mut accounts, bump);
    assert_eq!(r, Err(ErrorCode::InitialAmpOutOfRange));
    assert_eq!(r.unwrap_err().category(), Fault::PolicyViolation);
    assert_eq!(accounts, before);
    assert_eq!(accounts.pool.data, blank_pool());
    assert_eq!(accounts.pool_manager.data.num_pools, 0);
}

#[test]
fn amp_factor_bounds_are_inclusive() {
    let (pm, _) = manager();
    let (base, bump) = import_accounts(pm, MINT_LO, MINT_HI);
    let mut at_min = base;
    at_min.swap.data.initial_amp_factor = 10;
    assert_eq!(import_pool_permissionless(&PROGRAM, &mut at_min, bump), Ok(()));
    let mut at_max = base;
    at_max.swap.data.target_amp_factor = 200;
    assert_eq!(import_pool_permissionless(&PROGRAM, &mut at_max, bump), Ok(()));
    let mut above = base;
    above.swap.data.target_amp_factor = 201;
    refused_unchanged(above, bump, ErrorCode::InitialAmpOutOfRange);
}

#[test]
fn policy_refusals_of_a_permissionless_import() {
    let (pm, _) = manager();
    let (base, bump) = import_accounts(pm, MINT_LO, MINT_HI);

    let mut fees = base;
    fees.swap.data.fees.trade_fee_numerator = 5;
    refused_unchanged(fees, bump, ErrorCode::InitialFeesMismatch);

    let (same, same_bump) = import_accounts(pm, MINT_LO, MINT_LO);
    refused_unchanged(same, same_bump, ErrorCode::SwapTokensCannotBeEqual);

    let (unsorted, unsorted_bump) = import_accounts(pm, MINT_HI, MINT_LO);
    refused_unchanged(unsorted, unsorted_bump, ErrorCode::SwapTokensNotSorted);
    assert_eq!(ErrorCode::SwapTokensNotSorted.category(), Fault::PolicyViolation);
}

#[test]
fn relationship_refusals_of_an_import() {
    let (pm, _) = manager();
    let (base, bump) = import_accounts(pm, MINT_LO, MINT_HI);

    let mut admin = base;
    admin.swap.data.admin_key = ADMIN;
    refused_unchanged(admin, bump, ErrorCode::KeyMismatch);

    let mut lp = base;
    lp.lp_mint.key = MINT_LO;
    refused_unchanged(lp, bump, ErrorCode::KeyMismatch);

    let mut owner = base;
    owner.token_a_fees.data.owner = ADMIN;
    refused_unchanged(owner, bump, ErrorCode::KeyMismatch);

    let mut mint = base;
    mint.token_b_fees.data.mint = MINT_LO;
    refused_unchanged(mint, bump, ErrorCode::KeyMismatch);

    let mut delegate = base;
    delegate.token_a_fees.data.delegate = Some(ADMIN);
    refused_unchanged(delegate, bump, ErrorCode::InvariantFailed);

    let mut close = base;
    close.token_b_fees.data.close_authority = Some(ADMIN);
    refused_unchanged(close, bump, ErrorCode::InvariantFailed);

    let mut other = base;
    other.token_b_fees.key = FEES_A;
    refused_unchanged(other, bump, ErrorCode::KeyMismatch);

    // a relationship is looked at before the policy
    let mut both = base;
    both.swap.data.admin_key = ADMIN;
    both.swap.data.initial_amp_factor = 1;
    refused_unchanged(both, bump, ErrorCode::KeyMismatch);
    assert_eq!(ErrorCode::KeyMismatch.category(), Fault::RelationshipMismatch);
}

#[test]
fn import_at_an_underived_pool_address_is_refused() {
    let (pm, _) = manager();
    let (base, bump) = import_accounts(pm, MINT_LO, MINT_HI);
    refused_unchanged(base, bump.wrapping_sub(1), ErrorCode::InvalidSeeds);
    let mut moved = base;
    moved.pool.key = SWAP;
    moved.swap.data.admin_key = SWAP;
    moved.token_a_fees.data.owner = SWAP;
    moved.token_b_fees.data.owner = SWAP;
    refused_unchanged(moved, bump, ErrorCode::InvalidSeeds);
}

#[test]
fn operator_import_is_for_admin_and_operator() {
    let (pm, _) = manager();
    let (import_pool, bump) = import_accounts(pm, MINT_LO, MINT_HI);
    let stranger = Address::new([50u8; 32]);

    let before = ImportPoolAsOperator { admin_or_operator: stranger, import_pool };
    let mut accounts = before;
    let r = import_pool_as_operator(&PROGRAM, &mut accounts, bump);
    assert_eq!(r, Err(ErrorCode::NotAdminOrOperator));
    assert_eq!(r.unwrap_err().category(), Fault::AuthorizationDenied);
    assert_eq!(accounts, before);

    let mut accounts = ImportPoolAsOperator { admin_or_operator: OPERATOR, import_pool };
    assert_eq!(import_pool_as_operator(&PROGRAM, &mut accounts, bump), Ok(()));
    assert_eq!(accounts.import_pool.pool.data.index, 0);
    assert!(!accounts.import_pool.pool.data.permissionless_import);
    assert_eq!(accounts.import_pool.pool_manager.data.num_pools, 1);
    assert_eq!(accounts.admin_or_operator, OPERATOR);

    let mut accounts = ImportPoolAsOperator { admin_or_operator: ADMIN, import_pool };
    assert_eq!(import_pool_as_operator(&PROGRAM, &mut accounts, bump), Ok(()));
    assert!(!accounts.import_pool.pool.data.permissionless_import);
}

#[test]
fn operator_import_skips_the_policy_and_sorts_the_mints() {
    let (pm, _) = manager();
    let (mut import_pool, bump) = import_accounts(pm, MINT_HI, MINT_LO);
    import_pool.swap.data.initial_amp_factor = 1;
    import_pool.swap.data.target_amp_factor = 5000;
    import_pool.swap.data.fees.trade_fee_numerator = 30;
    let mut accounts = ImportPoolAsOperator { admin_or_operator: OPERATOR, import_pool };
    assert_eq!(import_pool_as_operator(&PROGRAM, &mut accounts, bump), Ok(()));
    let pool = accounts.import_pool.pool.data;
    assert_eq!((pool.mint_a, pool.mint_b), (MINT_LO, MINT_HI));
    assert_eq!(pool.sorted_mints(), (MINT_LO, MINT_HI));
    assert_eq!((pool.token_a_fees, pool.token_b_fees), (FEES_A, FEES_B));
    // the relationships still bind the operator
    let mut bad = ImportPoolAsOperator { admin_or_operator: OPERATOR, import_pool };
    bad.import_pool.token_a_fees.data.delegate = Some(ADMIN);
    let before = bad;
    assert_eq!(import_pool_as_operator(&PROGRAM, &mut bad, bump), Err(ErrorCode::InvariantFailed));
    assert_eq!(bad, before);
}

#[test]
fn import_unchecked_writes_the_flag_it_is_given() {
    let (pm, _) = manager();
    let (base, bump) = import_accounts(pm, MINT_HI, MINT_LO);
    let mut open = base;
    assert_eq!(import_pool_unchecked(&mut open, bump, true), Ok(()));
    assert!(open.pool.data.permissionless_import);
    assert_eq!((open.pool.data.mint_a, open.pool.data.mint_b), (MINT_LO, MINT_HI));
    assert_eq!(open.pool.data.bump, bump);
    let mut closed = base;
    assert_eq!(import_pool_unchecked(&mut closed, 17, false), Ok(()));
    assert!(!closed.pool.data.permissionless_import);
    assert_eq!(closed.pool.data.bump, 17);
    assert_eq!(base.validate_initial_parameters(), Err(ErrorCode::SwapTokensNotSorted));
    assert_eq!(base.validate(), Ok(()));
}

#[test]
fn only_the_admin_sets_the_roles() {
    let (pm, _) = manager();
    let newcomer = Address::new([60u8; 32]);

    let mut op = SetOperator { pool_manager: pm, admin: OPERATOR, operator: newcomer };
    let before = op;
    assert_eq!(set_operator(&mut op), Err(ErrorCode::NotAdmin));
    assert_eq!(op, before);
    op.admin = ADMIN;
    assert_eq!(set_operator(&mut op), Ok(()));
    assert_eq!(op.pool_manager.data, PoolManager { operator: newcomer, ..pm.data });

    let mut ben = SetBeneficiary { pool_manager: pm, admin: BENEFICIARY, beneficiary: newcomer };
    let before = ben;
    assert_eq!(set_beneficiary(&mut ben), Err(ErrorCode::NotAdmin));
    assert_eq!(ben, before);
    ben.admin = ADMIN;
    assert_eq!(set_beneficiary(&mut ben), Ok(()));
    assert_eq!(ben.pool_manager.data, PoolManager { beneficiary: newcomer, ..pm.data });

    let mut rot = RotateAdmin { pool_manager: pm, admin: newcomer, new_admin: newcomer };
    let before = rot;
    assert_eq!(rotate_admin(&mut rot), Err(ErrorCode::NotAdmin));
    assert_eq!(rot, before);
    rot.admin = ADMIN;
    assert_eq!(rotate_admin(&mut rot), Ok(()));
    assert_eq!(rot.pool_manager.data, PoolManager { admin: newcomer, ..pm.data });
    // the old admin has lost the role
    let mut late = SetOperator { pool_manager: rot.pool_manager, admin: ADMIN, operator: ADMIN };
    assert_eq!(set_operator(&mut late), Err(ErrorCode::NotAdmin));
}
