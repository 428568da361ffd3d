//! The two records that the registry keeps: the manager and its pools.

use vstd::prelude::*;
use crate::address::Address;

verus! {

/// Smallest amplification factor of a swap that anyone may import.
pub const MIN_PERMISSIONLESS_AMP_FACTOR: u64 = 10;

/// Largest amplification factor of a swap that anyone may import.
pub const MAX_PERMISSIONLESS_AMP_FACTOR: u64 = 200;

/// Numerator of the trade fee that a swap must charge to be imported by anyone.
pub const INITIAL_TRADE_FEE_NUMERATOR: u64 = 4;

/// Denominator of every initial fee.
pub const INITIAL_FEE_DENOMINATOR: u64 = 10_000;

/// Fees of a swap, each as a fraction.
#[derive(Clone, Copy, Debug, PartialEq, Eq, Structural)]
pub struct SwapFees {
    /// Admin trade fee numerator
    pub admin_trade_fee_numerator: u64,
    /// Admin trade fee denominator
    pub admin_trade_fee_denominator: u64,
    /// Admin withdraw fee numerator
    pub admin_withdraw_fee_numerator: u64,
    /// Admin withdraw fee denominator
    pub admin_withdraw_fee_denominator: u64,
    /// Trade fee numerator
    pub trade_fee_numerator: u64,
    /// Trade fee denominator
    pub trade_fee_denominator: u64,
    /// Withdraw fee numerator
    pub withdraw_fee_numerator: u64,
    /// Withdraw fee denominator
    pub withdraw_fee_denominator: u64,
}

impl SwapFees {
    /// The fees that every new manager asks of permissionless imports:
    /// a trade fee of 4 in 10,000 and no other fee.
    pub open spec fn spec_initial() -> SwapFees {
        SwapFees {
            trade_fee_numerator: 4,
            withdraw_fee_numerator: 0,
            admin_trade_fee_numerator: 0,
            admin_withdraw_fee_numerator: 0,
            trade_fee_denominator: 10_000,
            withdraw_fee_denominator: 10_000,
            admin_trade_fee_denominator: 10_000,
            admin_withdraw_fee_denominator: 10_000,
        }
    }

    /// The fees that every new manager asks of permissionless imports.
    #[verifier::when_used_as_spec(spec_initial)]
    pub fn initial() -> (r: SwapFees)
        ensures
            r == Self::spec_initial(),
    {
        SwapFees {
            trade_fee_numerator: INITIAL_TRADE_FEE_NUMERATOR,
            withdraw_fee_numerator: 0,
            admin_trade_fee_numerator: 0,
            admin_withdraw_fee_numerator: 0,
            trade_fee_denominator: INITIAL_FEE_DENOMINATOR,
            withdraw_fee_denominator: INITIAL_FEE_DENOMINATOR,
            admin_trade_fee_denominator: INITIAL_FEE_DENOMINATOR,
            admin_withdraw_fee_denominator: INITIAL_FEE_DENOMINATOR,
        }
    }
}

/// Manages all [Pool]s.
#[derive(Clone, Copy, Debug, PartialEq, Eq)]
pub struct PoolManager {
    /// The base address that the manager's own address is derived from.
    pub base: Address,
    /// Nonce of the derivation.
    pub bump: u8,
    /// Total number of [Pool]s being managed, and the index of the next one.
    pub num_pools: u64,
    /// The admin of the manager.
    pub admin: Address,
    /// The next admin of the manager.
    pub pending_admin: Address,
    /// Fees that a swap must have to be imported by anyone.
    pub initial_fees: SwapFees,
    /// Minimum amp factor for permissionless pools.
    pub min_permissionless_amp_factor: u64,
    /// Maximum amp factor for permissionless pools.
    pub max_permissionless_amp_factor: u64,
    /// Identity that may import pools without the policy checks.
    pub operator: Address,
    /// Identity which all fees may be withdrawn to.
    pub beneficiary: Address,
}

/// The admin of a swap.
#[derive(Clone, Copy, Debug, PartialEq, Eq)]
pub struct Pool {
    /// The [PoolManager].
    pub manager: Address,
    /// The smaller of the swap's two token mints.
    pub mint_a: Address,
    /// The larger of the swap's two token mints.
    pub mint_b: Address,
    /// Nonce of the derivation.
    pub bump: u8,
    /// The swap that this pool administers.
    pub swap: Address,
    /// Creation index, counted from zero.
    pub index: u64,
    /// Token account holding fees of token A.
    pub token_a_fees: Address,
    /// Token account holding fees of token B.
    pub token_b_fees: Address,
    /// LP token mint.
    pub lp_mint: Address,
    /// Decimals of the LP token mint.
    pub token_decimals: u8,
    /// Whether the pool was imported without the operator.
    pub permissionless_import: bool,
}

/// The two addresses in ascending order of their bytes.
pub open spec fn sorted_pair(a: Address, b: Address) -> (Address, Address) {
    if b.precedes(a) {
        (b, a)
    } else {
        (a, b)
    }
}

/// Sorting a pair puts it in ascending order, keeps its two members, and
/// changes nothing when done again.
pub proof fn lemma_sorted_pair(a: Address, b: Address)
    ensures
        !sorted_pair(a, b).1.precedes(sorted_pair(a, b).0),
        sorted_pair(a, b) == (a, b) || sorted_pair(a, b) == (b, a),
        sorted_pair(sorted_pair(a, b).0, sorted_pair(a, b).1) == sorted_pair(a, b),
        a != b ==> sorted_pair(a, b) == sorted_pair(b, a),
{
    Address::lemma_precedes_asymmetric(a, b);
    Address::lemma_precedes_total(a, b);
}

/// Puts two mints in ascending order of their bytes.
pub fn sort_mints(a: Address, b: Address) -> (r: (Address, Address))
    ensures
        r == sorted_pair(a, b),
        !r.1.precedes(r.0),
{
    proof {
        Address::lemma_precedes_asymmetric(a, b);
    }
    if b.less_than(&a) {
        (b, a)
    } else {
        (a, b)
    }
}

impl Pool {
    /// The pool's two mints in ascending order: the seed material of its address.
    pub open spec fn spec_sorted_mints(&self) -> (Address, Address) {
        sorted_pair(self.mint_a, self.mint_b)
    }

    /// Whether the mints are stored in ascending order.
    pub open spec fn mints_ascending(&self) -> bool {
        !self.mint_b.precedes(self.mint_a)
    }

    /// The pool's two mints in ascending order, computed from the stored
    /// fields whatever order they are stored in.
    #[verifier::when_used_as_spec(spec_sorted_mints)]
    pub fn sorted_mints(&self) -> (r: (Address, Address))
        ensures
            r == self.spec_sorted_mints(),
            !r.1.precedes(r.0),
    {
        sort_mints(self.mint_a, self.mint_b)
    }
}

} // verus!
