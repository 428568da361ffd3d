//! Addresses: 32 raw bytes, compared byte by byte.

use vstd::prelude::*;

verus! {

/// An address on the ledger: an account, a program or a signing identity.
///
/// Its view is the sequence of its 32 bytes.
#[derive(Clone, Copy, Debug, PartialEq, Eq, Hash)]
pub struct Address {
    pub bytes: [u8; 32],
}

impl View for Address {
    type V = Seq<u8>;

    open spec fn view(&self) -> Seq<u8> {
        self.bytes@
    }
}

/// `a` and `b` agree before position `k`, and there `a` holds the smaller byte.
pub open spec fn smaller_at(a: Seq<u8>, b: Seq<u8>, k: int) -> bool {
    &&& 0 <= k < a.len()
    &&& k < b.len()
    &&& a[k] < b[k]
    &&& forall|j: int| 0 <= j < k ==> a[j] == b[j]
}

impl Address {
    /// The lexicographic order on the raw bytes: `self` comes strictly before `other`.
    pub open spec fn precedes(self, other: Address) -> bool {
        exists|k: int| #[trigger] smaller_at(self@, other@, k)
    }

    /// Two addresses with the same bytes are the same address.
    pub proof fn lemma_view_injective(a: Address, b: Address)
        ensures
            (a@ == b@) <==> (a == b),
    {
        if a@ == b@ {
            assert(a.bytes@ =~= b.bytes@);
            assert(a.bytes == b.bytes);
        }
    }

    /// No address comes before itself.
    pub proof fn lemma_precedes_irreflexive(a: Address)
        ensures
            !a.precedes(a),
    {
    }

    /// Of two addresses at most one comes before the other.
    pub proof fn lemma_precedes_asymmetric(a: Address, b: Address)
        ensures
            !(a.precedes(b) && b.precedes(a)),
    {
        if a.precedes(b) && b.precedes(a) {
            let k1 = choose|k: int| #[trigger] smaller_at(a@, b@, k);
            let k2 = choose|k: int| #[trigger] smaller_at(b@, a@, k);
            if k1 < k2 {
                assert(b@[k1] == a@[k1]);
            } else if k2 < k1 {
                assert(a@[k2] == b@[k2]);
            }
        }
    }

    /// Two different addresses are ordered one way or the other.
    pub proof fn lemma_precedes_total(a: Address, b: Address)
        ensures
            a == b || a.precedes(b) || b.precedes(a),
    {
        if a != b {
            Self::lemma_view_injective(a, b);
            Self::lemma_first_difference(a@, b@, 0);
        }
    }

    proof fn lemma_first_difference(a: Seq<u8>, b: Seq<u8>, from: int)
        requires
            a.len() == 32,
            b.len() == 32,
            0 <= from <= 32,
            forall|j: int| 0 <= j < from ==> a[j] == b[j],
            a != b,
        ensures
            exists|k: int| #[trigger] smaller_at(a, b, k) || smaller_at(b, a, k),
        decreases 32 - from,
    {
        if from == 32 {
            assert(a =~= b);
        } else if a[from] < b[from] {
            assert(smaller_at(a, b, from));
        } else if b[from] < a[from] {
            assert(smaller_at(b, a, from));
        } else {
            Self::lemma_first_difference(a, b, from + 1);
        }
    }

    /// The address made of the given bytes.
    pub fn new(bytes: [u8; 32]) -> (r: Address)
        ensures
            r.bytes == bytes,
    {
        Address { bytes }
    }

    /// The address whose bytes are all zero, which stands for "none".
    pub fn zero() -> (r: Address)
        ensures
            r@ == Seq::new(32, |i: int| 0u8),
    {
        let r = Address { bytes: [0u8; 32] };
        assert(r@ =~= Seq::new(32, |i: int| 0u8));
        r
    }

    /// Whether the two addresses are the same.
    pub fn equals(&self, other: &Address) -> (r: bool)
        ensures
            r == (*self == *other),
    {
        let mut i: usize = 0;
        while i < 32
            invariant
                0 <= i <= 32,
                forall|j: int| 0 <= j < i ==> self@[j] == other@[j],
            decreases 32 - i,
        {
            if self.bytes[i] != other.bytes[i] {
                return false;
            }
            i += 1;
        }
        proof {
            assert(self@ =~= other@);
            Self::lemma_view_injective(*self, *other);
        }
        true
    }

    /// Whether `self` comes strictly before `other` in the order on raw bytes.
    pub fn less_than(&self, other: &Address) -> (r: bool)
        ensures
            r == self.precedes(*other),
    {
        let mut i: usize = 0;
        while i < 32
            invariant
                0 <= i <= 32,
                forall|j: int| 0 <= j < i ==> self@[j] == other@[j],
            decreases 32 - i,
        {
            if self.bytes[i] != other.bytes[i] {
                let less = self.bytes[i] < other.bytes[i];
                proof {
                    if less {
                        assert(smaller_at(self@, other@, i as int));
                    } else {
                        assert forall|k: int| !smaller_at(self@, other@, k) by {
                            if smaller_at(self@, other@, k) && k > i {
                                assert(self@[i as int] == other@[i as int]);
                            }
                        }
                    }
                }
                return less;
            }
            i += 1;
        }
        proof {
            assert(self@ =~= other@);
            Self::lemma_view_injective(*self, *other);
            Self::lemma_precedes_irreflexive(*self);
        }
        false
    }

    /// The bytes of the address, as seed material.
    pub fn to_vec(&self) -> (v: Vec<u8>)
        ensures
            v@ == self@,
    {
        let mut v: Vec<u8> = Vec::new();
        let mut i: usize = 0;
        while i < 32
            invariant
                0 <= i <= 32,
                v@.len() == i,
                forall|j: int| 0 <= j < i ==> v@[j] == self@[j],
            decreases 32 - i,
        {
            v.push(self.bytes[i]);
            i += 1;
        }
        assert(v@ =~= self@);
        v
    }
}

} // verus!
