//! Validator identities: 32-byte account addresses.

use vstd::prelude::*;

verus! {

/// The number of bytes in an address.
pub const ADDRESS_LENGTH: usize = 32;

/// The address of an account; validators and peers are named by it.
#[derive(Clone, Copy, Debug, Eq, PartialOrd, Ord, Hash)]
pub struct AccountAddress {
    bytes: [u8; 32],
}

/// The author of a consensus message.
pub type Author = AccountAddress;

/// The identity of a peer on the network.
pub type PeerId = AccountAddress;

impl View for AccountAddress {
    type V = Seq<u8>;

    closed spec fn view(&self) -> Seq<u8> {
        self.bytes@
    }
}

/// Whether `a` and `b` hold the same bytes at every position before `i`.
pub open spec fn agree_before(a: Seq<u8>, b: Seq<u8>, i: int) -> bool {
    forall|j: int| 0 <= j < i ==> a[j] == b[j]
}

/// Whether `i` is the first position at which `a` and `b` differ, with the
/// smaller byte in `a`.
pub open spec fn below_at(a: Seq<u8>, b: Seq<u8>, i: int) -> bool {
    0 <= i < a.len() && i < b.len() && a[i] < b[i] && agree_before(a, b, i)
}

/// Lexicographic order on byte strings: `a` is below `b` when, at the first
/// position where they differ, `a` holds the smaller byte.
pub open spec fn bytes_lt(a: Seq<u8>, b: Seq<u8>) -> bool {
    exists|i: int| below_at(a, b, i)
}

impl PartialEq for AccountAddress {
    fn eq(&self, other: &Self) -> (r: bool) {
        let mut i: usize = 0;
        while i < 32
            invariant
                i <= 32,
                forall|j: int| 0 <= j < i ==> self.bytes@[j] == other.bytes@[j],
            decreases 32 - i,
        {
            if self.bytes[i] != other.bytes[i] {
                return false;
            }
            i += 1;
        }
        proof {
            assert(self.bytes@ =~= other.bytes@);
            vstd::array::axiom_array_ext_equal(self.bytes, other.bytes);
        }
        true
    }
}

impl vstd::std_specs::cmp::PartialEqSpecImpl for AccountAddress {
    open spec fn obeys_eq_spec() -> bool {
        true
    }

    open spec fn eq_spec(&self, other: &Self) -> bool {
        *self == *other
    }
}

impl AccountAddress {
    /// The address made of the given bytes.
    pub fn new(bytes: [u8; 32]) -> (a: Self)
        ensures
            a@ == bytes@,
    {
        AccountAddress { bytes }
    }

    /// The bytes of the address, most significant first.
    pub fn to_vec(&self) -> (v: Vec<u8>)
        ensures
            v@ == self@,
    {
        let mut v: Vec<u8> = Vec::new();
        let mut i: usize = 0;
        while i < 32
            invariant
                i <= 32,
                v@ == self.bytes@.subrange(0, i as int),
            decreases 32 - i,
        {
            v.push(self.bytes[i]);
            i += 1;
        }
        assert(self.bytes@.subrange(0, 32) =~= self.bytes@);
        v
    }

    /// The first byte of the address.
    pub fn first_byte(&self) -> (b: u8)
        ensures
            b == self@[0],
    {
        self.bytes[0]
    }

    /// Whether `self` is strictly below `other` in the lexicographic order of
    /// their bytes.
    pub fn is_below(&self, other: &AccountAddress) -> (b: bool)
        ensures
            b == bytes_lt(self@, other@),
    {
        let mut i: usize = 0;
        while i < 32
            invariant
                i <= 32,
                agree_before(self.bytes@, other.bytes@, i as int),
            decreases 32 - i,
        {
            if self.bytes[i] < other.bytes[i] {
                assert(below_at(self@, other@, i as int));
                return true;
            }
            if self.bytes[i] > other.bytes[i] {
                proof {
                    lemma_first_difference_decides(other@, self@, i as int);
                }
                return false;
            }
            i += 1;
        }
        proof {
            assert(self.bytes@ =~= other.bytes@);
            lemma_bytes_lt_irreflexive(self@);
        }
        false
    }
}

/// Every address has exactly `ADDRESS_LENGTH` bytes, and two addresses are
/// equal exactly when their bytes are.
pub proof fn lemma_address_is_its_bytes(a: AccountAddress, b: AccountAddress)
    ensures
        a@.len() == ADDRESS_LENGTH,
        (a@ == b@) <==> (a == b),
{
    vstd::array::array_len_matches_n(&a.bytes);
    if a@ == b@ {
        vstd::array::axiom_array_ext_equal(a.bytes, b.bytes);
    }
}

/// No byte string is below itself.
pub proof fn lemma_bytes_lt_irreflexive(a: Seq<u8>)
    ensures
        !bytes_lt(a, a),
{
}

/// If `a` and `b` agree before position `i` and `a` holds the smaller byte
/// there, then `a` is below `b` and `b` is not below `a`.
pub proof fn lemma_first_difference_decides(a: Seq<u8>, b: Seq<u8>, i: int)
    requires
        below_at(a, b, i),
    ensures
        bytes_lt(a, b),
        !bytes_lt(b, a),
{
    if bytes_lt(b, a) {
        let k = choose|k: int| below_at(b, a, k);
        assert(k == i || k < i || i < k);
    }
}

/// The lexicographic order is transitive.
pub proof fn lemma_bytes_lt_transitive(a: Seq<u8>, b: Seq<u8>, c: Seq<u8>)
    requires
        bytes_lt(a, b),
        bytes_lt(b, c),
    ensures
        bytes_lt(a, c),
{
    let i = choose|i: int| below_at(a, b, i);
    let k = choose|k: int| below_at(b, c, k);
    let m = if i <= k { i } else { k };
    assert(below_at(a, c, m));
}

/// Two byte strings of one length are equal, or one of them is below the other.
pub proof fn lemma_bytes_lt_total(a: Seq<u8>, b: Seq<u8>)
    requires
        a.len() == b.len(),
    ensures
        a == b || bytes_lt(a, b) || bytes_lt(b, a),
{
    lemma_total_from(a, b, 0);
}

proof fn lemma_total_from(a: Seq<u8>, b: Seq<u8>, k: int)
    requires
        a.len() == b.len(),
        0 <= k <= a.len(),
        agree_before(a, b, k),
    ensures
        a == b || bytes_lt(a, b) || bytes_lt(b, a),
    decreases a.len() - k,
{
    if k == a.len() {
        assert(a =~= b);
    } else if a[k] < b[k] {
        assert(below_at(a, b, k));
    } else if b[k] < a[k] {
        assert(below_at(b, a, k));
    } else {
        lemma_total_from(a, b, k + 1);
    }
}

} // verus!
