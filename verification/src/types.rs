//! Identifiers shared by every part of the node.

use vstd::prelude::*;

verus! {

/// A round of the consensus protocol.
pub type Round = u64;

/// A span of time, in nanoseconds.
pub type Nanos = u128;

/// Whether two 32-byte strings are the same.
pub fn same_bytes(a: &[u8; 32], b: &[u8; 32]) -> (same: bool)
    ensures
        same == (*a == *b),
{
    let mut i: usize = 0;
    while i < 32
        invariant
            i <= 32,
            forall|j: int| 0 <= j < i ==> a[j] == b[j],
        decreases 32 - i,
    {
        if a[i] != b[i] {
            return false;
        }
        i += 1;
    }
    assert(*a =~= *b);
    true
}

/// A 256-bit cryptographic hash.
#[derive(Debug, Clone, Copy, Eq, Hash)]
pub struct HashValue(pub [u8; 32]);

impl PartialEq for HashValue {
    fn eq(&self, other: &HashValue) -> (same: bool) {
        same_bytes(&self.0, &other.0)
    }
}

impl vstd::std_specs::cmp::PartialEqSpecImpl for HashValue {
    open spec fn obeys_eq_spec() -> bool {
        true
    }

    open spec fn eq_spec(&self, other: &HashValue) -> bool {
        *self == *other
    }
}

impl HashValue {
    /// Whether every byte of the hash is zero.
    pub open spec fn is_zero_spec(self) -> bool {
        self.0@ == Seq::new(32, |i: int| 0u8)
    }

    /// The hash whose bytes are all zero.
    pub fn zero() -> (hash: HashValue)
        ensures
            hash.is_zero_spec(),
    {
        let hash = HashValue([0u8; 32]);
        assert(hash.0@ =~= Seq::new(32, |i: int| 0u8));
        hash
    }

    /// Whether every byte of the hash is zero.
    pub fn is_zero(&self) -> (zero: bool)
        ensures
            zero == self.is_zero_spec(),
    {
        let zero = HashValue::zero();
        assert(self.0@ == zero.0@ ==> self.0 == zero.0);
        *self == zero
    }
}

/// A hash is the zero hash exactly where each of its bytes is zero; so there is one zero hash.
pub proof fn zero_hashes_have_only_zero_bytes(hash: HashValue, other: HashValue)
    ensures
        hash.is_zero_spec() <==> forall|i: int| 0 <= i < 32 ==> #[trigger] hash.0@[i] == 0,
        hash.is_zero_spec() && other.is_zero_spec() ==> hash.0@ == other.0@,
{
    let zeros = Seq::new(32, |i: int| 0u8);
    if forall|i: int| 0 <= i < 32 ==> #[trigger] hash.0@[i] == 0 {
        assert(hash.0@ =~= zeros);
    }
    if hash.is_zero_spec() {
        assert forall|i: int| 0 <= i < 32 implies #[trigger] hash.0@[i] == 0 by {
            assert(zeros[i] == 0);
        }
    }
}

/// The identifier of a block, as the execution layer knows it.
#[derive(Debug, Clone, Copy, Eq, Hash)]
pub struct BlockId(pub [u8; 32]);

impl PartialEq for BlockId {
    fn eq(&self, other: &BlockId) -> (same: bool) {
        same_bytes(&self.0, &other.0)
    }
}

impl vstd::std_specs::cmp::PartialEqSpecImpl for BlockId {
    open spec fn obeys_eq_spec() -> bool {
        true
    }

    open spec fn eq_spec(&self, other: &BlockId) -> bool {
        *self == *other
    }
}

/// The address of an account, and so of a validator or of a network peer.
#[derive(Debug, Clone, Copy, Eq, Hash)]
pub struct AccountAddress(pub [u8; 32]);

impl PartialEq for AccountAddress {
    fn eq(&self, other: &AccountAddress) -> (same: bool) {
        same_bytes(&self.0, &other.0)
    }
}

impl vstd::std_specs::cmp::PartialEqSpecImpl for AccountAddress {
    open spec fn obeys_eq_spec() -> bool {
        true
    }

    open spec fn eq_spec(&self, other: &AccountAddress) -> bool {
        *self == *other
    }
}

/// The address of the account that authored a consensus message.
pub type Author = AccountAddress;

} // verus!
