//! Identities: makers, takers, assets, accounts and records are all named by
//! 32-byte addresses.

use vstd::prelude::*;

verus! {

/// A 32-byte identity.
#[derive(Clone, Copy, Debug, Eq)]
pub struct Address {
    pub bytes: [u8; 32],
}

impl PartialEq for Address {
    /// Two addresses are equal when their bytes are.
    fn eq(&self, other: &Address) -> (r: bool) {
        let mut i: usize = 0;
        while i < 32
            invariant
                i <= 32,
                forall|j: int| 0 <= j < i ==> self.bytes[j] == other.bytes[j],
            decreases 32 - i,
        {
            if self.bytes[i] != other.bytes[i] {
                return false;
            }
            i = i + 1;
        }
        assert(self.bytes =~= other.bytes);
        true
    }
}

impl vstd::std_specs::cmp::PartialEqSpecImpl for Address {
    open spec fn obeys_eq_spec() -> bool {
        true
    }

    open spec fn eq_spec(&self, other: &Address) -> bool {
        *self == *other
    }
}

impl Address {
    /// The address made of the given bytes.
    pub fn new(bytes: [u8; 32]) -> (a: Address)
        ensures
            a.bytes == bytes,
    {
        Address { bytes }
    }

    /// The bytes of the address, as a sequence of length 32.
    pub open spec fn seq(self) -> Seq<u8> {
        self.bytes@
    }

    /// The bytes of the address in a fresh vector.
    pub fn to_vec(&self) -> (v: Vec<u8>)
        ensures
            v@ == self.seq(),
    {
        let mut v: Vec<u8> = Vec::new();
        let mut i: usize = 0;
        while i < 32
            invariant
                i <= 32,
                v@ == self.bytes@.subrange(0, i as int),
            decreases 32 - i,
        {
            v.push(self.bytes[i]);
            i = i + 1;
        }
        v
    }
}

/// Addresses with the same bytes are the same address.
pub proof fn lemma_address_by_bytes(a: Address, b: Address)
    requires
        a.seq() == b.seq(),
    ensures
        a == b,
{
    assert(forall|i: int| 0 <= i < 32 ==> a.bytes[i] == a.seq()[i]);
    assert(forall|i: int| 0 <= i < 32 ==> b.bytes[i] == b.seq()[i]);
    assert(a.bytes =~= b.bytes);
}

/// The address whose bytes are `s`, for a sequence of length 32.
pub open spec fn address_of(s: Seq<u8>) -> Address {
    choose|a: Address| a.seq() == s
}

/// Reading an address back from its bytes gives the address.
pub proof fn lemma_address_of_seq(a: Address)
    ensures
        address_of(a.seq()) == a,
{
    lemma_address_by_bytes(address_of(a.seq()), a);
}

} // verus!
