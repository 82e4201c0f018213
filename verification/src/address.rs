//! Identities of accounts, mints and signers.

use vstd::prelude::*;
use vstd::std_specs::cmp::PartialEqSpecImpl;

verus! {

/// A 32-byte identity: a wallet, a mint, a program or any other account.
///
/// Two addresses are the same exactly when their bytes are.
#[derive(Clone, Copy, Debug)]
pub struct Address {
    pub bytes: [u8; 32],
}

impl View for Address {
    type V = Seq<u8>;

    open spec fn view(&self) -> Seq<u8> {
        self.bytes@
    }
}

impl Address {
    /// The address made of the given bytes.
    pub fn new(bytes: [u8; 32]) -> (r: Address)
        ensures
            r.bytes == bytes,
    {
        Address { bytes }
    }

    /// The bytes of this address.
    pub fn to_bytes(&self) -> (r: [u8; 32])
        ensures
            r == self.bytes,
    {
        self.bytes
    }

    /// Two addresses with the same view are the same address.
    pub proof fn lemma_view_injective(a: Address, b: Address)
        ensures
            (a@ == b@) <==> (a == b),
    {
        broadcast use vstd::array::group_array_axioms;

        if a@ == b@ {
            assert forall|i: int| 0 <= i < 32 implies a.bytes[i] == b.bytes[i] by {
                assert(a.bytes[i] == a@[i]);
                assert(b.bytes[i] == b@[i]);
            }
            assert(a.bytes =~= b.bytes);
        }
    }
}

/// The address whose bytes are the given 32 bytes.
pub open spec fn address_of(bytes: Seq<u8>) -> Address {
    Address { bytes: choose|array: [u8; 32]| array@ == bytes }
}

/// The address made of the bytes of an address is that address.
pub proof fn lemma_address_of_view(a: Address)
    ensures
        address_of(a@) == a,
{
    let chosen = address_of(a@);
    assert(a.bytes@ == a@);
    assert(chosen@ == a@);
    Address::lemma_view_injective(chosen, a);
}

impl PartialEq for Address {
    fn eq(&self, other: &Address) -> (r: bool) {
        let mut i: usize = 0;
        while i < 32
            invariant
                0 <= i <= 32,
                forall|j: int| 0 <= j < i ==> self.bytes[j] == other.bytes[j],
            decreases 32 - i,
        {
            if self.bytes[i] != other.bytes[i] {
                return false;
            }
            i += 1;
        }
        proof {
            broadcast use vstd::array::group_array_axioms;

            assert(self.bytes =~= other.bytes);
        }
        true
    }
}

impl PartialEqSpecImpl for Address {
    open spec fn obeys_eq_spec() -> bool {
        true
    }

    open spec fn eq_spec(&self, other: &Address) -> bool {
        *self == *other
    }
}

impl Eq for Address {

}

} // verus!
