//! Account addresses: fixed-width 32-byte values.

use vstd::prelude::*;

use crate::managed_buffer::{copy_bytes, slice_bytes_eq};

verus! {

/// The width of every address, in bytes.
pub const ADDRESS_LEN: usize = 32;

/// The all-zero address.
pub open spec fn zero_address_bytes() -> Seq<u8> {
    Seq::new(32, |i: int| 0u8)
}

/// A 32-byte account address.
pub struct ManagedAddress {
    bytes: Vec<u8>,
}

impl View for ManagedAddress {
    type V = Seq<u8>;

    closed spec fn view(&self) -> Seq<u8> {
        self.bytes@
    }
}

impl ManagedAddress {
    /// Every address is exactly 32 bytes wide.
    #[verifier::type_invariant]
    closed spec fn inv(&self) -> bool {
        self.bytes@.len() == 32
    }

    /// The all-zero address.
    pub fn zero() -> (r: Self)
        ensures
            r@ == zero_address_bytes(),
    {
        let mut bytes: Vec<u8> = Vec::new();
        let mut i: usize = 0;
        while i < 32
            invariant
                i <= 32,
            bytes@ =~= Seq::new(i as nat, |j: int| 0u8),
            decreases 32 - i,
        {
            bytes.push(0);
            proof {
                assert(bytes@ =~= Seq::new((i + 1) as nat, |j: int| 0u8));
            }
            i = i + 1;
        }
        let r = ManagedAddress { bytes };
        proof {
            assert(r@ =~= zero_address_bytes());
        }
        r
    }

    /// An address from its 32 bytes.
    pub fn new_from_bytes(bytes: &[u8]) -> (r: Self)
        requires
            bytes@.len() == 32,
        ensures
            r@ == bytes@,
    {
        ManagedAddress { bytes: vstd::slice::slice_to_vec(bytes) }
    }

    /// A fresh copy of the 32 address bytes.
    pub fn to_bytes(&self) -> (r: Vec<u8>)
        ensures
            r@ == self@,
    {
        copy_bytes(&self.bytes)
    }

    pub fn len(&self) -> (r: usize)
        ensures
            r == self@.len(),
    {
        proof {
            use_type_invariant(self);
        }
        self.bytes.len()
    }

    /// Whether the two addresses are the same account.
    pub fn eq_address(&self, other: &ManagedAddress) -> (r: bool)
        ensures
            r == (self@ == other@),
    {
        slice_bytes_eq(self.bytes.as_slice(), other.bytes.as_slice())
    }
}

impl Clone for ManagedAddress {
    fn clone(&self) -> (r: Self)
        ensures
            r@ == self@,
    {
        proof {
            use_type_invariant(self);
        }
        ManagedAddress { bytes: copy_bytes(&self.bytes) }
    }
}

} // verus!
