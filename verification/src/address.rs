//! 20-byte account and contract addresses.
use vstd::prelude::*;
use crate::bytes::{clone_bytes, eq_bytes};

verus! {

/// A 20-byte address.
#[derive(Debug)]
pub struct Address {
    pub bytes: Vec<u8>,
}

/// The 20 zero bytes: the address that marks a contract creation.
pub open spec fn spec_zero_address() -> Seq<u8> {
    Seq::new(20, |i: int| 0u8)
}

impl View for Address {
    type V = Seq<u8>;

    open spec fn view(&self) -> Seq<u8> {
        self.bytes@
    }
}

impl Address {
    /// Whether this address holds exactly 20 bytes.
    pub open spec fn well_formed(&self) -> bool {
        self.bytes@.len() == 20
    }

    /// An address from its 20 bytes.
    pub fn from_bytes(bytes: Vec<u8>) -> (r: Address)
        requires
            bytes@.len() == 20,
        ensures
            r@ == bytes@,
            r.well_formed(),
    {
        Address { bytes }
    }

    /// The zero address.
    pub fn zero() -> (r: Address)
        ensures
            r@ == spec_zero_address(),
            r.well_formed(),
    {
        let bytes = crate::bytes::zero_bytes(20);
        Address { bytes }
    }

    /// Whether two addresses are the same.
    pub fn equals(&self, other: &Address) -> (r: bool)
        ensures
            r == (self@ == other@),
    {
        eq_bytes(&self.bytes, &other.bytes)
    }

    /// Whether this is the zero address.
    pub fn is_zero(&self) -> (r: bool)
        requires
            self.well_formed(),
        ensures
            r == (self@ == spec_zero_address()),
    {
        let mut i: usize = 0;
        while i < self.bytes.len()
            invariant
                self.bytes@.len() == 20,
                i <= 20,
                forall|j: int| 0 <= j < i ==> self.bytes@[j] == 0u8,
            decreases self.bytes@.len() - i,
        {
            if self.bytes[i] != 0 {
                proof {
                    assert(self@[i as int] != 0u8);
                    assert(self@ != spec_zero_address());
                }
                return false;
            }
            i = i + 1;
        }
        proof {
            assert(self@ =~= spec_zero_address());
        }
        true
    }

    /// A fresh address with the same bytes.
    pub fn duplicate(&self) -> (r: Address)
        ensures
            r@ == self@,
    {
        Address { bytes: clone_bytes(&self.bytes) }
    }
}

} // verus!
