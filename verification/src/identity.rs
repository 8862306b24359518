//! Account addresses and transaction hashes, held as plain bytes.

use vstd::prelude::*;

verus! {

/// A 20-byte account or contract identifier.
#[derive(Clone, Copy, Debug, PartialEq, Eq)]
pub struct Address {
    /// The identifier's bytes, most significant first.
    pub bytes: [u8; 20],
}

/// A 32-byte transaction hash.
#[derive(Clone, Copy, Debug, PartialEq, Eq)]
pub struct TxHash {
    /// The hash's bytes.
    pub bytes: [u8; 32],
}

impl View for Address {
    type V = Seq<u8>;

    open spec fn view(&self) -> Seq<u8> {
        self.bytes@
    }
}

impl View for TxHash {
    type V = Seq<u8>;

    open spec fn view(&self) -> Seq<u8> {
        self.bytes@
    }
}

impl Address {
    /// The address with the given bytes.
    pub fn new(bytes: [u8; 20]) -> (address: Address)
        ensures
            address@ == bytes@,
            address@.len() == 20,
    {
        Address { bytes }
    }

    /// Whether the two addresses hold the same bytes.
    pub fn same_as(&self, other: &Address) -> (same: bool)
        ensures
            same == (self@ == other@),
    {
        let mut i: usize = 0;
        while i < 20
            invariant
                i <= 20,
                forall|k: int| 0 <= k < i ==> self.bytes@[k] == other.bytes@[k],
            decreases 20 - i,
        {
            if self.bytes[i] != other.bytes[i] {
                return false;
            }
            i += 1;
        }
        assert(self.bytes@ =~= other.bytes@);
        true
    }
}

impl TxHash {
    /// The hash with the given bytes.
    pub fn new(bytes: [u8; 32]) -> (hash: TxHash)
        ensures
            hash@ == bytes@,
            hash@.len() == 32,
    {
        TxHash { bytes }
    }
}

} // verus!
