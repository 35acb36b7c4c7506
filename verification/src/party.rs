//! Party identities.

use vstd::prelude::*;

verus! {

/// The identity of a party to an escrow, as the bytes by which the host
/// names it.
#[derive(Debug, PartialEq, Eq)]
pub struct PartyId {
    bytes: Vec<u8>,
}

impl View for PartyId {
    type V = Seq<u8>;

    closed spec fn view(&self) -> Seq<u8> {
        self.bytes@
    }
}

impl PartyId {
    /// The identity named by `bytes`.
    pub fn new(bytes: Vec<u8>) -> (id: PartyId)
        ensures
            id@ == bytes@,
    {
        PartyId { bytes }
    }

    /// The bytes of the identity.
    pub fn as_bytes(&self) -> (bytes: &Vec<u8>)
        ensures
            bytes@ == self@,
    {
        &self.bytes
    }

    /// Whether the identity names nobody.
    pub fn is_empty(&self) -> (empty: bool)
        ensures
            empty == (self@.len() == 0),
    {
        self.bytes.len() == 0
    }

    /// Whether two identities name the same party.
    pub fn same_as(&self, other: &PartyId) -> (same: bool)
        ensures
            same == (self@ == other@),
    {
        if self.bytes.len() != other.bytes.len() {
            return false;
        }
        let mut i: usize = 0;
        while i < self.bytes.len()
            invariant
                i <= self.bytes.len(),
                self.bytes.len() == other.bytes.len(),
                forall|k: int| 0 <= k < i ==> self.bytes@[k] == other.bytes@[k],
            decreases self.bytes.len() - i,
        {
            if self.bytes[i] != other.bytes[i] {
                return false;
            }
            i += 1;
        }
        assert(self.bytes@ =~= other.bytes@);
        true
    }
}

impl Clone for PartyId {
    fn clone(&self) -> (copy: PartyId)
        ensures
            copy@ == self@,
    {
        let bytes: Vec<u8> = self.bytes.clone();
        assert(bytes@ =~= self.bytes@);
        PartyId { bytes }
    }
}

} // verus!
