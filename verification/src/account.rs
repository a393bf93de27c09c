use vstd::prelude::*;
use vstd::std_specs::convert::FromSpec;

verus! {

/// A quantity of the ledger's unit of value.
pub type Balance = u128;

/// An opaque identity that can hold a balance: a fixed-size token of 32 bytes.
#[derive(Clone, Copy, Debug, PartialEq, Eq, PartialOrd, Ord, Hash)]
pub struct AccountId {
    bytes: [u8; 32],
}

impl View for AccountId {
    type V = Seq<u8>;

    /// The 32 bytes of the identity.
    closed spec fn view(&self) -> Seq<u8> {
        self.bytes@
    }
}

impl AccountId {
    /// The bytes of the identity.
    pub fn to_bytes(&self) -> (bytes: [u8; 32])
        ensures
            bytes@ == self@,
    {
        self.bytes
    }

    /// Whether the two identities are the same.
    pub fn same_as(&self, other: &AccountId) -> (same: bool)
        ensures
            same == (self@ == other@),
    {
        let mut i: usize = 0;
        while i < 32
            invariant
                i <= 32,
                forall|j: int| 0 <= j < i ==> self.bytes@[j] == other.bytes@[j],
            decreases 32 - i,
        {
            if self.bytes[i] != other.bytes[i] {
                return false;
            }
            i += 1;
        }
        assert(self.bytes@ =~= other.bytes@);
        true
    }
}

impl From<[u8; 32]> for AccountId {
    /// The identity made of the given bytes.
    fn from(bytes: [u8; 32]) -> (account: AccountId) {
        AccountId { bytes }
    }
}

impl vstd::std_specs::convert::FromSpecImpl<[u8; 32]> for AccountId {
    open spec fn obeys_from_spec() -> bool {
        true
    }

    closed spec fn from_spec(bytes: [u8; 32]) -> AccountId {
        AccountId { bytes }
    }
}

/// An identity holds exactly 32 bytes, and those it was made of.
pub proof fn lemma_account_bytes(bytes: [u8; 32])
    ensures
        AccountId::from_spec(bytes)@ == bytes@,
        bytes@.len() == 32,
{
}

} // verus!
