//! Account identifiers: opaque 20-byte keys.

use vstd::prelude::*;

verus! {

/// A 20-byte account identifier. Any value is a legal key, the all-zero one
/// included.
#[derive(Clone, Copy, Debug, PartialEq, Eq)]
pub struct AccountId {
    pub bytes: [u8; 20],
}

impl View for AccountId {
    type V = Seq<u8>;

    open spec fn view(&self) -> Seq<u8> {
        self.bytes@
    }
}

/// The all-zero identifier.
pub open spec fn zero_id() -> AccountId {
    AccountId { bytes: vstd::array::spec_array_fill_for_copy_type::<u8, 20>(0u8) }
}

impl AccountId {
    /// Whether this is the distinguished all-zero identifier.
    pub open spec fn is_zero(&self) -> bool {
        forall|i: int| 0 <= i < 20 ==> #[trigger] self@[i] == 0
    }

    /// The identifier with the given bytes.
    pub fn new(bytes: [u8; 20]) -> (r: AccountId)
        ensures
            r@ == bytes@,
    {
        AccountId { bytes }
    }

    /// The all-zero identifier, the counterparty of mints and burns.
    pub fn zero() -> (r: AccountId)
        ensures
            r == zero_id(),
            r.is_zero(),
    {
        AccountId { bytes: [0u8; 20] }
    }

    /// The bytes of this identifier.
    pub fn as_bytes(&self) -> (r: [u8; 20])
        ensures
            r@ == self@,
    {
        self.bytes
    }

    /// Whether the two identifiers are the same key.
    pub fn same(&self, other: &AccountId) -> (r: bool)
        ensures
            r == (self@ == other@),
    {
        let mut i: usize = 0;
        while i < 20
            invariant
                0 <= i <= 20,
                self@.len() == 20,
                other@.len() == 20,
                forall|j: int| 0 <= j < i ==> self@[j] == other@[j],
            decreases 20 - i,
        {
            if self.bytes[i] != other.bytes[i] {
                return false;
            }
            i = i + 1;
        }
        proof {
            assert(self@ =~= other@);
        }
        true
    }
}

} // verus!
