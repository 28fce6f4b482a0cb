//! Identities of principals and of ledger accounts.

use vstd::prelude::*;

verus! {

/// The 32-byte identity of a principal or of an account on the ledger.
///
/// Two keys name the same identity exactly when all 32 bytes agree; `==`
/// on keys is verified to compute that.
#[derive(Clone, Copy, Debug, Eq)]
pub struct AccountKey {
    pub bytes: [u8; 32],
}

impl AccountKey {
    /// The key made of the given bytes.
    pub fn new(bytes: [u8; 32]) -> (key: AccountKey)
        ensures
            key.bytes == bytes,
    {
        AccountKey { bytes }
    }

    /// The bytes of the key, as the ledger writes it.
    pub fn to_bytes(&self) -> (bytes: [u8; 32])
        ensures
            bytes == self.bytes,
    {
        self.bytes
    }
}

impl PartialEq for AccountKey {
    fn eq(&self, other: &AccountKey) -> (equal: bool) {
        let mut i: usize = 0;
        while i < 32
            invariant
                i <= 32,
                forall|j: int| 0 <= j < i ==> self.bytes[j] == other.bytes[j],
            decreases 32 - i,
        {
            if self.bytes[i] != other.bytes[i] {
                return false;
            }
            i += 1;
        }
        assert(self.bytes =~= other.bytes);
        true
    }
}

impl vstd::std_specs::cmp::PartialEqSpecImpl for AccountKey {
    open spec fn obeys_eq_spec() -> bool {
        true
    }

    open spec fn eq_spec(&self, other: &AccountKey) -> bool {
        *self == *other
    }
}

} // verus!
