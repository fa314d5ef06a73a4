//! Identities of accounts, assets and signers.

use vstd::prelude::*;

verus! {

/// A 32-byte identity of an account, an asset or a signer.
#[derive(Clone, Copy, Debug, PartialEq, Eq)]
pub struct Identity {
    pub bytes: [u8; 32],
}

impl Identity {
    /// Whether two identities are the same, byte for byte.
    pub fn same(&self, other: &Identity) -> (r: bool)
        ensures
            r == (*self == *other),
    {
        let mut i: usize = 0;
        while i < 32
            invariant
                i <= 32,
                forall|j: int| 0 <= j < i ==> self.bytes[j] == other.bytes[j],
            decreases 32 - i,
        {
            if self.bytes[i] != other.bytes[i] {
                return false;
            }
            i += 1;
        }
        assert(self.bytes =~= other.bytes);
        true
    }
}

/// Whether an optional identity is present and equal to `expected`.
pub fn is_some_and_same(candidate: &Option<Identity>, expected: &Identity) -> (r: bool)
    ensures
        r == (*candidate == Some(*expected)),
{
    match candidate {
        Some(found) => found.same(expected),
        None => false,
    }
}

} // verus!
