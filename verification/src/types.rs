use vstd::prelude::*;

verus! {

/// Amount of tokens.
pub type Balance = u128;

/// Milliseconds since the epoch, as reported by the chain.
pub type Timestamp = u64;

/// A 32-byte account address.
#[derive(Clone, Copy, Debug, PartialEq, Eq, Hash)]
pub struct AccountId(pub [u8; 32]);

impl AccountId {
    /// Address equality, byte by byte.
    pub fn same(&self, other: &AccountId) -> (r: bool)
        ensures
            r == (*self == *other),
    {
        let mut i: usize = 0;
        while i < 32
            invariant
                i <= 32,
                forall|j: int| 0 <= j < i ==> self.0[j] == other.0[j],
            decreases 32 - i,
        {
            if self.0[i] != other.0[i] {
                proof {
                    assert(self.0[i as int] != other.0[i as int]);
                }
                return false;
            }
            i = i + 1;
        }
        proof {
            assert(self.0 =~= other.0);
        }
        true
    }
}

} // verus!
