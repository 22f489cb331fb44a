use vstd::prelude::*;

verus! {

broadcast use vstd::array::group_array_axioms;

/// The 32-byte public key of an account.
#[derive(Clone, Copy, Debug, PartialEq, Eq)]
pub struct Pubkey(pub [u8; 32]);

impl Pubkey {
    /// Whether two keys are the same key, byte for byte.
    pub fn es_igual(&self, otra: &Pubkey) -> (r: bool)
        ensures
            r == (*self == *otra),
    {
        let mut i: usize = 0;
        while i < 32
            invariant
                i <= 32,
                forall|j: int| 0 <= j < i ==> self.0[j] == otra.0[j],
            decreases 32 - i,
        {
            if self.0[i] != otra.0[i] {
                return false;
            }
            i = i + 1;
        }
        assert(self.0 =~= otra.0);
        true
    }
}

} // verus!
