use vstd::prelude::*;

verus! {

/// An opaque 32-byte account identity.
#[derive(Clone, Copy, Debug)]
pub struct AccountId(pub [u8; 32]);

/// The amount type of the staked asset.
pub type Balance = u128;

impl PartialEq for AccountId {
    fn eq(&self, o: &AccountId) -> (r: bool) {
        let mut i: usize = 0;
        while i < 32
            invariant
                i <= 32,
                self.0@.len() == 32,
                o.0@.len() == 32,
                forall|k: int| 0 <= k < i ==> self.0@[k] == o.0@[k],
            decreases 32 - i,
        {
            if self.0[i] != o.0[i] {
                return false;
            }
            i = i + 1;
        }
        proof {
            assert(self.0 =~= o.0);
        }
        true
    }
}

impl vstd::std_specs::cmp::PartialEqSpecImpl for AccountId {
    open spec fn obeys_eq_spec() -> bool {
        true
    }

    open spec fn eq_spec(&self, o: &AccountId) -> bool {
        *self == *o
    }
}

impl Eq for AccountId {
}

} // verus!
