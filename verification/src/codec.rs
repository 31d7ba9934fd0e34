//! The hooks for compact encoding: a balance is written as its scaled
//! integer and read back from one.

use crate::balance::Balance;
use vstd::prelude::*;

verus! {

impl Balance {
    /// The scaled integer that stands for this balance on the wire, as a
    /// specification.
    pub open spec fn spec_encode_as(&self) -> &u128 {
        &self.0
    }

    /// The balance that a scaled integer from the wire stands for, as a
    /// specification.
    pub open spec fn spec_decode_from(v: u128) -> Balance {
        Balance(v)
    }

    /// A view of the scaled integer, which is what gets encoded.
    #[verifier::when_used_as_spec(spec_encode_as)]
    pub fn encode_as(&self) -> (r: &u128)
        ensures
            r == self.spec_encode_as(),
    {
        &self.0
    }

    /// The balance with the given scaled integer. Every scaled integer is
    /// taken: nothing is checked and nothing can fail.
    #[verifier::when_used_as_spec(spec_decode_from)]
    pub fn decode_from(v: u128) -> (r: Balance)
        ensures
            r == Balance::spec_decode_from(v),
    {
        Balance(v)
    }
}

} // verus!
