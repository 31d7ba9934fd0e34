//! The boundary to the 256-bit unsigned integer, `sp_core::U256`.

use sp_core::U256;
use vstd::prelude::*;

verus! {

/// A 256-bit unsigned integer, given by its four 64-bit words, the least
/// significant first: the words of `sp_core::U256`.
#[derive(Debug, Clone, Copy)]
pub struct Uint256(pub [u64; 4]);

impl Uint256 {
    /// The number that the words stand for.
    pub open spec fn value(self) -> nat {
        (self.0[0] as nat) + (self.0[1] as nat) * 0x1_0000_0000_0000_0000
            + (self.0[2] as nat) * 0x1_0000_0000_0000_0000_0000_0000_0000_0000
            + (self.0[3] as nat) * 0x1_0000_0000_0000_0000_0000_0000_0000_0000_0000_0000_0000_0000
    }

    /// The number that the two low words stand for.
    pub open spec fn low(self) -> nat {
        (self.0[0] as nat) + (self.0[1] as nat) * 0x1_0000_0000_0000_0000
    }
}

/// The operator `>` of `U256` against a bound widened by its `From<u128>`:
/// whether the number exceeds the bound. `U256` compares its words from the
/// most significant down, which is the order of the numbers.
#[verifier::external_body]
pub(crate) fn exceeds(v: Uint256, bound: u128) -> (r: bool)
    ensures
        r == (v.value() > bound),
{
    U256(v.0) > U256::from(bound)
}

/// `U256::low_u128`: the number that the two low words stand for.
#[verifier::external_body]
pub(crate) fn low_u128(v: Uint256) -> (r: u128)
    ensures
        r == v.low(),
{
    U256(v.0).low_u128()
}

} // verus!
