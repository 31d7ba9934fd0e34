//! The arithmetic operators on balances.
//!
//! `+`, `-`, `*` and `/` forward to the primitive's operators, which have
//! no way to signal overflow: each states in its `*_req` on which operands
//! it may be used. `%` and the shifts have no arithmetic behind them.

use crate::balance::Balance;
use crate::primitive;
use crate::primitive::{fits, product, quotient};
use std::ops::{Add, AddAssign, Div, DivAssign, Mul, Rem, RemAssign, Shl, Shr, Sub, SubAssign};
use vstd::prelude::*;
use vstd::std_specs::ops::{AddSpec, DivSpec, RemSpec, SubSpec};

verus! {

impl Add for Balance {
    type Output = Balance;

    /// The exact sum; the sum must be a balance.
    fn add(self, rhs: Balance) -> (r: Balance) {
        Balance(primitive::plus(self.0, rhs.0))
    }
}

impl vstd::std_specs::ops::AddSpecImpl for Balance {
    open spec fn obeys_add_spec() -> bool {
        true
    }

    open spec fn add_req(self, rhs: Balance) -> bool {
        fits(self.0 + rhs.0)
    }

    open spec fn add_spec(self, rhs: Balance) -> Balance {
        Balance((self.0 + rhs.0) as u128)
    }
}

impl Sub for Balance {
    type Output = Balance;

    /// The exact difference; `rhs` must not exceed `self`.
    fn sub(self, rhs: Balance) -> (r: Balance) {
        Balance(primitive::minus(self.0, rhs.0))
    }
}

impl vstd::std_specs::ops::SubSpecImpl for Balance {
    open spec fn obeys_sub_spec() -> bool {
        true
    }

    open spec fn sub_req(self, rhs: Balance) -> bool {
        self.0 >= rhs.0
    }

    open spec fn sub_spec(self, rhs: Balance) -> Balance {
        Balance((self.0 - rhs.0) as u128)
    }
}

impl Mul for Balance {
    type Output = Balance;

    /// The product rounded towards zero; it must be a balance.
    fn mul(self, rhs: Balance) -> (r: Balance) {
        Balance(primitive::times(self.0, rhs.0))
    }
}

impl vstd::std_specs::ops::MulSpecImpl for Balance {
    open spec fn obeys_mul_spec() -> bool {
        true
    }

    open spec fn mul_req(self, rhs: Balance) -> bool {
        fits(product(self.0, rhs.0))
    }

    open spec fn mul_spec(self, rhs: Balance) -> Balance {
        Balance(product(self.0, rhs.0) as u128)
    }
}

impl Div for Balance {
    type Output = Balance;

    /// The quotient rounded towards zero; `rhs` must not be zero and the
    /// quotient must be a balance.
    fn div(self, rhs: Balance) -> (r: Balance) {
        Balance(primitive::over(self.0, rhs.0))
    }
}

impl vstd::std_specs::ops::DivSpecImpl for Balance {
    open spec fn obeys_div_spec() -> bool {
        true
    }

    open spec fn div_req(self, rhs: Balance) -> bool {
        rhs.0 != 0 && fits(quotient(self.0, rhs.0))
    }

    open spec fn div_spec(self, rhs: Balance) -> Balance {
        Balance(quotient(self.0, rhs.0) as u128)
    }
}

impl Rem for Balance {
    type Output = Balance;

    /// Division of balances leaves no remainder: always zero.
    fn rem(self, rhs: Balance) -> (r: Balance) {
        Balance::zero()
    }
}

impl vstd::std_specs::ops::RemSpecImpl for Balance {
    open spec fn obeys_rem_spec() -> bool {
        true
    }

    open spec fn rem_req(self, rhs: Balance) -> bool {
        true
    }

    open spec fn rem_spec(self, rhs: Balance) -> Balance {
        Balance::zero()
    }
}

impl Shl<u32> for Balance {
    type Output = Balance;

    /// A shift has no meaning for a balance: the balance is returned as it
    /// is, whatever `rhs`.
    fn shl(self, rhs: u32) -> (r: Balance) {
        self
    }
}

impl vstd::std_specs::ops::ShlSpecImpl<u32> for Balance {
    open spec fn obeys_shl_spec() -> bool {
        true
    }

    open spec fn shl_req(self, rhs: u32) -> bool {
        true
    }

    open spec fn shl_spec(self, rhs: u32) -> Balance {
        self
    }
}

impl Shr<u32> for Balance {
    type Output = Balance;

    /// A shift has no meaning for a balance: the balance is returned as it
    /// is, whatever `rhs`.
    fn shr(self, rhs: u32) -> (r: Balance) {
        self
    }
}

impl vstd::std_specs::ops::ShrSpecImpl<u32> for Balance {
    open spec fn obeys_shr_spec() -> bool {
        true
    }

    open spec fn shr_req(self, rhs: u32) -> bool {
        true
    }

    open spec fn shr_spec(self, rhs: u32) -> Balance {
        self
    }
}

impl AddAssign for Balance {
    /// Replaces the balance by the exact sum; the sum must be a balance.
    fn add_assign(&mut self, rhs: Balance)
        requires
            old(self).add_req(rhs),
        ensures
            *final(self) == old(self).add_spec(rhs),
    {
        *self = *self + rhs;
    }
}

impl SubAssign for Balance {
    /// Replaces the balance by the exact difference; `rhs` must not exceed
    /// it.
    fn sub_assign(&mut self, rhs: Balance)
        requires
            old(self).sub_req(rhs),
        ensures
            *final(self) == old(self).sub_spec(rhs),
    {
        *self = *self - rhs;
    }
}

impl DivAssign for Balance {
    /// Replaces the balance by the quotient rounded towards zero; `rhs`
    /// must not be zero and the quotient must be a balance.
    fn div_assign(&mut self, rhs: Balance)
        requires
            old(self).div_req(rhs),
        ensures
            *final(self) == old(self).div_spec(rhs),
    {
        *self = *self / rhs;
    }
}

impl RemAssign for Balance {
    /// Replaces the balance by the remainder, which is zero.
    fn rem_assign(&mut self, rhs: Balance)
        ensures
            *final(self) == old(self).rem_spec(rhs),
    {
        *self = *self % rhs;
    }
}

} // verus!
