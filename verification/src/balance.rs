//! The balance type with its bounds, identities, and the checked and
//! saturating arithmetic.

use crate::primitive;
use crate::primitive::{clamp, fits, power, product, quotient, SCALE};
use vstd::prelude::*;

verus! {

/// A non-negative fixed-point quantity, held as its scaled integer: the
/// value times [`SCALE`]. Every `u128` is the scaled integer of a balance,
/// and two balances are equal exactly when their scaled integers are.
#[derive(Debug, Clone, Copy, PartialEq, Eq, Structural, Ord, Hash)]
pub struct Balance(pub u128);

impl Balance {
    /// The smallest balance, as a specification.
    pub open spec fn spec_min_value() -> Balance {
        Balance(0)
    }

    /// The largest balance, as a specification.
    pub open spec fn spec_max_value() -> Balance {
        Balance(u128::MAX)
    }

    /// The balance zero, as a specification.
    pub open spec fn spec_zero() -> Balance {
        Balance(0)
    }

    /// The balance one, as a specification.
    pub open spec fn spec_one() -> Balance {
        Balance(SCALE)
    }

    /// The exact sum, where it is a balance.
    pub open spec fn spec_checked_add(&self, v: &Balance) -> Option<Balance> {
        if fits(self.0 + v.0) {
            Some(Balance((self.0 + v.0) as u128))
        } else {
            None
        }
    }

    /// The exact difference, where it is not negative.
    pub open spec fn spec_checked_sub(&self, v: &Balance) -> Option<Balance> {
        if self.0 >= v.0 {
            Some(Balance((self.0 - v.0) as u128))
        } else {
            None
        }
    }

    /// The product rounded towards zero, where it is a balance.
    pub open spec fn spec_checked_mul(&self, v: &Balance) -> Option<Balance> {
        if fits(product(self.0, v.0)) {
            Some(Balance(product(self.0, v.0) as u128))
        } else {
            None
        }
    }

    /// The quotient rounded towards zero, where the divisor is not zero and
    /// the quotient is a balance.
    pub open spec fn spec_checked_div(&self, v: &Balance) -> Option<Balance> {
        if v.0 != 0 && fits(quotient(self.0, v.0)) {
            Some(Balance(quotient(self.0, v.0) as u128))
        } else {
            None
        }
    }

    /// The sum, or the largest balance where the sum is beyond it.
    pub open spec fn spec_saturating_add(self, rhs: Balance) -> Balance {
        Balance(clamp(self.0 + rhs.0))
    }

    /// The difference, or zero where `rhs` exceeds `self`.
    pub open spec fn spec_saturating_sub(self, rhs: Balance) -> Balance {
        if self.0 >= rhs.0 {
            Balance((self.0 - rhs.0) as u128)
        } else {
            Balance(0)
        }
    }

    /// The product rounded towards zero, or the largest balance where the
    /// product is beyond it.
    pub open spec fn spec_saturating_mul(self, rhs: Balance) -> Balance {
        Balance(clamp(product(self.0, rhs.0)))
    }

    /// The power that the primitive computes by saturating multiplication.
    pub open spec fn spec_saturating_pow(self, exp: usize) -> Balance {
        Balance(power(self.0, exp))
    }

    /// The smallest balance: the primitive's lower bound.
    #[verifier::when_used_as_spec(spec_min_value)]
    pub fn min_value() -> (r: Balance)
        ensures
            r == Balance::spec_min_value(),
    {
        Balance(primitive::min_value())
    }

    /// The largest balance: the primitive's upper bound.
    #[verifier::when_used_as_spec(spec_max_value)]
    pub fn max_value() -> (r: Balance)
        ensures
            r == Balance::spec_max_value(),
    {
        Balance(primitive::max_value())
    }

    /// The additive identity.
    #[verifier::when_used_as_spec(spec_zero)]
    pub fn zero() -> (r: Balance)
        ensures
            r == Balance::spec_zero(),
    {
        Balance(primitive::zero())
    }

    /// Whether this balance is zero.
    pub fn is_zero(&self) -> (r: bool)
        ensures
            r == (*self == Balance::zero()),
    {
        primitive::is_zero(self.0)
    }

    /// The multiplicative identity.
    #[verifier::when_used_as_spec(spec_one)]
    pub fn one() -> (r: Balance)
        ensures
            r == Balance::spec_one(),
    {
        Balance(primitive::one())
    }

    /// Whether this balance is one.
    pub fn is_one(&self) -> (r: bool)
        ensures
            r == (*self == Balance::one()),
    {
        primitive::is_one(self.0)
    }

    /// The square root is not available for balances: always `None`.
    pub fn integer_sqrt_checked(&self) -> (r: Option<Balance>)
        ensures
            r is None,
    {
        None
    }

    /// The exact sum, or `None` where it is beyond the largest balance.
    #[verifier::when_used_as_spec(spec_checked_add)]
    pub fn checked_add(&self, v: &Balance) -> (r: Option<Balance>)
        ensures
            r == self.spec_checked_add(v),
    {
        match primitive::checked_add(self.0, v.0) {
            Some(inner) => Some(Balance(inner)),
            None => None,
        }
    }

    /// The exact difference, or `None` where `v` exceeds `self`.
    #[verifier::when_used_as_spec(spec_checked_sub)]
    pub fn checked_sub(&self, v: &Balance) -> (r: Option<Balance>)
        ensures
            r == self.spec_checked_sub(v),
    {
        match primitive::checked_sub(self.0, v.0) {
            Some(inner) => Some(Balance(inner)),
            None => None,
        }
    }

    /// The product rounded towards zero, or `None` where it is beyond the
    /// largest balance.
    #[verifier::when_used_as_spec(spec_checked_mul)]
    pub fn checked_mul(&self, v: &Balance) -> (r: Option<Balance>)
        ensures
            r == self.spec_checked_mul(v),
    {
        match primitive::checked_mul(self.0, v.0) {
            Some(inner) => Some(Balance(inner)),
            None => None,
        }
    }

    /// The quotient rounded towards zero, or `None` where `v` is zero or
    /// the quotient is beyond the largest balance.
    #[verifier::when_used_as_spec(spec_checked_div)]
    pub fn checked_div(&self, v: &Balance) -> (r: Option<Balance>)
        ensures
            r == self.spec_checked_div(v),
    {
        match primitive::checked_div(self.0, v.0) {
            Some(inner) => Some(Balance(inner)),
            None => None,
        }
    }

    /// There is no negative balance, and the negation of a balance is not
    /// offered for zero either: always `None`.
    pub fn checked_neg(&self) -> (r: Option<Balance>)
        ensures
            r is None,
    {
        None
    }

    /// Shifting a balance to the left has no meaning: always `None`.
    pub fn checked_shl(&self, rhs: u32) -> (r: Option<Balance>)
        ensures
            r is None,
    {
        None
    }

    /// Shifting a balance to the right has no meaning: always `None`.
    pub fn checked_shr(&self, rhs: u32) -> (r: Option<Balance>)
        ensures
            r is None,
    {
        None
    }

    /// The sum, clamped to the largest balance.
    #[verifier::when_used_as_spec(spec_saturating_add)]
    pub fn saturating_add(self, rhs: Balance) -> (r: Balance)
        ensures
            r == self.spec_saturating_add(rhs),
    {
        Balance(primitive::saturating_add(self.0, rhs.0))
    }

    /// The difference, clamped to zero.
    #[verifier::when_used_as_spec(spec_saturating_sub)]
    pub fn saturating_sub(self, rhs: Balance) -> (r: Balance)
        ensures
            r == self.spec_saturating_sub(rhs),
    {
        Balance(primitive::saturating_sub(self.0, rhs.0))
    }

    /// The product rounded towards zero, clamped to the largest balance.
    #[verifier::when_used_as_spec(spec_saturating_mul)]
    pub fn saturating_mul(self, rhs: Balance) -> (r: Balance)
        ensures
            r == self.spec_saturating_mul(rhs),
    {
        Balance(primitive::saturating_mul(self.0, rhs.0))
    }

    /// The power by saturating multiplication, as the primitive computes
    /// it: one for the exponent 0, the balance itself for 1, its saturating
    /// square for 2.
    #[verifier::when_used_as_spec(spec_saturating_pow)]
    pub fn saturating_pow(self, exp: usize) -> (r: Balance)
        ensures
            r == self.spec_saturating_pow(exp),
            exp == 0 ==> r == Balance::one(),
            exp == 1 ==> r == self,
            exp == 2 ==> r == self.saturating_mul(self),
    {
        Balance(primitive::saturating_pow(self.0, exp))
    }

    /// Reading a balance in a given radix is not offered: always an error.
    pub fn from_str_radix(text: &str, radix: u32) -> (r: Result<Balance, ()>)
        ensures
            r is Err,
    {
        Err(())
    }
}

impl Default for Balance {
    /// The default balance is zero.
    fn default() -> (r: Balance)
        ensures
            r == Balance::zero(),
    {
        Balance::zero()
    }
}

} // verus!
