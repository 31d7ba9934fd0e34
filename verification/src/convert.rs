//! Checked and clamping conversions between balances and the numbers of the
//! surrounding system.

use crate::balance::Balance;
use crate::primitive;
use crate::primitive::{clamp, scaled, SCALE};
use crate::wide;
use crate::wide::Uint256;
use vstd::prelude::*;

verus! {

/// Why a value could not be taken as a balance.
#[derive(Debug, Eq, PartialEq, Structural)]
pub enum ConvertError {
    /// The value is beyond the largest balance.
    Overflow,
    /// The value cannot be a balance at all.
    Invalid,
}

impl Balance {
    /// The balance of `n` whole units, or the largest balance where that
    /// many units are beyond it.
    pub open spec fn of_units(n: u128) -> Balance {
        Balance(clamp(scaled(n)))
    }

    /// The whole units in this balance, the fraction dropped.
    pub open spec fn units(self) -> u128 {
        self.0 / SCALE
    }
}

impl From<u128> for Balance {
    /// The balance of `v` whole units, clamped to the largest balance.
    fn from(v: u128) -> (r: Balance) {
        Balance(primitive::from_integer(v))
    }
}

impl vstd::std_specs::convert::FromSpecImpl<u128> for Balance {
    open spec fn obeys_from_spec() -> bool {
        true
    }

    open spec fn from_spec(v: u128) -> Balance {
        Balance::of_units(v)
    }
}

impl From<Balance> for u128 {
    /// The whole units in the balance.
    fn from(b: Balance) -> (r: u128) {
        primitive::saturating_mul_int(b.0, 1)
    }
}

impl vstd::std_specs::convert::FromSpecImpl<Balance> for u128 {
    open spec fn obeys_from_spec() -> bool {
        true
    }

    open spec fn from_spec(b: Balance) -> u128 {
        b.units()
    }
}

impl From<u8> for Balance {
    /// The balance of `v` whole units.
    fn from(v: u8) -> (r: Balance) {
        Balance::from(v as u128)
    }
}

impl vstd::std_specs::convert::FromSpecImpl<u8> for Balance {
    open spec fn obeys_from_spec() -> bool {
        true
    }

    open spec fn from_spec(v: u8) -> Balance {
        Balance::of_units(v as u128)
    }
}

impl From<Balance> for u8 {
    /// The whole units in the balance, clamped to the largest `u8`.
    fn from(b: Balance) -> (r: u8) {
        let units: u128 = u128::from(b);
        if units > u8::MAX as u128 {
            u8::MAX
        } else {
            units as u8
        }
    }
}

impl vstd::std_specs::convert::FromSpecImpl<Balance> for u8 {
    open spec fn obeys_from_spec() -> bool {
        true
    }

    open spec fn from_spec(b: Balance) -> u8 {
        if b.units() > u8::MAX {
            u8::MAX
        } else {
            b.units() as u8
        }
    }
}

impl From<u16> for Balance {
    /// The balance of `v` whole units.
    fn from(v: u16) -> (r: Balance) {
        Balance::from(v as u128)
    }
}

impl vstd::std_specs::convert::FromSpecImpl<u16> for Balance {
    open spec fn obeys_from_spec() -> bool {
        true
    }

    open spec fn from_spec(v: u16) -> Balance {
        Balance::of_units(v as u128)
    }
}

impl From<Balance> for u16 {
    /// The whole units in the balance, clamped to the largest `u16`.
    fn from(b: Balance) -> (r: u16) {
        let units: u128 = u128::from(b);
        if units > u16::MAX as u128 {
            u16::MAX
        } else {
            units as u16
        }
    }
}

impl vstd::std_specs::convert::FromSpecImpl<Balance> for u16 {
    open spec fn obeys_from_spec() -> bool {
        true
    }

    open spec fn from_spec(b: Balance) -> u16 {
        if b.units() > u16::MAX {
            u16::MAX
        } else {
            b.units() as u16
        }
    }
}

impl From<u32> for Balance {
    /// The balance of `v` whole units.
    fn from(v: u32) -> (r: Balance) {
        Balance::from(v as u128)
    }
}

impl vstd::std_specs::convert::FromSpecImpl<u32> for Balance {
    open spec fn obeys_from_spec() -> bool {
        true
    }

    open spec fn from_spec(v: u32) -> Balance {
        Balance::of_units(v as u128)
    }
}

impl From<Balance> for u32 {
    /// The whole units in the balance, clamped to the largest `u32`.
    fn from(b: Balance) -> (r: u32) {
        let units: u128 = u128::from(b);
        if units > u32::MAX as u128 {
            u32::MAX
        } else {
            units as u32
        }
    }
}

impl vstd::std_specs::convert::FromSpecImpl<Balance> for u32 {
    open spec fn obeys_from_spec() -> bool {
        true
    }

    open spec fn from_spec(b: Balance) -> u32 {
        if b.units() > u32::MAX {
            u32::MAX
        } else {
            b.units() as u32
        }
    }
}

impl From<u64> for Balance {
    /// The balance of `v` whole units.
    fn from(v: u64) -> (r: Balance) {
        Balance::from(v as u128)
    }
}

impl vstd::std_specs::convert::FromSpecImpl<u64> for Balance {
    open spec fn obeys_from_spec() -> bool {
        true
    }

    open spec fn from_spec(v: u64) -> Balance {
        Balance::of_units(v as u128)
    }
}

impl From<Balance> for u64 {
    /// The whole units in the balance, clamped to the largest `u64`.
    fn from(b: Balance) -> (r: u64) {
        let units: u128 = u128::from(b);
        if units > u64::MAX as u128 {
            u64::MAX
        } else {
            units as u64
        }
    }
}

impl vstd::std_specs::convert::FromSpecImpl<Balance> for u64 {
    open spec fn obeys_from_spec() -> bool {
        true
    }

    open spec fn from_spec(b: Balance) -> u64 {
        if b.units() > u64::MAX {
            u64::MAX
        } else {
            b.units() as u64
        }
    }
}

impl From<usize> for Balance {
    /// The balance of `v` whole units.
    fn from(v: usize) -> (r: Balance) {
        Balance::from(v as u128)
    }
}

impl vstd::std_specs::convert::FromSpecImpl<usize> for Balance {
    open spec fn obeys_from_spec() -> bool {
        true
    }

    open spec fn from_spec(v: usize) -> Balance {
        Balance::of_units(v as u128)
    }
}

impl From<Balance> for usize {
    /// The whole units in the balance, clamped to the largest `usize`.
    fn from(b: Balance) -> (r: usize) {
        let units: u128 = u128::from(b);
        if units > usize::MAX as u128 {
            usize::MAX
        } else {
            units as usize
        }
    }
}

impl vstd::std_specs::convert::FromSpecImpl<Balance> for usize {
    open spec fn obeys_from_spec() -> bool {
        true
    }

    open spec fn from_spec(b: Balance) -> usize {
        if b.units() > usize::MAX {
            usize::MAX
        } else {
            b.units() as usize
        }
    }
}

impl From<Balance> for i128 {
    /// The whole units in the balance as a signed change, clamped to the
    /// largest `u64`.
    fn from(b: Balance) -> (r: i128) {
        u64::from(b) as i128
    }
}

impl vstd::std_specs::convert::FromSpecImpl<Balance> for i128 {
    open spec fn obeys_from_spec() -> bool {
        true
    }

    open spec fn from_spec(b: Balance) -> i128 {
        if b.units() > u64::MAX {
            u64::MAX as i128
        } else {
            b.units() as i128
        }
    }
}

impl TryFrom<Uint256> for Balance {
    type Error = ConvertError;

    /// Takes a 256-bit number as the scaled integer of a balance, where it
    /// is not beyond the largest one.
    fn try_from(value: Uint256) -> (r: Result<Balance, ConvertError>) {
        if wide::exceeds(value, primitive::max_value()) {
            Err(ConvertError::Overflow)
        } else {
            Ok(Balance(wide::low_u128(value)))
        }
    }
}

impl vstd::std_specs::convert::TryFromSpecImpl<Uint256> for Balance {
    open spec fn obeys_try_from_spec() -> bool {
        true
    }

    open spec fn try_from_spec(value: Uint256) -> Result<Balance, ConvertError> {
        if value.value() > u128::MAX {
            Err(ConvertError::Overflow)
        } else {
            Ok(Balance(value.value() as u128))
        }
    }
}

impl TryFrom<i128> for Balance {
    type Error = ConvertError;

    /// Takes a signed change as a balance of that many whole units, where
    /// it is not negative.
    fn try_from(value: i128) -> (r: Result<Balance, ConvertError>) {
        if value < 0 {
            Err(ConvertError::Invalid)
        } else {
            Ok(Balance::from(value as u128))
        }
    }
}

impl vstd::std_specs::convert::TryFromSpecImpl<i128> for Balance {
    open spec fn obeys_try_from_spec() -> bool {
        true
    }

    open spec fn try_from_spec(value: i128) -> Result<Balance, ConvertError> {
        if value < 0 {
            Err(ConvertError::Invalid)
        } else {
            Ok(Balance::of_units(value as u128))
        }
    }
}

} // verus!
