//! What holds of balances whatever their values.

use crate::balance::Balance;
use crate::convert::ConvertError;
use crate::primitive::{product, quotient, scaled, SCALE};
use crate::wide::Uint256;
use vstd::prelude::*;
use vstd::std_specs::convert::{FromSpec, TryFromSpec};
use vstd::std_specs::ops::{AddSpec, DivSpec, MulSpec, RemSpec};

verus! {

/// Zero is the identity of addition: `zero() + x` may be computed for every
/// balance `x`, and is `x`, on either facade.
pub proof fn zero_is_additive_identity(x: Balance)
    ensures
        Balance::zero().add_req(x),
        Balance::zero().add_spec(x) == x,
        Balance::zero().checked_add(&x) == Some(x),
        Balance::zero().saturating_add(x) == x,
{
}

/// One is the identity of multiplication: `one() * x` may be computed for
/// every balance `x`, and is `x`, on either facade.
pub proof fn one_is_multiplicative_identity(x: Balance)
    ensures
        Balance::one().mul_req(x),
        Balance::one().mul_spec(x) == x,
        Balance::one().checked_mul(&x) == Some(x),
        Balance::one().saturating_mul(x) == x,
{
    assert(product(SCALE, x.0) == x.0);
}

/// Addition and multiplication do not depend on the order of their operands,
/// on either facade.
pub proof fn operands_commute(a: Balance, b: Balance)
    ensures
        a.checked_add(&b) == b.checked_add(&a),
        a.saturating_add(b) == b.saturating_add(a),
        a.checked_mul(&b) == b.checked_mul(&a),
        a.saturating_mul(b) == b.saturating_mul(a),
{
    assert(product(a.0, b.0) == product(b.0, a.0)) by (nonlinear_arith);
}

/// Subtraction undoes addition: where a sum is a balance, taking one
/// operand away from it leaves the other.
pub proof fn subtraction_undoes_addition(a: Balance, b: Balance)
    requires
        a.checked_add(&b) is Some,
    ensures
        a.checked_add(&b).unwrap().checked_sub(&b) == Some(a),
        a.checked_add(&b).unwrap().saturating_sub(b) == a,
{
}

/// Taking the largest balance away from any balance leaves zero on the
/// saturating facade.
pub proof fn saturating_sub_of_max_is_zero(a: Balance)
    ensures
        a.saturating_sub(Balance::max_value()) == Balance::zero(),
{
}

/// Wherever the checked operation has a result, the saturating one has the
/// same; wherever it has none, addition and multiplication give the largest
/// balance and subtraction gives zero.
pub proof fn saturating_follows_checked(a: Balance, b: Balance)
    ensures
        a.saturating_add(b) == match a.checked_add(&b) {
            Some(sum) => sum,
            None => Balance::max_value(),
        },
        a.saturating_sub(b) == match a.checked_sub(&b) {
            Some(difference) => difference,
            None => Balance::zero(),
        },
        a.saturating_mul(b) == match a.checked_mul(&b) {
            Some(product) => product,
            None => Balance::max_value(),
        },
{
    assert(product(a.0, b.0) >= 0) by (nonlinear_arith);
}

/// The remainder of a balance by itself is zero, and the quotient of a
/// balance other than zero by itself may be computed and is one.
pub proof fn self_division(a: Balance)
    ensures
        a.rem_spec(a) == Balance::zero(),
        a != Balance::zero() ==> a.div_req(a) && a.div_spec(a) == Balance::one(),
        a != Balance::zero() ==> a.checked_div(&a) == Some(Balance::one()),
{
    if a.0 != 0 {
        assert(quotient(a.0, a.0) == SCALE) by (nonlinear_arith)
            requires
                a.0 != 0,
        ;
    }
}

/// Decoding what a balance encodes as gives the balance back.
pub proof fn codec_round_trip(a: Balance)
    ensures
        Balance::decode_from(*a.encode_as()) == a,
{
}

/// A 256-bit number converts to a balance exactly when it is not beyond the
/// largest scaled integer, and then to the balance with that scaled
/// integer; the number 0 converts to zero.
pub proof fn wide_conversion(v: Uint256)
    ensures
        v.value() > Balance::max_value().0 <==> Balance::try_from_spec(v) == Err::<
            Balance,
            ConvertError,
        >(ConvertError::Overflow),
        v.value() <= Balance::max_value().0 ==> Balance::try_from_spec(v) == Ok::<
            Balance,
            ConvertError,
        >(Balance(v.value() as u128)),
        v.value() == 0 ==> Balance::try_from_spec(v) == Ok::<Balance, ConvertError>(
            Balance::zero(),
        ),
{
}

/// A signed change converts to a balance exactly when it is not negative,
/// and then to what its unsigned widening converts to.
pub proof fn signed_conversion(d: i128)
    ensures
        d < 0 <==> Balance::try_from_spec(d) is Err,
        d >= 0 ==> Balance::try_from_spec(d) == Ok::<Balance, ConvertError>(
            Balance::from_spec(d as u128),
        ),
{
}

/// A whole number of units that fits in 64 bits goes into a balance without
/// clamping and comes out of it unchanged.
pub proof fn units_round_trip(n: u64)
    ensures
        Balance::from_spec(n).0 == scaled(n as u128),
        u64::from_spec(Balance::from_spec(n)) == n,
        i128::from_spec(Balance::from_spec(n)) == n,
{
}

} // verus!
