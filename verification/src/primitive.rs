//! The boundary to the fixed-point primitive, `sp_arithmetic::FixedU128`.
//!
//! A fixed-point number is handled here by its scaled integer: the value
//! times [`SCALE`], held in a `u128`. Every function of this module hands
//! its arguments to the primitive and gives back the primitive's answer;
//! the contracts say what the primitive computes and are taken on trust.

use sp_arithmetic::traits::{
    Bounded, CheckedAdd, CheckedDiv, CheckedMul, CheckedSub, One, Saturating, Zero,
};
use sp_arithmetic::{FixedPointNumber, FixedU128};
use std::str::FromStr;
use vstd::prelude::*;

verus! {

/// The scaled integer of the value one: `FixedU128` keeps 18 decimal places.
pub const SCALE: u128 = 1_000_000_000_000_000_000;

/// Whether `v` can be the scaled integer of a fixed-point number.
pub open spec fn fits(v: int) -> bool {
    0 <= v <= u128::MAX
}

/// `v` where it fits, else the largest scaled integer. Meant for `v >= 0`.
pub open spec fn clamp(v: int) -> u128 {
    if v > u128::MAX {
        u128::MAX
    } else {
        v as u128
    }
}

/// The scaled integer of the product of two fixed-point numbers, rounded
/// towards zero.
pub open spec fn product(a: u128, b: u128) -> int {
    (a as int * b as int) / (SCALE as int)
}

/// The scaled integer of the quotient of two fixed-point numbers, rounded
/// towards zero. Meant for `b != 0`.
pub open spec fn quotient(a: u128, b: u128) -> int {
    (a as int * SCALE as int) / (b as int)
}

/// The scaled integer of a whole number of units.
pub open spec fn scaled(n: u128) -> int {
    n as int * SCALE as int
}

/// What `FixedU128::saturating_pow` returns for a base and an exponent, as
/// scaled integers.
pub uninterp spec fn power(base: u128, exp: usize) -> u128;

/// What `FixedU128::from_str` reads from a text: the scaled integer, or
/// `None` where the primitive's parser rejects the text.
pub uninterp spec fn parsed(text: Seq<char>) -> Option<u128>;

/// What std's `char::is_whitespace` returns for a character: whether it
/// has the Unicode property White_Space, by which `str::trim` trims.
pub uninterp spec fn white_space(c: char) -> bool;

/// The largest fraction, taken as a whole number, that the primitive's
/// parser can scale: it multiplies that number by `SCALE` without a check,
/// and this is the largest whose product still fits in a `u128`.
pub const FRACTION_LIMIT: u128 = 340_282_366_920_938_463_463;

/// Whether `at` is the place of the first decimal point of a text.
pub open spec fn is_first_point(text: Seq<char>, at: int) -> bool {
    &&& 0 <= at < text.len()
    &&& text[at] == '.'
    &&& forall|j: int| 0 <= j < at ==> text[j] != '.'
}

/// Whether a character is one of the decimal digits `0` to `9`.
pub open spec fn is_digit(c: char) -> bool {
    '0' <= c <= '9'
}

/// The number that a run of decimal digits stands for; 0 for the empty run.
pub open spec fn number(digits: Seq<char>) -> nat
    decreases digits.len(),
{
    if digits.len() == 0 {
        0
    } else {
        number(digits.drop_last()) * 10 + (digits.last() as nat - '0' as nat) as nat
    }
}

/// Where the digits of a fraction begin: behind the decimal point at `at`
/// and behind a `+` that directly follows it.
pub open spec fn fraction_start(text: Seq<char>, at: int) -> int {
    if at + 1 < text.len() && text[at + 1] == '+' {
        at + 2
    } else {
        at + 1
    }
}

/// Whether the text from `start` on is a run of digits up to `end` that
/// stands for more than `FRACTION_LIMIT`, followed by nothing but white
/// space: the trailing white space is what the primitive's parser trims.
pub open spec fn is_overflowing_run(text: Seq<char>, start: int, end: int) -> bool {
    &&& 0 <= start < end <= text.len()
    &&& forall|j: int| start <= j < end ==> is_digit(text[j])
    &&& end < text.len() ==> !is_digit(text[end])
    &&& forall|j: int| end <= j < text.len() ==> white_space(text[j])
    &&& number(text.subrange(start, end)) > FRACTION_LIMIT
}

/// Whether the fraction of a text is one that the primitive's parser would
/// scale beyond a `u128`: what follows the first decimal point is, after an
/// optional `+` and before trailing white space, a run of digits that
/// stands for more than `FRACTION_LIMIT`. A text without a decimal point
/// has no fraction.
pub open spec fn fraction_overflows(text: Seq<char>) -> bool {
    exists|at: int, end: int|
        is_first_point(text, at) && is_overflowing_run(text, fraction_start(text, at), end)
}

/// The character of a decimal digit. Meant for `d < 10`.
pub open spec fn digit(d: nat) -> char {
    if d == 0 {
        '0'
    } else if d == 1 {
        '1'
    } else if d == 2 {
        '2'
    } else if d == 3 {
        '3'
    } else if d == 4 {
        '4'
    } else if d == 5 {
        '5'
    } else if d == 6 {
        '6'
    } else if d == 7 {
        '7'
    } else if d == 8 {
        '8'
    } else {
        '9'
    }
}

/// A number in decimal digits, the most significant first, without leading
/// zeros; the single digit `0` for zero.
pub open spec fn decimal(n: nat) -> Seq<char>
    decreases n,
{
    if n < 10 {
        seq![digit(n)]
    } else {
        decimal(n / 10).push(digit(n % 10))
    }
}

/// `Bounded::min_value` of `FixedU128`: the scaled integer 0.
#[verifier::external_body]
pub(crate) fn min_value() -> (r: u128)
    ensures
        r == 0,
{
    FixedU128::min_value().into_inner()
}

/// `Bounded::max_value` of `FixedU128`: the largest `u128`.
#[verifier::external_body]
pub(crate) fn max_value() -> (r: u128)
    ensures
        r == u128::MAX,
{
    FixedU128::max_value().into_inner()
}

/// `Zero::zero` of `FixedU128`: the scaled integer 0.
#[verifier::external_body]
pub(crate) fn zero() -> (r: u128)
    ensures
        r == 0,
{
    FixedU128::zero().into_inner()
}

/// `Zero::is_zero` of `FixedU128`: whether the scaled integer is 0.
#[verifier::external_body]
pub(crate) fn is_zero(a: u128) -> (r: bool)
    ensures
        r == (a == 0),
{
    FixedU128::from_inner(a).is_zero()
}

/// `One::one` of `FixedU128`: the scaled integer `SCALE`.
#[verifier::external_body]
pub(crate) fn one() -> (r: u128)
    ensures
        r == SCALE,
{
    FixedU128::one().into_inner()
}

/// `One::is_one` of `FixedU128`: whether the number equals `One::one()`.
#[verifier::external_body]
pub(crate) fn is_one(a: u128) -> (r: bool)
    ensures
        r == (a == SCALE),
{
    One::is_one(&FixedU128::from_inner(a))
}

/// `CheckedAdd::checked_add` of `FixedU128`: the sum of the scaled
/// integers, `None` where it does not fit.
#[verifier::external_body]
pub(crate) fn checked_add(a: u128, b: u128) -> (r: Option<u128>)
    ensures
        r == (if fits(a + b) { Some((a + b) as u128) } else { None }),
{
    FixedU128::from_inner(a).checked_add(&FixedU128::from_inner(b)).map(|f| f.into_inner())
}

/// `CheckedSub::checked_sub` of `FixedU128`: the difference of the scaled
/// integers, `None` where it would be negative.
#[verifier::external_body]
pub(crate) fn checked_sub(a: u128, b: u128) -> (r: Option<u128>)
    ensures
        r == (if fits(a - b) { Some((a - b) as u128) } else { None }),
{
    FixedU128::from_inner(a).checked_sub(&FixedU128::from_inner(b)).map(|f| f.into_inner())
}

/// `CheckedMul::checked_mul` of `FixedU128`: the product rounded towards
/// zero, `None` where it does not fit.
#[verifier::external_body]
pub(crate) fn checked_mul(a: u128, b: u128) -> (r: Option<u128>)
    ensures
        r == (if fits(product(a, b)) { Some(product(a, b) as u128) } else { None }),
{
    FixedU128::from_inner(a).checked_mul(&FixedU128::from_inner(b)).map(|f| f.into_inner())
}

/// `CheckedDiv::checked_div` of `FixedU128`: the quotient rounded towards
/// zero, `None` where the divisor is zero or the quotient does not fit.
#[verifier::external_body]
pub(crate) fn checked_div(a: u128, b: u128) -> (r: Option<u128>)
    ensures
        r == (if b != 0 && fits(quotient(a, b)) { Some(quotient(a, b) as u128) } else { None }),
{
    FixedU128::from_inner(a).checked_div(&FixedU128::from_inner(b)).map(|f| f.into_inner())
}

/// `Saturating::saturating_add` of `FixedU128`: the sum, or the maximum
/// where the sum does not fit.
#[verifier::external_body]
pub(crate) fn saturating_add(a: u128, b: u128) -> (r: u128)
    ensures
        r == clamp(a + b),
{
    FixedU128::from_inner(a).saturating_add(FixedU128::from_inner(b)).into_inner()
}

/// `Saturating::saturating_sub` of `FixedU128`: the difference, or zero
/// where the difference would be negative.
#[verifier::external_body]
pub(crate) fn saturating_sub(a: u128, b: u128) -> (r: u128)
    ensures
        r == (if a >= b { (a - b) as u128 } else { 0 }),
{
    FixedU128::from_inner(a).saturating_sub(FixedU128::from_inner(b)).into_inner()
}

/// `Saturating::saturating_mul` of `FixedU128`: the product rounded towards
/// zero, or the maximum where the product does not fit.
#[verifier::external_body]
pub(crate) fn saturating_mul(a: u128, b: u128) -> (r: u128)
    ensures
        r == clamp(product(a, b)),
{
    FixedU128::from_inner(a).saturating_mul(FixedU128::from_inner(b)).into_inner()
}

/// `Saturating::saturating_pow` of `FixedU128`. The result is a function
/// of base and exponent alone and is only named here, but for the three
/// smallest exponents: for 0 the primitive returns one, for 1 it multiplies
/// one by the base, and for 2 it multiplies one by the saturating square of
/// the base.
#[verifier::external_body]
pub(crate) fn saturating_pow(a: u128, exp: usize) -> (r: u128)
    ensures
        r == power(a, exp),
        exp == 0 ==> r == SCALE,
        exp == 1 ==> r == a,
        exp == 2 ==> r == clamp(product(a, a)),
{
    FixedU128::from_inner(a).saturating_pow(exp).into_inner()
}

/// The operator `+` of `FixedU128`: the sum of the scaled integers. The
/// primitive adds without a check, so the sum must fit.
#[verifier::external_body]
pub(crate) fn plus(a: u128, b: u128) -> (r: u128)
    requires
        fits(a + b),
    ensures
        r == a + b,
{
    (FixedU128::from_inner(a) + FixedU128::from_inner(b)).into_inner()
}

/// The operator `-` of `FixedU128`: the difference of the scaled integers.
/// The primitive subtracts without a check, so `b` must not exceed `a`.
#[verifier::external_body]
pub(crate) fn minus(a: u128, b: u128) -> (r: u128)
    requires
        fits(a - b),
    ensures
        r == a - b,
{
    (FixedU128::from_inner(a) - FixedU128::from_inner(b)).into_inner()
}

/// The operator `*` of `FixedU128`: the product rounded towards zero. The
/// primitive panics where the product does not fit.
#[verifier::external_body]
pub(crate) fn times(a: u128, b: u128) -> (r: u128)
    requires
        fits(product(a, b)),
    ensures
        r == product(a, b),
{
    (FixedU128::from_inner(a) * FixedU128::from_inner(b)).into_inner()
}

/// The operator `/` of `FixedU128`: the quotient rounded towards zero. The
/// primitive panics on a zero divisor and where the quotient does not fit.
#[verifier::external_body]
pub(crate) fn over(a: u128, b: u128) -> (r: u128)
    requires
        b != 0,
        fits(quotient(a, b)),
    ensures
        r == quotient(a, b),
{
    (FixedU128::from_inner(a) / FixedU128::from_inner(b)).into_inner()
}

/// `From<u128>` of `FixedU128`: the whole number `n` scaled up, or the
/// maximum where that does not fit.
#[verifier::external_body]
pub(crate) fn from_integer(n: u128) -> (r: u128)
    ensures
        r == clamp(scaled(n)),
{
    FixedU128::from(n).into_inner()
}

/// `FixedPointNumber::saturating_mul_int` of `FixedU128` with a `u128`
/// factor: the number times `n` as a whole number, rounded towards zero,
/// or the largest `u128` where that does not fit.
#[verifier::external_body]
pub(crate) fn saturating_mul_int(a: u128, n: u128) -> (r: u128)
    ensures
        r == clamp((a as int * n as int) / (SCALE as int)),
{
    FixedU128::from_inner(a).saturating_mul_int(n)
}

/// `FromStr::from_str` of `FixedU128`, the error dropped. The result is a
/// function of the text alone and is only named here. The primitive trims
/// the text and, where the fraction behind the first decimal point reads
/// as a `u128`, multiplies that number by `SCALE` without a check; a text
/// on which the product would not fit must not be handed in.
#[verifier::external_body]
pub(crate) fn parse(text: &str) -> (r: Option<u128>)
    requires
        !fraction_overflows(text@),
    ensures
        r == parsed(text@),
{
    FixedU128::from_str(text).ok().map(|f| f.into_inner())
}

/// `ToString::to_string` of `FixedU128`, which goes through its `Display`:
/// the scaled integer as std writes a `u128`, in decimal digits. The
/// primitive's parser reads a text without a decimal point as a scaled
/// integer, so it reads back what was written.
#[verifier::external_body]
pub(crate) fn render(a: u128) -> (r: String)
    ensures
        r@ == decimal(a as nat),
        parsed(r@) == Some(a),
{
    FixedU128::from_inner(a).to_string()
}

/// std's `char::is_whitespace`. The result is only named here.
#[verifier::external_body]
pub(crate) fn is_whitespace(c: char) -> (r: bool)
    ensures
        r == white_space(c),
{
    c.is_whitespace()
}

} // verus!
