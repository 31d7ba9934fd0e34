use balance::primitive::SCALE;
use balance::Balance;
use sp_arithmetic::traits::{Bounded, One, Saturating, Zero};
use sp_arithmetic::{FixedPointNumber, FixedU128};
use std::cmp::Ordering;

fn units(n: u128) -> Balance {
    Balance(n * SCALE)
}

#[test]
fn scale_is_the_primitive_accuracy() {
    assert_eq!(SCALE, 1_000_000_000_000_000_000);
    assert_eq!(SCALE, FixedU128::accuracy());
}

#[test]
fn bounds_are_the_primitive_bounds() {
    assert_eq!(Balance::min_value(), Balance(0));
    assert_eq!(Balance::max_value(), Balance(u128::MAX));
    assert_eq!(Balance::min_value().0, FixedU128::min_value().into_inner());
    assert_eq!(Balance::max_value().0, FixedU128::max_value().into_inner());
}

#[test]
fn zero_and_one_are_the_primitive_identities() {
    assert_eq!(Balance::zero(), Balance(0));
    assert_eq!(Balance::one(), Balance(1_000_000_000_000_000_000));
    assert_eq!(Balance::zero().0, FixedU128::zero().into_inner());
    assert_eq!(Balance::one().0, FixedU128::one().into_inner());
}

#[test]
fn default_is_zero() {
    assert_eq!(Balance::default(), Balance::zero());
}

#[test]
fn is_zero_only_for_zero() {
    assert!(Balance::zero().is_zero());
    assert!(Balance(0).is_zero());
    assert!(!Balance(1).is_zero());
    assert!(!Balance::one().is_zero());
    assert!(!Balance::max_value().is_zero());
}

#[test]
fn is_one_only_for_one() {
    assert!(Balance::one().is_one());
    assert!(!Balance(1).is_one());
    assert!(!Balance::zero().is_one());
    assert!(!Balance(SCALE + 1).is_one());
    assert!(!units(2).is_one());
}

#[test]
fn integer_sqrt_is_not_available() {
    assert_eq!(Balance::zero().integer_sqrt_checked(), None);
    assert_eq!(units(4).integer_sqrt_checked(), None);
    assert_eq!(Balance::max_value().integer_sqrt_checked(), None);
}

#[test]
fn checked_add_gives_exact_sum() {
    assert_eq!(Balance::one().checked_add(&Balance::one()), Some(units(2)));
    assert_eq!(Balance(3).checked_add(&Balance(4)), Some(Balance(7)));
    assert_eq!(
        Balance(u128::MAX - 1).checked_add(&Balance(1)),
        Some(Balance::max_value())
    );
}

#[test]
fn checked_add_is_none_beyond_max() {
    assert_eq!(Balance::max_value().checked_add(&Balance(1)), None);
    assert_eq!(Balance::max_value().checked_add(&Balance::max_value()), None);
    assert_eq!(Balance(u128::MAX - 1).checked_add(&Balance(2)), None);
}

#[test]
fn checked_sub_gives_exact_difference() {
    assert_eq!(units(5).checked_sub(&units(3)), Some(units(2)));
    assert_eq!(Balance(7).checked_sub(&Balance(7)), Some(Balance::zero()));
}

#[test]
fn checked_sub_is_none_below_zero() {
    assert_eq!(Balance::zero().checked_sub(&Balance(1)), None);
    assert_eq!(units(3).checked_sub(&units(5)), None);
}

#[test]
fn checked_mul_rounds_towards_zero() {
    let one_and_a_half = Balance(1_500_000_000_000_000_000);
    assert_eq!(
        one_and_a_half.checked_mul(&one_and_a_half),
        Some(Balance(2_250_000_000_000_000_000))
    );
    assert_eq!(units(6).checked_mul(&units(7)), Some(units(42)));
    assert_eq!(Balance(1).checked_mul(&Balance(1)), Some(Balance(0)));
    assert_eq!(
        Balance(1_999_999_999).checked_mul(&Balance(1_000_000_000)),
        Some(Balance(1))
    );
    assert_eq!(Balance(3).checked_mul(&Balance(SCALE / 2)), Some(Balance(1)));
}

#[test]
fn checked_mul_is_none_beyond_max() {
    assert_eq!(Balance::max_value().checked_mul(&units(2)), None);
    assert_eq!(Balance::max_value().checked_mul(&Balance(SCALE + 1)), None);
    assert_eq!(
        Balance::max_value().checked_mul(&Balance::one()),
        Some(Balance::max_value())
    );
}

#[test]
fn checked_div_rounds_towards_zero() {
    assert_eq!(
        units(6).checked_div(&units(4)),
        Some(Balance(1_500_000_000_000_000_000))
    );
    assert_eq!(
        units(1).checked_div(&units(3)),
        Some(Balance(333_333_333_333_333_333))
    );
    assert_eq!(
        units(2).checked_div(&units(3)),
        Some(Balance(666_666_666_666_666_666))
    );
    assert_eq!(Balance::zero().checked_div(&units(3)), Some(Balance::zero()));
}

#[test]
fn checked_div_is_none_by_zero_or_beyond_max() {
    assert_eq!(units(1).checked_div(&Balance::zero()), None);
    assert_eq!(Balance::zero().checked_div(&Balance::zero()), None);
    assert_eq!(Balance::max_value().checked_div(&Balance(1)), None);
    assert_eq!(Balance::max_value().checked_div(&Balance(SCALE - 1)), None);
    assert_eq!(
        Balance::max_value().checked_div(&Balance::one()),
        Some(Balance::max_value())
    );
}

#[test]
fn checked_neg_is_always_none() {
    assert_eq!(Balance::zero().checked_neg(), None);
    assert_eq!(Balance::one().checked_neg(), None);
    assert_eq!(Balance(1).checked_neg(), None);
    assert_eq!(Balance::max_value().checked_neg(), None);
}

#[test]
fn checked_shifts_are_always_none() {
    assert_eq!(Balance::one().checked_shl(0), None);
    assert_eq!(Balance::one().checked_shl(1), None);
    assert_eq!(Balance::zero().checked_shl(200), None);
    assert_eq!(Balance::one().checked_shr(0), None);
    assert_eq!(Balance::one().checked_shr(1), None);
    assert_eq!(Balance::max_value().checked_shr(127), None);
}

#[test]
fn saturating_add_of_one_to_max_is_max() {
    assert_eq!(
        Balance::max_value().saturating_add(Balance::one()),
        Balance::max_value()
    );
}

#[test]
fn saturating_add_is_exact_within_range() {
    assert_eq!(units(2).saturating_add(units(3)), units(5));
    assert_eq!(
        Balance(u128::MAX - 5).saturating_add(Balance(5)),
        Balance::max_value()
    );
    assert_eq!(
        Balance(u128::MAX - 5).saturating_add(Balance(6)),
        Balance::max_value()
    );
}

#[test]
fn saturating_sub_of_one_from_zero_is_zero() {
    assert_eq!(
        Balance::zero().saturating_sub(Balance::one()),
        Balance::zero()
    );
}

#[test]
fn saturating_sub_of_max_is_zero() {
    assert_eq!(
        Balance::zero().saturating_sub(Balance::max_value()),
        Balance::zero()
    );
    assert_eq!(
        units(17).saturating_sub(Balance::max_value()),
        Balance::zero()
    );
    assert_eq!(
        Balance(u128::MAX - 1).saturating_sub(Balance::max_value()),
        Balance::zero()
    );
    assert_eq!(
        Balance::max_value().saturating_sub(Balance::max_value()),
        Balance::zero()
    );
}

#[test]
fn saturating_sub_is_exact_within_range() {
    assert_eq!(units(5).saturating_sub(units(3)), units(2));
    assert_eq!(Balance(10).saturating_sub(Balance(11)), Balance::zero());
}

#[test]
fn saturating_mul_clamps_to_max() {
    assert_eq!(units(6).saturating_mul(units(7)), units(42));
    assert_eq!(Balance(1).saturating_mul(Balance(1)), Balance(0));
    assert_eq!(
        Balance::max_value().saturating_mul(units(2)),
        Balance::max_value()
    );
    assert_eq!(
        Balance::max_value().saturating_mul(Balance::max_value()),
        Balance::max_value()
    );
}

#[test]
fn saturating_pow_with_exponent_zero_is_one() {
    assert_eq!(Balance::zero().saturating_pow(0), Balance::one());
    assert_eq!(units(7).saturating_pow(0), Balance::one());
    assert_eq!(Balance::max_value().saturating_pow(0), Balance::one());
}

#[test]
fn saturating_pow_multiplies_repeatedly() {
    assert_eq!(units(7).saturating_pow(1), units(7));
    assert_eq!(units(2).saturating_pow(10), units(1024));
    assert_eq!(units(3).saturating_pow(3), units(27));
    assert_eq!(
        Balance(1_500_000_000_000_000_000).saturating_pow(2),
        Balance(2_250_000_000_000_000_000)
    );
    assert_eq!(Balance::zero().saturating_pow(5), Balance::zero());
    assert_eq!(Balance::one().saturating_pow(1000), Balance::one());
}

#[test]
fn saturating_pow_clamps_to_max() {
    assert_eq!(units(10).saturating_pow(30), Balance::max_value());
    assert_eq!(Balance::max_value().saturating_pow(2), Balance::max_value());
}

#[test]
fn saturating_pow_agrees_with_the_primitive() {
    let bases: [u128; 5] = [0, 1, SCALE / 3, 1_234_567_890_123_456_789, 9 * SCALE + 7];
    let exponents: [usize; 6] = [0, 1, 2, 3, 7, 20];
    for base in bases {
        for exp in exponents {
            assert_eq!(
                Balance(base).saturating_pow(exp).0,
                FixedU128::from_inner(base).saturating_pow(exp).into_inner()
            );
        }
    }
}

#[test]
fn from_str_radix_is_not_offered() {
    assert_eq!(Balance::from_str_radix("10", 10), Err(()));
    assert_eq!(Balance::from_str_radix("ff", 16), Err(()));
    assert_eq!(Balance::from_str_radix("", 2), Err(()));
}

#[test]
fn operators_compute_within_range() {
    assert_eq!(units(2) + units(3), units(5));
    assert_eq!(units(5) - units(3), units(2));
    assert_eq!(units(6) * units(7), units(42));
    assert_eq!(units(6) / units(4), Balance(1_500_000_000_000_000_000));
    assert_eq!(Balance(1) * Balance(SCALE - 1), Balance(0));
    assert_eq!(units(1) / units(3), Balance(333_333_333_333_333_333));
}

#[test]
fn remainder_is_always_zero() {
    assert_eq!(units(7) % units(2), Balance::zero());
    assert_eq!(units(7) % units(7), Balance::zero());
    assert_eq!(Balance(5) % Balance(3), Balance::zero());
    assert_eq!(units(7) % Balance::zero(), Balance::zero());
    assert_eq!(Balance::max_value() % Balance(1), Balance::zero());
}

#[test]
fn a_balance_divided_by_itself_is_one() {
    assert_eq!(units(7) / units(7), Balance::one());
    assert_eq!(Balance(1) / Balance(1), Balance::one());
    assert_eq!(Balance(SCALE / 3) / Balance(SCALE / 3), Balance::one());
    assert_eq!(
        Balance::max_value() / Balance::max_value(),
        Balance::one()
    );
    assert_eq!(
        Balance::max_value().checked_div(&Balance::max_value()),
        Some(Balance::one())
    );
}

#[test]
fn shifts_leave_the_balance_unchanged() {
    assert_eq!(units(3) << 0, units(3));
    assert_eq!(units(3) << 5, units(3));
    assert_eq!(units(3) >> 5, units(3));
    assert_eq!(Balance::max_value() << 200, Balance::max_value());
    assert_eq!(Balance(1) >> 1, Balance(1));
}

#[test]
fn assignment_operators_replace_the_balance() {
    let mut b = units(2);
    b += units(3);
    assert_eq!(b, units(5));
    b -= units(1);
    assert_eq!(b, units(4));
    b /= units(8);
    assert_eq!(b, Balance(SCALE / 2));
    b %= units(3);
    assert_eq!(b, Balance::zero());
}

#[test]
fn zero_is_the_additive_identity() {
    for x in [Balance(0), Balance(1), units(9), Balance::max_value()] {
        assert_eq!(Balance::zero() + x, x);
        assert_eq!(x + Balance::zero(), x);
        assert_eq!(Balance::zero().checked_add(&x), Some(x));
        assert_eq!(Balance::zero().saturating_add(x), x);
    }
}

#[test]
fn one_is_the_multiplicative_identity() {
    for x in [Balance(0), Balance(1), Balance(SCALE - 1), units(9), Balance::max_value()] {
        assert_eq!(Balance::one() * x, x);
        assert_eq!(x * Balance::one(), x);
        assert_eq!(Balance::one().checked_mul(&x), Some(x));
        assert_eq!(Balance::one().saturating_mul(x), x);
    }
}

#[test]
fn saturating_results_follow_checked_results() {
    let samples = [
        Balance(0),
        Balance(1),
        units(3),
        Balance(u128::MAX / 2 + 1),
        Balance::max_value(),
    ];
    for a in samples {
        for b in samples {
            assert_eq!(
                a.saturating_add(b),
                a.checked_add(&b).unwrap_or(Balance::max_value())
            );
            assert_eq!(
                a.saturating_sub(b),
                a.checked_sub(&b).unwrap_or(Balance::zero())
            );
            assert_eq!(
                a.saturating_mul(b),
                a.checked_mul(&b).unwrap_or(Balance::max_value())
            );
        }
    }
}

#[test]
fn order_is_that_of_the_scaled_integers() {
    assert!(Balance(1) < Balance(2));
    assert!(Balance(2) > Balance(1));
    assert!(Balance(2) <= Balance(2));
    assert!(Balance(2) >= Balance(2));
    assert!(Balance::zero() < Balance::one());
    assert!(Balance::one() < Balance::max_value());
    assert_eq!(Balance(1).partial_cmp(&Balance(2)), Some(Ordering::Less));
    assert_eq!(Balance(2).partial_cmp(&Balance(2)), Some(Ordering::Equal));
    assert_eq!(Balance(3).partial_cmp(&Balance(2)), Some(Ordering::Greater));
    assert_eq!(Balance(1).cmp(&Balance(2)), Ordering::Less);
    assert_eq!(Balance(2).cmp(&Balance(2)), Ordering::Equal);
    assert_eq!(Balance(3).cmp(&Balance(2)), Ordering::Greater);
    assert_eq!(Balance(3).max(Balance(2)), Balance(3));
}

#[test]
fn equality_is_that_of_the_scaled_integers() {
    assert_eq!(Balance(5), Balance(5));
    assert_ne!(Balance(5), Balance(6));
    assert_eq!(units(1), Balance::one());
}

#[test]
fn operands_commute_on_both_facades() {
    let samples = [
        Balance(0),
        Balance(1),
        Balance(SCALE / 3),
        units(3),
        Balance(u128::MAX / 2 + 1),
        Balance::max_value(),
    ];
    for a in samples {
        for b in samples {
            assert_eq!(a.checked_add(&b), b.checked_add(&a));
            assert_eq!(a.saturating_add(b), b.saturating_add(a));
            assert_eq!(a.checked_mul(&b), b.checked_mul(&a));
            assert_eq!(a.saturating_mul(b), b.saturating_mul(a));
        }
    }
}

#[test]
fn subtraction_undoes_addition() {
    let sum = units(5).checked_add(&Balance(7)).unwrap();
    assert_eq!(sum, Balance(5 * SCALE + 7));
    assert_eq!(sum.checked_sub(&Balance(7)), Some(units(5)));
    assert_eq!(sum.saturating_sub(Balance(7)), units(5));
    let top = Balance(u128::MAX - 9).checked_add(&Balance(9)).unwrap();
    assert_eq!(top.checked_sub(&Balance(9)), Some(Balance(u128::MAX - 9)));
}

#[test]
fn saturating_pow_with_exponent_two_is_the_saturating_square() {
    for a in [
        Balance(0),
        Balance(1),
        Balance(SCALE / 3),
        units(3),
        Balance(1_500_000_000_000_000_000),
        units(20_000_000_000),
        Balance::max_value(),
    ] {
        assert_eq!(a.saturating_pow(1), a);
        assert_eq!(a.saturating_pow(2), a.saturating_mul(a));
    }
    assert_eq!(units(20_000_000_000).saturating_pow(2), Balance::max_value());
}
