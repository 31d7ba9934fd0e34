//! Balances as text: what the primitive writes and what it reads.

use crate::balance::Balance;
use crate::primitive;
use crate::primitive::{
    decimal, fraction_overflows, fraction_start, is_digit, is_first_point, is_overflowing_run,
    number, parsed, white_space, FRACTION_LIMIT, SCALE,
};
use std::str::FromStr;
use vstd::prelude::*;
use vstd::std_specs::iter::IteratorSpec;

verus! {

/// Why a text could not be read as a balance.
#[derive(Debug, Eq, PartialEq, Structural)]
pub enum ParseError {
    /// The primitive's parser rejects the text, or could not scale its
    /// fraction.
    Invalid,
}

/// `FRACTION_LIMIT` is the largest number whose product with `SCALE` fits
/// in a `u128`.
pub proof fn fraction_limit_is_exact()
    ensures
        FRACTION_LIMIT * SCALE <= u128::MAX < (FRACTION_LIMIT + 1) * SCALE,
{
}

/// A text has at most one first decimal point.
pub proof fn first_point_is_unique(text: Seq<char>, at: int, other: int)
    requires
        is_first_point(text, at),
        is_first_point(text, other),
    ensures
        at == other,
{
    if at < other {
        assert(text[at] != '.');
    } else if other < at {
        assert(text[other] != '.');
    }
}

/// A run of digits that is one digit longer stands for ten times the
/// number, plus that digit.
pub proof fn number_of_longer_run(text: Seq<char>, start: int, end: int)
    requires
        0 <= start <= end < text.len(),
    ensures
        number(text.subrange(start, end + 1)) == number(text.subrange(start, end)) * 10 + (
        text[end] as nat - '0' as nat) as nat,
{
    let longer = text.subrange(start, end + 1);
    assert(longer.drop_last() =~= text.subrange(start, end));
    assert(longer.last() == text[end]);
}

/// The digits of a fraction end where its first other character stands, or
/// where the text ends: an overflowing run from `start` can end nowhere
/// else.
pub proof fn run_ends_with_its_digits(text: Seq<char>, start: int, last: int, end: int)
    requires
        0 <= start <= last <= text.len(),
        forall|j: int| start <= j < last ==> is_digit(text[j]),
        last < text.len() ==> !is_digit(text[last]),
        is_overflowing_run(text, start, end),
    ensures
        end == last,
{
    if end < last {
        assert(is_digit(text[end]));
    } else if last < end {
        assert(is_digit(text[last]));
    }
}

/// A number written in decimal digits holds no decimal point, so it has no
/// fraction that could overflow.
pub proof fn decimal_has_no_point(n: nat)
    ensures
        forall|i: int| 0 <= i < decimal(n).len() ==> decimal(n)[i] != '.',
        !fraction_overflows(decimal(n)),
    decreases n,
{
    if n >= 10 {
        decimal_has_no_point(n / 10);
    }
}

/// The value of a character as a decimal digit, where it is one.
pub fn digit_of(c: char) -> (r: Option<u128>)
    ensures
        r is Some <==> is_digit(c),
        is_digit(c) ==> r == Some((c as nat - '0' as nat) as u128),
{
    if '0' <= c && c <= '9' {
        Some((c as u32 - '0' as u32) as u128)
    } else {
        None
    }
}

/// Whether the fraction of a text is one that the primitive's parser would
/// scale beyond a `u128`. The text is read once, from its start to the
/// first character that settles the answer.
pub fn has_overflowing_fraction(text: &str) -> (r: bool)
    ensures
        r == fraction_overflows(text@),
{
    let mut chars = text.chars();
    // 0: before the point, 1: at the first character behind it,
    // 2: in the digits, 3: in the white space behind the digits.
    let mut phase: u8 = 0;
    let mut over = false;
    let mut value: u128 = 0;
    let ghost mut read: int = 0;
    let ghost mut point: int = 0;
    let ghost mut start: int = 0;
    let ghost mut end: int = 0;
    proof {
        broadcast use vstd::string::axiom_spec_iter;

    }
    loop
        invariant
            phase <= 3,
            0 <= read <= text@.len(),
            chars.remaining() == text@.skip(read),
            phase == 0 ==> forall|j: int| 0 <= j < read ==> text@[j] != '.',
            phase >= 1 ==> is_first_point(text@, point),
            phase == 1 ==> read == point + 1,
            phase <= 1 ==> !over && value == 0,
            phase >= 2 ==> start == fraction_start(text@, point) && 0 <= start <= end <= read,
            phase >= 2 ==> forall|j: int| start <= j < end ==> is_digit(text@[j]),
            phase >= 2 ==> (over <==> number(text@.subrange(start, end)) > FRACTION_LIMIT),
            phase >= 2 && !over ==> value == number(text@.subrange(start, end)),
            phase == 2 ==> end == read,
            phase == 3 ==> over && end < read && !is_digit(text@[end]),
            phase == 3 ==> forall|j: int| end <= j < read ==> white_space(text@[j]),
        decreases text@.len() - read,
    {
        let next = chars.next();
        proof {
            broadcast use vstd::string::next_postcondition;

        }
        match next {
            None => {
                proof {
                    assert(read == text@.len());
                    if phase >= 2 && over {
                        assert(start < end) by {
                            if start == end {
                                assert(text@.subrange(start, end).len() == 0);
                            }
                        }
                        assert(is_overflowing_run(text@, start, end));
                    } else {
                        assert forall|at: int, e: int|
                            is_first_point(text@, at) && is_overflowing_run(
                                text@,
                                fraction_start(text@, at),
                                e,
                            ) implies false by {
                            if phase >= 1 {
                                first_point_is_unique(text@, at, point);
                                if phase == 2 {
                                    run_ends_with_its_digits(text@, start, end, e);
                                }
                            }
                        }
                    }
                }
                return phase >= 2 && over;
            },
            Some(c) => {
                proof {
                    assert(c == text@[read]);
                    assert(text@.skip(read).drop_first() == text@.skip(read + 1));
                }
                if phase == 0 {
                    if c == '.' {
                        phase = 1;
                        proof {
                            point = read;
                        }
                    }
                } else if phase == 1 && c == '+' {
                    phase = 2;
                    proof {
                        start = read + 1;
                        end = read + 1;
                        assert(text@.subrange(start, end).len() == 0);
                    }
                } else if phase <= 2 {
                    match digit_of(c) {
                        Some(d) => {
                            proof {
                                if phase == 1 {
                                    start = read;
                                    end = read;
                                    assert(text@.subrange(start, end).len() == 0);
                                }
                                number_of_longer_run(text@, start, end);
                            }
                            phase = 2;
                            if !over {
                                let longer: u128 = value * 10 + d;
                                if longer > FRACTION_LIMIT {
                                    over = true;
                                } else {
                                    value = longer;
                                }
                            }
                            proof {
                                end = read + 1;
                            }
                        },
                        None => {
                            let trails = phase == 2 && over && primitive::is_whitespace(c);
                            if !trails {
                                proof {
                                    assert forall|at: int, e: int|
                                        is_first_point(text@, at) && is_overflowing_run(
                                            text@,
                                            fraction_start(text@, at),
                                            e,
                                        ) implies false by {
                                        first_point_is_unique(text@, at, point);
                                        if phase == 2 {
                                            run_ends_with_its_digits(text@, start, end, e);
                                        } else {
                                            assert(fraction_start(text@, at) == read);
                                            assert(is_digit(text@[read]));
                                        }
                                    }
                                }
                                return false;
                            }
                            phase = 3;
                        },
                    }
                } else {
                    if !primitive::is_whitespace(c) {
                        proof {
                            assert forall|at: int, e: int|
                                is_first_point(text@, at) && is_overflowing_run(
                                    text@,
                                    fraction_start(text@, at),
                                    e,
                                ) implies false by {
                                first_point_is_unique(text@, at, point);
                                run_ends_with_its_digits(text@, start, end, e);
                            }
                        }
                        return false;
                    }
                }
                proof {
                    read = read + 1;
                }
            },
        }
    }
}

impl Balance {
    /// The balance that a text stands for, as a specification: none where
    /// the primitive's parser would scale its fraction beyond a `u128`,
    /// else the one whose scaled integer the parser reads from it.
    pub open spec fn spec_from_str(text: Seq<char>) -> Result<Balance, ParseError> {
        if fraction_overflows(text) {
            Err(ParseError::Invalid)
        } else {
            Balance::spec_from_parsed(parsed(text))
        }
    }

    /// The balance for what the primitive's parser made of a text, as a
    /// specification.
    pub open spec fn spec_from_parsed(outcome: Option<u128>) -> Result<Balance, ParseError> {
        match outcome {
            Some(inner) => Ok(Balance(inner)),
            None => Err(ParseError::Invalid),
        }
    }

    /// The balance for what the primitive's parser made of a text: the
    /// scaled integer it read, or nothing where it rejected the text.
    #[verifier::when_used_as_spec(spec_from_parsed)]
    pub fn from_parsed(outcome: Option<u128>) -> (r: Result<Balance, ParseError>)
        ensures
            r == Balance::spec_from_parsed(outcome),
    {
        match outcome {
            Some(inner) => Ok(Balance(inner)),
            None => Err(ParseError::Invalid),
        }
    }

    /// The balance as text: its scaled integer in decimal digits, as the
    /// primitive writes it. Reading the text gives the balance back.
    pub fn to_string(&self) -> (r: String)
        ensures
            r@ == decimal(self.0 as nat),
            Balance::spec_from_str(r@) == Ok::<Balance, ParseError>(*self),
    {
        proof {
            decimal_has_no_point(self.0 as nat);
        }
        primitive::render(self.0)
    }
}

impl FromStr for Balance {
    type Err = ParseError;

    /// Reads a balance from a text, as the primitive's parser reads it. A
    /// text whose fraction the parser would scale beyond a `u128` is not
    /// handed to it and is invalid; the parser has no answer for such a
    /// text.
    fn from_str(text: &str) -> (r: Result<Balance, ParseError>)
        ensures
            r == Balance::spec_from_str(text@),
    {
        if has_overflowing_fraction(text) {
            Err(ParseError::Invalid)
        } else {
            Balance::from_parsed(primitive::parse(text))
        }
    }
}

} // verus!
