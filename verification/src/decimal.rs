//! Unsigned integers in decimal notation.

use std::num::ParseIntError;
use std::str::FromStr;
use vstd::prelude::*;
use vstd::string::*;

verus! {

pub open spec fn is_digit(c: char) -> bool {
    '0' <= c <= '9'
}

pub open spec fn digit_value(c: char) -> nat {
    (c as int - '0' as int) as nat
}

/// The number that a sequence of digits stands for.
pub open spec fn digits_value(digits: Seq<char>) -> nat
    decreases digits.len(),
{
    if digits.len() == 0 {
        0
    } else {
        digits_value(digits.drop_last()) * 10 + digit_value(digits.last())
    }
}

/// The digits of `text`: what follows its plus sign, where it starts with one.
pub open spec fn unsigned_digits(text: Seq<char>) -> Seq<char> {
    if text.len() > 0 && text[0] == '+' {
        text.skip(1)
    } else {
        text
    }
}

/// Whether `text` is an optional plus sign and then one or more digits,
/// nothing else.
pub open spec fn is_unsigned(text: Seq<char>) -> bool {
    let digits = unsigned_digits(text);
    &&& digits.len() > 0
    &&& forall|i: int| 0 <= i < digits.len() ==> is_digit(#[trigger] digits[i])
}

/// The `u64` that `text` denotes, if it denotes one.
pub open spec fn u64_denoted(text: Seq<char>) -> Option<u64> {
    let value = digits_value(unsigned_digits(text));
    if is_unsigned(text) && value <= u64::MAX {
        Some(value as u64)
    } else {
        None
    }
}

/// The error that `u64::from_str` gives for a text that denotes no `u64`.
pub uninterp spec fn u64_from_str_error(text: Seq<char>) -> ParseIntError;

/// std's error for a text that is no integer.
#[verifier::external_type_specification]
#[verifier::external_body]
pub struct ExParseIntError(ParseIntError);

/// Calls `u64::from_str`, that is `<u64 as std::str::FromStr>::from_str`.
///
/// Believed of it, as its documentation says: it takes an optional `+` and then
/// only decimal digits, at least one; white space, underscores, other signs
/// and anything else are errors, and so is a number above `u64::MAX`. The
/// error depends on the text alone. Nothing more is said of the error.
#[verifier::external_body]
pub(crate) fn u64_from_str(text: &str) -> (parsed: Result<u64, ParseIntError>)
    ensures
        match parsed {
            Ok(value) => u64_denoted(text@) == Some(value),
            Err(error) => u64_denoted(text@) is None && error == u64_from_str_error(text@),
        },
{
    u64::from_str(text)
}

/// The character of a single digit.
pub open spec fn digit_char(digit: nat) -> char {
    (digit + '0' as nat) as char
}

/// `n` in decimal notation, without leading zeros.
pub open spec fn decimal(n: nat) -> Seq<char>
    decreases n,
{
    if n < 10 {
        seq![digit_char(n)]
    } else {
        decimal(n / 10).push(digit_char(n % 10))
    }
}

fn digit_text(digit: u64) -> (text: &'static str)
    requires
        digit < 10,
    ensures
        text@ == seq![digit_char(digit as nat)],
{
    proof {
        reveal_strlit("0");
        reveal_strlit("1");
        reveal_strlit("2");
        reveal_strlit("3");
        reveal_strlit("4");
        reveal_strlit("5");
        reveal_strlit("6");
        reveal_strlit("7");
        reveal_strlit("8");
        reveal_strlit("9");
    }
    match digit {
        0 => "0",
        1 => "1",
        2 => "2",
        3 => "3",
        4 => "4",
        5 => "5",
        6 => "6",
        7 => "7",
        8 => "8",
        _ => "9",
    }
}

/// Writes `n` in decimal notation.
pub fn u64_to_decimal(n: u64) -> (text: String)
    ensures
        text@ == decimal(n as nat),
    decreases n,
{
    if n < 10 {
        digit_text(n).to_owned()
    } else {
        u64_to_decimal(n / 10).concat(digit_text(n % 10))
    }
}

/// Reading back what was written gives the number that was written.
pub proof fn law_decimal_round_trip(n: u64)
    ensures
        u64_denoted(decimal(n as nat)) == Some(n),
{
    lemma_decimal(n as nat);
    assert(unsigned_digits(decimal(n as nat)) == decimal(n as nat));
}

/// Decimal notation consists of digits, and starts with a zero only where the
/// number is zero.
pub proof fn law_decimal_has_no_leading_zero(n: nat)
    ensures
        decimal(n).len() > 0,
        forall|i: int| 0 <= i < decimal(n).len() ==> '0' <= #[trigger] decimal(n)[i] <= '9',
        decimal(n)[0] == '0' ==> n == 0 && decimal(n).len() == 1,
    decreases n,
{
    lemma_decimal(n);
    if n >= 10 {
        law_decimal_has_no_leading_zero(n / 10);
        assert(decimal(n)[0] == decimal(n / 10)[0]);
    }
}

proof fn lemma_decimal(n: nat)
    ensures
        decimal(n).len() > 0,
        forall|i: int| 0 <= i < decimal(n).len() ==> is_digit(#[trigger] decimal(n)[i]),
        digits_value(decimal(n)) == n,
    decreases n,
{
    if n < 10 {
        assert(decimal(n).drop_last() == Seq::<char>::empty());
        assert(digits_value(decimal(n).drop_last()) == 0);
    } else {
        lemma_decimal(n / 10);
        assert(decimal(n).drop_last() == decimal(n / 10));
    }
}

} // verus!
