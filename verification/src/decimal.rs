//! Unsigned decimal numbers as the shell tools read them from arguments.

use vstd::prelude::*;

verus! {

/// An ASCII decimal digit.
pub open spec fn is_decimal_digit(c: char) -> bool {
    '0' <= c <= '9'
}

/// The character of a decimal digit below 10.
pub open spec fn digit_char(d: nat) -> char {
    ((48 + d) as u8) as char
}

/// `n` written in decimal, with no leading zeros (as `{}` and `{:?}` print
/// an unsigned integer).
pub open spec fn decimal_text(n: nat) -> Seq<char>
    decreases n,
{
    if n < 10 {
        seq![digit_char(n)]
    } else {
        decimal_text(n / 10) + seq![digit_char(n % 10)]
    }
}

/// The number written by a string of decimal digits.
pub open spec fn digits_value(s: Seq<char>) -> nat
    decreases s.len(),
{
    if s.len() == 0 {
        0
    } else {
        digits_value(s.drop_last()) * 10 + (s.last() as nat - '0' as nat) as nat
    }
}

/// The number that `text` writes as an unsigned decimal: an optional `+`
/// followed by at least one digit and nothing else; `None` otherwise.
pub open spec fn decimal_value(text: Seq<char>) -> Option<nat> {
    let digits = if text.len() > 0 && text[0] == '+' {
        text.drop_first()
    } else {
        text
    };
    if digits.len() > 0 && forall|i: int| 0 <= i < digits.len() ==> is_decimal_digit(#[trigger] digits[i]) {
        Some(digits_value(digits))
    } else {
        None
    }
}

/// `usize`'s `FromStr`: per its documentation, `Ok` exactly when the text
/// is an optional `+` and digits whose value fits the type.
#[verifier::external_body]
pub(crate) fn parse_usize(text: &str) -> (r: core::result::Result<usize, core::num::ParseIntError>)
    ensures
        r is Ok <==> (decimal_value(text@) matches Some(v) && v <= usize::MAX),
        r matches Ok(v) ==> decimal_value(text@) == Some(v as nat),
{
    text.parse::<usize>()
}

/// `u64`'s `FromStr`: per its documentation, `Ok` exactly when the text is
/// an optional `+` and digits whose value fits the type.
#[verifier::external_body]
pub(crate) fn parse_u64(text: &str) -> (r: core::result::Result<u64, core::num::ParseIntError>)
    ensures
        r is Ok <==> (decimal_value(text@) matches Some(v) && v <= u64::MAX),
        r matches Ok(v) ==> decimal_value(text@) == Some(v as nat),
{
    text.parse::<u64>()
}

} // verus!
