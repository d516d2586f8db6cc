//! Character classes of the language.

use vstd::prelude::*;

verus! {

/// The letters an identifier is made of: ASCII `A`-`Z`, `a`-`z` and `_`.
pub open spec fn letter_or_underscore(ch: char) -> bool {
    ||| 'a' <= ch <= 'z'
    ||| 'A' <= ch <= 'Z'
    ||| ch == '_'
}

/// The decimal digits, ASCII `0`-`9`.
pub open spec fn digit(ch: char) -> bool {
    '0' <= ch <= '9'
}

/// Says whether `ch` is an ASCII letter or an underscore.
#[verifier::when_used_as_spec(letter_or_underscore)]
pub fn is_letter_or_underscore(ch: char) -> (b: bool)
    ensures
        b == letter_or_underscore(ch),
{
    'a' <= ch && ch <= 'z' || 'A' <= ch && ch <= 'Z' || ch == '_'
}

/// Says whether `ch` is a decimal digit.
#[verifier::when_used_as_spec(digit)]
pub fn is_digit(ch: char) -> (b: bool)
    ensures
        b == digit(ch),
{
    '0' <= ch && ch <= '9'
}

} // verus!
