use crate::guess::{in_range, Guess, GuessView};
use vstd::prelude::*;

verus! {

/// Why a line of text does not give a guess.
#[derive(Debug, Clone, Copy, PartialEq, Eq, Structural)]
pub enum GuessError {
    /// The text is not a decimal integer that fits in an `i32`.
    NotANumber,
    /// The text is an integer outside the allowed range; it is carried here.
    OutOfRange(i32),
}

/// An ASCII decimal digit.
pub open spec fn is_digit(c: char) -> bool {
    '0' <= c && c <= '9'
}

/// A non-empty run of ASCII decimal digits.
pub open spec fn all_digits(s: Seq<char>) -> bool {
    s.len() > 0 && forall|i: int| 0 <= i < s.len() ==> is_digit(#[trigger] s[i])
}

/// The number that a run of decimal digits denotes.
pub open spec fn digits_value(s: Seq<char>) -> int
    decreases s.len(),
{
    if s.len() == 0 {
        0
    } else {
        10 * digits_value(s.drop_last()) + (s.last() as int - '0' as int)
    }
}

/// The integer that `s` writes in decimal, with an optional leading `+` or
/// `-`, if it writes one.
pub open spec fn decimal_value(s: Seq<char>) -> Option<int> {
    if s.len() > 0 && s[0] == '-' && all_digits(s.skip(1)) {
        Some(-digits_value(s.skip(1)))
    } else if s.len() > 0 && s[0] == '+' && all_digits(s.skip(1)) {
        Some(digits_value(s.skip(1)))
    } else if all_digits(s) {
        Some(digits_value(s))
    } else {
        None
    }
}

/// The `i32` that `s` writes in decimal, if it writes one that fits.
pub open spec fn parsed_i32(s: Seq<char>) -> Option<i32> {
    match decimal_value(s) {
        Some(v) => if i32::MIN <= v <= i32::MAX {
            Some(v as i32)
        } else {
            None
        },
        None => None,
    }
}

/// What a line of text, already stripped of surrounding whitespace, gives
/// when read as a guess in `[low, high]`.
pub open spec fn guess_result(text: Seq<char>, low: int, high: int) -> Result<GuessView, GuessError> {
    match parsed_i32(text) {
        None => Err(GuessError::NotANumber),
        Some(v) => if in_range(v as int, low, high) {
            Ok(GuessView { value: v as int, low, high })
        } else {
            Err(GuessError::OutOfRange(v))
        },
    }
}

/// `s` with its leading and trailing whitespace removed.
pub uninterp spec fn trimmed(s: Seq<char>) -> Seq<char>;

/// Relies on `str::trim`: the text without its leading and trailing
/// whitespace, which depends on the characters of `s` alone.
#[verifier::external_body]
fn trim(s: &str) -> (r: &str)
    ensures
        r@ == trimmed(s@),
{
    s.trim()
}

/// Relies on `str::parse::<i32>` (`i32`'s `FromStr`): an optional `+` or
/// `-` followed by at least one ASCII digit, and nothing else, gives the
/// number if it fits in an `i32`; anything else is an error.
#[verifier::external_body]
fn parse_i32(s: &str) -> (r: Option<i32>)
    ensures
        r == parsed_i32(s@),
{
    s.parse::<i32>().ok()
}

/// Reads text that carries no surrounding whitespace as a guess in
/// `[low, high]`: it must be a decimal `i32`, and within the range.
pub fn guess_from_trimmed(text: &str, low: i32, high: i32) -> (r: Result<Guess, GuessError>)
    ensures
        r is Ok <==> guess_result(text@, low as int, high as int) is Ok,
        r matches Ok(g) ==> guess_result(text@, low as int, high as int) == Ok::<
            GuessView,
            GuessError,
        >(g@),
        r matches Err(e) ==> guess_result(text@, low as int, high as int) == Err::<
            GuessView,
            GuessError,
        >(e),
{
    match parse_i32(text) {
        None => Err(GuessError::NotANumber),
        Some(v) => match Guess::new(v, low, high) {
            Ok(g) => Ok(g),
            Err(rejected) => Err(GuessError::OutOfRange(rejected)),
        },
    }
}

/// Reads one line of player input as a guess in `[low, high]`: surrounding
/// whitespace is ignored, then the rest must be a decimal `i32` within the
/// range.
pub fn parse_guess(text: &str, low: i32, high: i32) -> (r: Result<Guess, GuessError>)
    ensures
        r is Ok <==> guess_result(trimmed(text@), low as int, high as int) is Ok,
        r matches Ok(g) ==> guess_result(trimmed(text@), low as int, high as int) == Ok::<
            GuessView,
            GuessError,
        >(g@),
        r matches Err(e) ==> guess_result(trimmed(text@), low as int, high as int) == Err::<
            GuessView,
            GuessError,
        >(e),
{
    guess_from_trimmed(trim(text), low, high)
}

} // verus!
