//! The time of day that event descriptions are stamped with.

use vstd::prelude::*;

verus! {

/// The format of the time stamp: hour, minute and second, two digits each.
pub open spec fn clock_format() -> Seq<char> {
    "%H:%M:%S"@
}

/// `c` is one of the ten decimal digits.
pub open spec fn is_digit(c: char) -> bool {
    '0' <= c && c <= '9'
}

/// The number that the two digits at `at` and `at + 1` spell.
pub open spec fn two_digits(text: Seq<char>, at: int) -> int {
    (text[at] as int - '0' as int) * 10 + (text[at + 1] as int - '0' as int)
}

/// `text` reads `HH:MM:SS`: an hour up to 23, a minute up to 59 and a second
/// up to 60 (a leap second), each written with two digits.
pub open spec fn is_clock_text(text: Seq<char>) -> bool {
    &&& text.len() == 8
    &&& is_digit(text[0])
    &&& is_digit(text[1])
    &&& text[2] == ':'
    &&& is_digit(text[3])
    &&& is_digit(text[4])
    &&& text[5] == ':'
    &&& is_digit(text[6])
    &&& is_digit(text[7])
    &&& two_digits(text, 0) <= 23
    &&& two_digits(text, 3) <= 59
    &&& two_digits(text, 6) <= 60
}

/// `chrono::Local::now`, then `chrono::DateTime::format` on what it gave,
/// written out as a string. The result depends on the machine's clock and
/// time zone, so it has no name; the contract claims only the shape that the
/// format gives to every time of day.
#[verifier::external_body]
pub(crate) fn local_time_text(format: &str) -> (text: String)
    requires
        format@ == clock_format(),
    ensures
        is_clock_text(text@),
{
    chrono::Local::now().format(format).to_string()
}

} // verus!
