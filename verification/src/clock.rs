//! The local wall clock.

use vstd::prelude::*;

verus! {

/// The pattern of a timestamp: year, month and day, then hour, minute and
/// second, in local time.
pub open spec fn timestamp_pattern() -> Seq<char> {
    "%Y-%m-%d %H:%M:%S"@
}

/// A decimal digit.
pub open spec fn is_digit(c: char) -> bool {
    '0' <= c && c <= '9'
}

/// Two decimal digits at `at`.
pub open spec fn two_digits(s: Seq<char>, at: int) -> bool {
    is_digit(s[at]) && is_digit(s[at + 1])
}

/// The shape of a timestamp after its year: `-MM-DD HH:MM:SS`.
pub open spec fn is_day_and_time(t: Seq<char>) -> bool {
    &&& t.len() == 15
    &&& t[0] == '-' && two_digits(t, 1)
    &&& t[3] == '-' && two_digits(t, 4)
    &&& t[6] == ' ' && two_digits(t, 7)
    &&& t[9] == ':' && two_digits(t, 10)
    &&& t[12] == ':' && two_digits(t, 13)
}

/// The shape of a timestamp: a year of four characters or more, then month,
/// day, hour, minute and second of two digits each.
pub open spec fn is_timestamp(s: Seq<char>) -> bool {
    s.len() >= 19 && is_day_and_time(s.subrange(s.len() - 15, s.len() as int))
}

/// The current local time, written after `pattern`, through
/// `chrono::Local::now` and `chrono::DateTime::format`.
///
/// Trusted: for the pattern of a timestamp `chrono` writes the year with four
/// digits, or with a sign and more where four do not hold it, and each other
/// field with two digits. Which time that is depends on the clock and on the
/// time zone of the machine, so no more is said. `chrono` gives up on a clock
/// that is set before 1970.
#[verifier::external_body]
fn local_time(pattern: &str) -> (out: String)
    requires
        pattern@ == timestamp_pattern(),
    ensures
        is_timestamp(out@),
{
    chrono::Local::now().format(pattern).to_string()
}

/// The current local time as a timestamp of second resolution.
pub fn timestamp_now() -> (out: String)
    ensures
        is_timestamp(out@),
{
    local_time("%Y-%m-%d %H:%M:%S")
}

} // verus!
