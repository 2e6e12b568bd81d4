//! Timestamps.

use vstd::prelude::*;

verus! {

/// Whether `c` is a decimal digit.
pub open spec fn is_digit(c: char) -> bool {
    '0' <= c <= '9'
}

/// Whether the characters of `s` from position `from` up to `to` are decimal digits.
pub open spec fn digits(s: Seq<char>, from: int, to: int) -> bool {
    forall|i: int| from <= i < to ==> is_digit(#[trigger] s[i])
}

/// The number that the characters of `s` from position `from` up to `to` write in decimal.
pub open spec fn number(s: Seq<char>, from: int, to: int) -> int
    decreases to - from,
{
    if from >= to {
        0
    } else {
        10 * number(s, from, to - 1) + (s[to - 1] as int - '0' as int)
    }
}

/// Whether `year` is a leap year of the Gregorian calendar.
pub open spec fn is_leap_year(year: int) -> bool {
    year % 4 == 0 && (year % 100 != 0 || year % 400 == 0)
}

/// The number of days of a month of the Gregorian calendar.
pub open spec fn days_in_month(year: int, month: int) -> int {
    if month == 2 {
        if is_leap_year(year) {
            29
        } else {
            28
        }
    } else if month == 4 || month == 6 || month == 9 || month == 11 {
        30
    } else {
        31
    }
}

/// Whether the first `y` characters of `s` write the year `year`: four digits, or a sign and at
/// least four digits for a year that lies outside 0 to 9999.
pub open spec fn writes_year(s: Seq<char>, y: int, year: int) -> bool {
    if y == 4 {
        &&& digits(s, 0, 4)
        &&& year == number(s, 0, 4)
    } else {
        &&& 5 <= y <= 7
        &&& digits(s, 1, y)
        &&& s[0] == '+' && year == number(s, 1, y) && year > 9999 || s[0] == '-' && year == -number(
            s,
            1,
            y,
        ) && year < 0
        &&& y > 5 ==> s[1] != '0'
    }
}

/// Whether `s` is a date and time in UTC as RFC 3339 writes it, of the year `year`, with `y`
/// characters for the year and `f` for the fraction of the second with its point. The fraction
/// has as many groups of three digits as it needs: none for a whole second, and the last group
/// is not zero.
pub open spec fn utc_layout(s: Seq<char>, year: int, y: int, f: int) -> bool {
    &&& f == 0 || f == 4 || f == 7 || f == 10
    &&& s.len() == y + 15 + f + 6
    &&& writes_year(s, y, year)
    &&& s[y] == '-' && digits(s, y + 1, y + 3)
    &&& 1 <= number(s, y + 1, y + 3) <= 12
    &&& s[y + 3] == '-' && digits(s, y + 4, y + 6)
    &&& 1 <= number(s, y + 4, y + 6) <= days_in_month(year, number(s, y + 1, y + 3))
    &&& s[y + 6] == 'T' && digits(s, y + 7, y + 9)
    &&& number(s, y + 7, y + 9) <= 23
    &&& s[y + 9] == ':' && digits(s, y + 10, y + 12)
    &&& number(s, y + 10, y + 12) <= 59
    &&& s[y + 12] == ':' && digits(s, y + 13, y + 15)
    &&& number(s, y + 13, y + 15) <= 59
    &&& f > 0 ==> {
        &&& s[y + 15] == '.' && digits(s, y + 16, y + 15 + f)
        &&& number(s, y + 12 + f, y + 15 + f) != 0
    }
    &&& s.subrange(y + 15 + f, s.len() as int) == "+00:00"@
}

/// Whether `s` is a date and time in UTC as RFC 3339 writes it.
pub open spec fn is_utc_timestamp(s: Seq<char>) -> bool {
    exists|year: int, y: int, f: int| utc_layout(s, year, y, f)
}

/// Whether `s` is what a reading of the system clock gave.
pub closed spec fn is_clock_reading(s: Seq<char>) -> bool {
    exists|at: String| #[trigger] call_ensures(now_rfc3339, (), at) && at@ == s
}

/// `chrono::DateTime<Utc>::from` of `std::time::SystemTime::now`, written by `to_rfc3339`: some
/// date and time in UTC. Which one it is rests on the system clock and is left unsaid. Unlike
/// `chrono::Utc::now`, the conversion takes a clock that stands before 1970 too. It panics only
/// outside the dates that `chrono` can represent, more than 260,000 years away on either side.
#[verifier::external_body]
pub(crate) fn now_rfc3339() -> (text: String)
    ensures
        is_utc_timestamp(text@),
{
    chrono::DateTime::<chrono::Utc>::from(std::time::SystemTime::now()).to_rfc3339()
}

/// Reads the system clock.
pub(crate) fn read_clock() -> (text: String)
    ensures
        is_clock_reading(text@),
        call_ensures(now_rfc3339, (), text),
{
    let text = now_rfc3339();
    assert(call_ensures(now_rfc3339, (), text));
    text
}

/// The shape of every timestamp: year, month and day, then hours, minutes and seconds, with
/// their separators in place, and the offset of UTC at the end.
pub proof fn law_shape_of_timestamps(s: Seq<char>)
    requires
        is_utc_timestamp(s),
    ensures
        s.len() >= 25,
        s.subrange(s.len() - 6, s.len() as int) == "+00:00"@,
        exists|y: int| {
            &&& 4 <= y <= 7
            &&& #[trigger] s[y] == '-'
            &&& s[y + 3] == '-'
            &&& s[y + 6] == 'T'
            &&& s[y + 9] == ':'
            &&& s[y + 12] == ':'
            &&& '0' <= s[y + 14] <= '9'
        },
{
    let (year, y, f) = choose|year: int, y: int, f: int| utc_layout(s, year, y, f);
    assert(s[y] == '-');
    assert(is_digit(s[y + 14]));
}

/// A reading of the clock is a text that the clock gave, and no other.
pub(crate) proof fn law_readings_come_from_the_clock(s: Seq<char>)
    ensures
        is_clock_reading(s) <==> exists|at: String| #[trigger]
            call_ensures(now_rfc3339, (), at) && at@ == s,
{
}

/// Every reading of the clock is a date and time in UTC.
pub proof fn law_readings_are_utc(s: Seq<char>)
    requires
        is_clock_reading(s),
    ensures
        is_utc_timestamp(s),
{
}

} // verus!
