//! Readings of the wall clock.

use vstd::prelude::*;

use crate::calendar;
use crate::reading;

verus! {

/// The greatest Unix time, in seconds, that `chrono::DateTime<Utc>` can hold.
pub const MAX_UNIX_SECONDS: i64 = 8_210_266_876_799;

/// The first `y` characters of `t` write a year that a clock reading can fall
/// in: four digits, or a `+` and five or six digits for a year past 9999.
pub open spec fn year_text(t: Seq<char>, y: int) -> bool {
    if y == 4 {
        calendar::four_digits(t, 0)
    } else if y == 6 {
        t[0] == '+' && calendar::digit(t[1]) && calendar::four_digits(t, 2)
    } else {
        y == 7 && t[0] == '+' && calendar::two_digits(t, 1) && calendar::four_digits(t, 3)
    }
}

/// The year that the first `y` characters of `t` write.
pub open spec fn year_value(t: Seq<char>, y: int) -> int {
    if y == 4 {
        calendar::four_digit_value(t, 0)
    } else if y == 6 {
        10_000 * calendar::digit_value(t[1]) + calendar::four_digit_value(t, 2)
    } else {
        10_000 * calendar::two_digit_value(t, 1) + calendar::four_digit_value(t, 3)
    }
}

/// The years that a text with `y` characters for the year can name.
pub open spec fn year_in_range(year: int, y: int) -> bool {
    if y == 4 {
        1970 <= year <= 9_999
    } else if y == 6 {
        10_000 <= year <= 99_999
    } else {
        100_000 <= year <= 262_142
    }
}

/// `t` writes a time from 1970 on as `<year>-MM-DDThh:mm:ss.mmmZ`: a day of
/// the calendar, and a time of that day.
pub open spec fn utc_millis_text(t: Seq<char>) -> bool {
    let y = t.len() - 20;
    &&& year_text(t, y)
    &&& year_in_range(year_value(t, y), y)
    &&& t[y] == '-'
    &&& calendar::two_digits(t, y + 1)
    &&& t[y + 3] == '-'
    &&& calendar::two_digits(t, y + 4)
    &&& calendar::day_exists(
        year_value(t, y),
        calendar::two_digit_value(t, y + 1),
        calendar::two_digit_value(t, y + 4),
    )
    &&& t[y + 6] == 'T'
    &&& calendar::two_digits(t, y + 7)
    &&& calendar::two_digit_value(t, y + 7) <= 23
    &&& t[y + 9] == ':'
    &&& calendar::two_digits(t, y + 10)
    &&& calendar::two_digit_value(t, y + 10) <= 59
    &&& t[y + 12] == ':'
    &&& calendar::two_digits(t, y + 13)
    &&& calendar::two_digit_value(t, y + 13) <= 59
    &&& t[y + 15] == '.'
    &&& calendar::two_digits(t, y + 16)
    &&& calendar::digit(t[y + 18])
    &&& t[y + 19] == 'Z'
}

/// Calls `chrono::Utc::now` and `DateTime::timestamp`. Claims of every
/// reading that it lies between 1970 and the end of the range of
/// `DateTime<Utc>`, and marks it as a reading; which one comes back is up to
/// the machine's clock. On a clock set before 1970 or past the end of the range
/// the call does not return.
#[verifier::external_body]
pub(crate) fn unix_now() -> (seconds: i64)
    ensures
        0 <= seconds <= MAX_UNIX_SECONDS,
        reading::clock_seconds(seconds as int),
{
    chrono::Utc::now().timestamp()
}

/// Calls `chrono::Utc::now` and `DateTime::to_rfc3339_opts`, with
/// milliseconds and the `Z` suffix. Claims the form of the text for every
/// reading, and that it names a day of the calendar from 1970 on and a time of
/// that day, and marks it as a reading; which one comes back is up to the
/// machine's clock, which has no leap seconds. On a clock set before 1970 or
/// past the end of the range of `DateTime<Utc>` the call does not return.
#[verifier::external_body]
pub(crate) fn now_rfc3339() -> (text: String)
    ensures
        utc_millis_text(text@),
        reading::clock_text(text@),
{
    chrono::Utc::now().to_rfc3339_opts(chrono::SecondsFormat::Millis, true)
}

} // verus!
