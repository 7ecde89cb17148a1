//! Calendar days in the form `YYYY-MM-DD`.

use vstd::prelude::*;

verus! {

/// `c` is a decimal digit.
pub open spec fn digit(c: char) -> bool {
    '0' <= c <= '9'
}

/// The value of the decimal digit `c`.
pub open spec fn digit_value(c: char) -> int {
    c as int - '0' as int
}

/// The two characters of `t` from position `i` on are decimal digits.
pub open spec fn two_digits(t: Seq<char>, i: int) -> bool {
    digit(t[i]) && digit(t[i + 1])
}

/// The number that the two digits of `t` from position `i` on write.
pub open spec fn two_digit_value(t: Seq<char>, i: int) -> int {
    10 * digit_value(t[i]) + digit_value(t[i + 1])
}

/// The four characters of `t` from position `i` on are decimal digits.
pub open spec fn four_digits(t: Seq<char>, i: int) -> bool {
    two_digits(t, i) && two_digits(t, i + 2)
}

/// The number that the four digits of `t` from position `i` on write.
pub open spec fn four_digit_value(t: Seq<char>, i: int) -> int {
    100 * two_digit_value(t, i) + two_digit_value(t, i + 2)
}

/// `year` has a 29 February in the Gregorian calendar.
pub open spec fn leap_year(year: int) -> bool {
    year % 4 == 0 && (year % 100 != 0 || year % 400 == 0)
}

/// The number of days of a month, January being month 1.
pub open spec fn month_length(year: int, month: int) -> int {
    if month == 2 {
        if leap_year(year) {
            29
        } else {
            28
        }
    } else if month == 4 || month == 6 || month == 9 || month == 11 {
        30
    } else {
        31
    }
}

/// The Gregorian calendar has the given day.
pub open spec fn day_exists(year: int, month: int, day: int) -> bool {
    1 <= month <= 12 && 1 <= day <= month_length(year, month)
}

/// `d` writes a day of the Gregorian calendar as `YYYY-MM-DD`.
pub open spec fn calendar_day(d: Seq<char>) -> bool {
    &&& d.len() == 10
    &&& four_digits(d, 0)
    &&& d[4] == '-'
    &&& two_digits(d, 5)
    &&& d[7] == '-'
    &&& two_digits(d, 8)
    &&& day_exists(four_digit_value(d, 0), two_digit_value(d, 5), two_digit_value(d, 8))
}

/// The number that two characters write, if both are decimal digits.
fn read_two(tens: char, ones: char) -> (r: Option<u32>)
    ensures
        r == (if digit(tens) && digit(ones) {
            Some((10 * digit_value(tens) + digit_value(ones)) as u32)
        } else {
            None::<u32>
        }),
        r matches Some(n) ==> n == 10 * digit_value(tens) + digit_value(ones) && n <= 99,
{
    if '0' <= tens && tens <= '9' && '0' <= ones && ones <= '9' {
        let t: u32 = tens as u32 - '0' as u32;
        let o: u32 = ones as u32 - '0' as u32;
        Some(10 * t + o)
    } else {
        None
    }
}

/// The number of days of a month.
fn days_of_month(year: u32, month: u32) -> (r: u32)
    ensures
        r == month_length(year as int, month as int),
{
    if month == 2 {
        if year % 4 == 0 && (year % 100 != 0 || year % 400 == 0) {
            29
        } else {
            28
        }
    } else if month == 4 || month == 6 || month == 9 || month == 11 {
        30
    } else {
        31
    }
}

/// Whether `d` writes a calendar day as `YYYY-MM-DD`.
pub fn is_calendar_day(d: &str) -> (r: bool)
    ensures
        r == calendar_day(d@),
{
    if d.unicode_len() != 10 || d.get_char(4) != '-' || d.get_char(7) != '-' {
        return false;
    }
    let century = read_two(d.get_char(0), d.get_char(1));
    let rest = read_two(d.get_char(2), d.get_char(3));
    let month = read_two(d.get_char(5), d.get_char(6));
    let day = read_two(d.get_char(8), d.get_char(9));
    match (century, rest, month, day) {
        (Some(century), Some(rest), Some(month), Some(day)) => {
            let year: u32 = 100 * century + rest;
            1 <= month && month <= 12 && 1 <= day && day <= days_of_month(year, month)
        },
        _ => false,
    }
}

/// A calendar day holds digits and `-` only.
pub proof fn law_calendar_day_charset(d: Seq<char>)
    requires
        calendar_day(d),
    ensures
        forall|i: int| 0 <= i < d.len() ==> digit(#[trigger] d[i]) || d[i] == '-',
        !d.contains('/'),
{
    assert forall|i: int| 0 <= i < d.len() implies digit(#[trigger] d[i]) || d[i] == '-' by {
        assert(d[0] == d[i] || d[1] == d[i] || d[2] == d[i] || d[3] == d[i] || d[4] == d[i] || d[5]
            == d[i] || d[6] == d[i] || d[7] == d[i] || d[8] == d[i] || d[9] == d[i]);
    }
}

} // verus!
