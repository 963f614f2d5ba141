//! Dates with a time of day, written as `YYYY-MM-DD HH:MI:SS`.

use crate::number::{digit_value, is_digit, Malformed};
use crate::text::to_chars;
use vstd::prelude::*;

verus! {

/// A date and a time of day, in UTC.
#[derive(Debug, Clone, Copy, PartialEq, Eq, Structural)]
pub struct DateTime {
    pub year: u16,
    pub month: u8,
    pub day: u8,
    pub hour: u8,
    pub minute: u8,
    pub second: u8,
}

/// Whether `year` has a 29th of February.
pub open spec fn is_leap_year(year: int) -> bool {
    year % 4 == 0 && (year % 100 != 0 || year % 400 == 0)
}

/// The number of days of the month `month` of `year`.
pub open spec fn days_in_month(year: int, month: int) -> int {
    if month == 2 {
        if is_leap_year(year) {
            29
        } else {
            28
        }
    } else if month == 4 || month == 6 || month == 9 || month == 11 {
        30
    } else {
        31
    }
}

impl DateTime {
    /// Well-formedness: the fields name a day of the calendar and a time of day.
    pub open spec fn wf(self) -> bool {
        &&& self.year <= 9999
        &&& 1 <= self.month <= 12
        &&& 1 <= self.day <= days_in_month(self.year as int, self.month as int)
        &&& self.hour <= 23
        &&& self.minute <= 59
        &&& self.second <= 59
    }
}

/// The number that the two digits at `at` write.
pub open spec fn two_digits(s: Seq<char>, at: int) -> int {
    digit_value(s[at]) * 10 + digit_value(s[at + 1])
}

/// The number that the four digits at `at` write.
pub open spec fn four_digits(s: Seq<char>, at: int) -> int {
    two_digits(s, at) * 100 + two_digits(s, at + 2)
}

/// Whether `s` has digits and separators where `YYYY-MM-DD HH:MI:SS` has them.
pub open spec fn has_date_time_shape(s: Seq<char>) -> bool {
    &&& s.len() == 19
    &&& forall|i: int|
        0 <= i < 19 && i != 4 && i != 7 && i != 10 && i != 13 && i != 16 ==> is_digit(
            #[trigger] s[i],
        )
    &&& s[4] == '-'
    &&& s[7] == '-'
    &&& s[10] == ' '
    &&& s[13] == ':'
    &&& s[16] == ':'
}

/// The fields that a text of the right shape writes, whatever their ranges.
pub open spec fn date_time_fields(s: Seq<char>) -> DateTime {
    DateTime {
        year: four_digits(s, 0) as u16,
        month: two_digits(s, 5) as u8,
        day: two_digits(s, 8) as u8,
        hour: two_digits(s, 11) as u8,
        minute: two_digits(s, 14) as u8,
        second: two_digits(s, 17) as u8,
    }
}

/// The date and time that `s` writes: it has the shape `YYYY-MM-DD HH:MI:SS`
/// and names a day of the calendar and a time of day.
pub open spec fn date_time_of(s: Seq<char>) -> Option<DateTime> {
    if has_date_time_shape(s) && date_time_fields(s).wf() {
        Some(date_time_fields(s))
    } else {
        None
    }
}

/// Decides `is_leap_year`.
fn leap_year(year: u16) -> (r: bool)
    ensures
        r == is_leap_year(year as int),
{
    year % 4 == 0 && (year % 100 != 0 || year % 400 == 0)
}

/// Computes `days_in_month`.
fn month_days(year: u16, month: u8) -> (r: u8)
    ensures
        r == days_in_month(year as int, month as int),
{
    if month == 2 {
        if leap_year(year) {
            29
        } else {
            28
        }
    } else if month == 4 || month == 6 || month == 9 || month == 11 {
        30
    } else {
        31
    }
}

/// The digit at `at`, if there is one.
fn digit_at(v: &Vec<char>, at: usize) -> (r: Option<u16>)
    requires
        at < v.len(),
    ensures
        r is Some <==> is_digit(v@[at as int]),
        r matches Some(d) ==> d == digit_value(v@[at as int]) && d <= 9,
{
    let c: char = v[at];
    if '0' <= c && c <= '9' {
        Some((c as u32 - '0' as u32) as u16)
    } else {
        None
    }
}

/// The number of the two digits at `at`, if they are digits.
fn two_at(v: &Vec<char>, at: usize) -> (r: Option<u16>)
    requires
        at + 1 < v.len(),
    ensures
        r is Some <==> is_digit(v@[at as int]) && is_digit(v@[at + 1]),
        r matches Some(n) ==> n == two_digits(v@, at as int) && n <= 99,
{
    match (digit_at(v, at), digit_at(v, at + 1)) {
        (Some(a), Some(b)) => Some(a * 10 + b),
        _ => None,
    }
}

/// Reads a date with a time of day.
pub fn parse_date_time(s: &str) -> (r: Result<DateTime, Malformed>)
    ensures
        r is Ok <==> date_time_of(s@) is Some,
        r matches Ok(d) ==> Some(d) == date_time_of(s@) && d.wf(),
        r matches Err(e) ==> e.value@ == s@ && e.target@ == "date"@,
{
    let v = to_chars(s);
    if v.len() != 19 || v[4] != '-' || v[7] != '-' || v[10] != ' ' || v[13] != ':' || v[16]
        != ':' {
        return Err(Malformed { value: s.to_owned(), target: "date".to_owned() });
    }
    let parts = (
        two_at(&v, 0),
        two_at(&v, 2),
        two_at(&v, 5),
        two_at(&v, 8),
        two_at(&v, 11),
        two_at(&v, 14),
        two_at(&v, 17),
    );
    match parts {
        (
            Some(century),
            Some(years),
            Some(month),
            Some(day),
            Some(hour),
            Some(minute),
            Some(second),
        ) => {
            let year: u16 = century * 100 + years;
            if 1 <= month && month <= 12 && 1 <= day && day <= month_days(year, month as u8) as u16
                && hour <= 23 && minute <= 59 && second <= 59 {
                Ok(
                    DateTime {
                        year,
                        month: month as u8,
                        day: day as u8,
                        hour: hour as u8,
                        minute: minute as u8,
                        second: second as u8,
                    },
                )
            } else {
                Err(Malformed { value: s.to_owned(), target: "date".to_owned() })
            }
        },
        _ => {
            assert(!has_date_time_shape(s@)) by {
                if has_date_time_shape(s@) {
                    assert(is_digit(s@[0]) && is_digit(s@[1]));
                    assert(is_digit(s@[2]) && is_digit(s@[3]));
                    assert(is_digit(s@[5]) && is_digit(s@[6]));
                    assert(is_digit(s@[8]) && is_digit(s@[9]));
                    assert(is_digit(s@[11]) && is_digit(s@[12]) && is_digit(s@[14]) && is_digit(
                        s@[15],
                    ));
                    assert(is_digit(s@[17]) && is_digit(s@[18]));
                }
            }
            Err(Malformed { value: s.to_owned(), target: "date".to_owned() })
        },
    }
}

} // verus!
