//! Calendar dates written as `YYYY-MM-DD`.
use vstd::prelude::*;
use vstd::string::StringSliceAdditionalSpecFns;

verus! {

pub open spec fn is_digit_byte(b: u8) -> bool {
    48 <= b <= 57
}

pub open spec fn digit_value(b: u8) -> int {
    b - 48
}

/// Ten bytes, `-` at positions 4 and 7, ASCII digits everywhere else.
pub open spec fn iso_shape(b: Seq<u8>) -> bool {
    &&& b.len() == 10
    &&& b[4] == 45u8
    &&& b[7] == 45u8
    &&& forall|i: int| 0 <= i < 10 && i != 4 && i != 7 ==> is_digit_byte(#[trigger] b[i])
}

pub open spec fn iso_year(b: Seq<u8>) -> int {
    digit_value(b[0]) * 1000 + digit_value(b[1]) * 100 + digit_value(b[2]) * 10 + digit_value(b[3])
}

pub open spec fn iso_month(b: Seq<u8>) -> int {
    digit_value(b[5]) * 10 + digit_value(b[6])
}

pub open spec fn iso_day(b: Seq<u8>) -> int {
    digit_value(b[8]) * 10 + digit_value(b[9])
}

/// Gregorian leap years.
pub open spec fn is_leap_year(year: int) -> bool {
    year % 4 == 0 && (year % 100 != 0 || year % 400 == 0)
}

/// The number of days of a month, or 0 when `month` is not in `1..=12`.
pub open spec fn days_in_month(year: int, month: int) -> int {
    if month == 1 || month == 3 || month == 5 || month == 7 || month == 8 || month == 10 || month
        == 12 {
        31
    } else if month == 4 || month == 6 || month == 9 || month == 11 {
        30
    } else if month == 2 {
        if is_leap_year(year) {
            29
        } else {
            28
        }
    } else {
        0
    }
}

/// The bytes spell a real calendar date after year 0 as `YYYY-MM-DD`.
pub open spec fn iso_date_ok(b: Seq<u8>) -> bool {
    &&& iso_shape(b)
    &&& iso_year(b) > 0
    &&& 1 <= iso_day(b) <= days_in_month(iso_year(b), iso_month(b))
}

/// Checks that `value` is a real calendar date written as `YYYY-MM-DD`.
pub fn valid_iso_date(value: &str) -> (ok: bool)
    ensures
        ok == iso_date_ok(value.spec_bytes()),
{
    let bytes = value.as_bytes();
    if bytes.len() != 10 || bytes[4] != 45u8 || bytes[7] != 45u8 {
        return false;
    }
    let mut i: usize = 0;
    while i < 10
        invariant
            bytes@.len() == 10,
            bytes@ == value.spec_bytes(),
            i <= 10,
            forall|k: int| 0 <= k < i && k != 4 && k != 7 ==> is_digit_byte(#[trigger] bytes@[k]),
        decreases 10 - i,
    {
        if i != 4 && i != 7 && !(48u8 <= bytes[i] && bytes[i] <= 57u8) {
            assert(!is_digit_byte(bytes@[i as int]));
            return false;
        }
        i = i + 1;
    }
    assert(is_digit_byte(bytes@[0]) && is_digit_byte(bytes@[1]) && is_digit_byte(bytes@[2])
        && is_digit_byte(bytes@[3]) && is_digit_byte(bytes@[5]) && is_digit_byte(bytes@[6])
        && is_digit_byte(bytes@[8]) && is_digit_byte(bytes@[9]));
    let year: u32 = (bytes[0] - 48) as u32 * 1000 + (bytes[1] - 48) as u32 * 100 + (bytes[2]
        - 48) as u32 * 10 + (bytes[3] - 48) as u32;
    let month: u32 = (bytes[5] - 48) as u32 * 10 + (bytes[6] - 48) as u32;
    let day: u32 = (bytes[8] - 48) as u32 * 10 + (bytes[9] - 48) as u32;
    let leap = year % 4 == 0 && (year % 100 != 0 || year % 400 == 0);
    let days: u32 = if month == 1 || month == 3 || month == 5 || month == 7 || month == 8 || month
        == 10 || month == 12 {
        31
    } else if month == 4 || month == 6 || month == 9 || month == 11 {
        30
    } else if month == 2 {
        if leap {
            29
        } else {
            28
        }
    } else {
        return false;
    };
    year > 0 && 1 <= day && day <= days
}

/// A date written as the 29th of February is valid exactly in leap years.
pub proof fn law_leap_day(b: Seq<u8>)
    requires
        iso_shape(b),
        iso_year(b) > 0,
        iso_month(b) == 2,
        iso_day(b) == 29,
    ensures
        iso_date_ok(b) <==> is_leap_year(iso_year(b)),
{
}

/// The lengths of the months, month by month: January, March, May, July,
/// August, October and December have 31 days; April, June, September and
/// November have 30; February has 29 in Gregorian leap years and 28
/// otherwise; no other month number is a date.
pub proof fn law_month_lengths(b: Seq<u8>)
    requires
        iso_shape(b),
        iso_year(b) > 0,
    ensures
        ({
            let m = iso_month(b);
            m == 1 || m == 3 || m == 5 || m == 7 || m == 8 || m == 10 || m == 12
        }) ==> (iso_date_ok(b) <==> 1 <= iso_day(b) <= 31),
        ({
            let m = iso_month(b);
            m == 4 || m == 6 || m == 9 || m == 11
        }) ==> (iso_date_ok(b) <==> 1 <= iso_day(b) <= 30),
        iso_month(b) == 2 ==> (iso_date_ok(b) <==> (1 <= iso_day(b) <= 28 || (iso_day(b) == 29 && (
        iso_year(b) % 4 == 0 && (iso_year(b) % 100 != 0 || iso_year(b) % 400 == 0))))),
        (iso_month(b) < 1 || iso_month(b) > 12) ==> !iso_date_ok(b),
{
}

/// The 31st is a valid day exactly in January, March, May, July, August,
/// October and December.
pub proof fn law_day_31(b: Seq<u8>)
    requires
        iso_shape(b),
        iso_year(b) > 0,
        iso_day(b) == 31,
    ensures
        iso_date_ok(b) <==> ({
            let m = iso_month(b);
            m == 1 || m == 3 || m == 5 || m == 7 || m == 8 || m == 10 || m == 12
        }),
{
}

/// A valid date never has a month outside `1..=12` nor a day beyond 31.
pub proof fn law_date_ranges(b: Seq<u8>)
    requires
        iso_date_ok(b),
    ensures
        1 <= iso_month(b) <= 12,
        1 <= iso_day(b) <= 31,
{
}

} // verus!
