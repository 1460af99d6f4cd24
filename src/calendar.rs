//! Calendar facts and decimal text used by the date rendering.
use vstd::prelude::*;

verus! {

/// The smallest year that a calendar date may carry.
pub const MIN_CALENDAR_YEAR: i32 = -262143;

/// The largest year that a calendar date may carry.
pub const MAX_CALENDAR_YEAR: i32 = 262142;

/// A calendar date, by numbers.
#[derive(Debug, Clone, Copy, PartialEq, Eq, Structural)]
pub struct CalendarDate {
    pub year: i32,
    pub month: u32,
    pub day: u32,
}

/// Whether `c` is an ASCII decimal digit.
pub open spec fn is_digit(c: char) -> bool {
    '0' <= c && c <= '9'
}

/// The value of one decimal digit.
pub open spec fn digit_value(c: char) -> nat {
    ((c as u32) - ('0' as u32)) as nat
}

/// Whether `s` is a non-empty run of decimal digits.
pub open spec fn is_decimal(s: Seq<char>) -> bool {
    s.len() > 0 && forall|i: int| 0 <= i < s.len() ==> is_digit(#[trigger] s[i])
}

/// The number written by the decimal digits `s`.
pub open spec fn decimal_value(s: Seq<char>) -> nat
    decreases s.len(),
{
    if s.len() == 0 {
        0
    } else {
        decimal_value(s.drop_last()) * 10 + digit_value(s.last())
    }
}

/// The number that `s` denotes, when it is a decimal that fits in a `u32`.
pub open spec fn decimal_u32(s: Seq<char>) -> Option<u32> {
    if is_decimal(s) && decimal_value(s) <= u32::MAX {
        Some(decimal_value(s) as u32)
    } else {
        None
    }
}

/// Gregorian leap years.
pub open spec fn is_leap_year(year: int) -> bool {
    (year % 4 == 0 && year % 100 != 0) || year % 400 == 0
}

/// The number of days of `month` in `year` (months are 1 to 12).
pub open spec fn days_in_month(year: int, month: int) -> int {
    if month == 2 {
        if is_leap_year(year) {
            29
        } else {
            28
        }
    } else if month == 4 || month == 6 || month == 9 || month == 11 {
        30
    } else {
        31
    }
}

/// Whether `year`-`month`-`day` is a day of the proleptic Gregorian calendar
/// within the supported range of years.
pub open spec fn is_calendar_date(year: int, month: int, day: int) -> bool {
    MIN_CALENDAR_YEAR <= year <= MAX_CALENDAR_YEAR && 1 <= month <= 12 && 1 <= day
        <= days_in_month(year, month)
}

/// Relies on chrono::NaiveDate::from_ymd_opt, which gives `Some` exactly for an
/// existing day of the proleptic Gregorian calendar whose year lies within
/// chrono's supported range.
#[verifier::external_body]
pub(crate) fn calendar_date_exists(year: i32, month: u32, day: u32) -> (r: bool)
    ensures
        r == is_calendar_date(year as int, month as int, day as int),
{
    chrono::NaiveDate::from_ymd_opt(year, month, day).is_some()
}

/// A decimal value never shrinks when digits are appended.
proof fn lemma_decimal_prefix_bound(s: Seq<char>, i: int)
    requires
        0 <= i <= s.len(),
        forall|j: int| 0 <= j < s.len() ==> is_digit(#[trigger] s[j]),
    ensures
        decimal_value(s.subrange(0, i)) <= decimal_value(s),
    decreases s.len() - i,
{
    if i < s.len() {
        lemma_decimal_prefix_bound(s, i + 1);
        assert(s.subrange(0, i + 1).drop_last() =~= s.subrange(0, i));
    } else {
        assert(s.subrange(0, i) =~= s);
    }
}

/// Reads a non-empty run of ASCII digits as a `u32`; anything else, or a value
/// too large for a `u32`, gives `None`.
pub fn parse_decimal(s: &str) -> (r: Option<u32>)
    ensures
        r == decimal_u32(s@),
{
    let n = s.unicode_len();
    if n == 0 {
        return None;
    }
    let mut acc: u64 = 0;
    let mut i: usize = 0;
    while i < n
        invariant
            n == s@.len(),
            0 <= i <= n,
            acc <= u32::MAX,
            acc == decimal_value(s@.subrange(0, i as int)),
            forall|j: int| 0 <= j < i ==> is_digit(#[trigger] s@[j]),
        decreases n - i,
    {
        let c = s.get_char(i);
        assert(s@.subrange(0, i + 1).drop_last() =~= s@.subrange(0, i as int));
        if c < '0' || c > '9' {
            return None;
        }
        let d = (c as u32 - '0' as u32) as u64;
        acc = acc * 10 + d;
        i = i + 1;
        if acc > u32::MAX as u64 {
            proof {
                if is_decimal(s@) {
                    lemma_decimal_prefix_bound(s@, i as int);
                }
            }
            return None;
        }
    }
    assert(s@.subrange(0, n as int) =~= s@);
    Some(acc as u32)
}

/// Whether `year`-`month`-`day` exists and is the last day of its month.
pub fn is_month_end(year: u32, month: u32, day: u32) -> (r: bool)
    ensures
        r == (is_calendar_date(year as int, month as int, day as int) && day == days_in_month(
            year as int,
            month as int,
        )),
{
    if year > MAX_CALENDAR_YEAR as u32 {
        return false;
    }
    if day >= 31 {
        // no month is longer than 31 days
        return calendar_date_exists(year as i32, month, day);
    }
    calendar_date_exists(year as i32, month, day) && !calendar_date_exists(
        year as i32,
        month,
        day + 1,
    )
}

/// The calendar date that three decimal texts name, if they name one.
pub open spec fn calendar_date_of(year: Seq<char>, month: Seq<char>, day: Seq<char>) -> Option<
    CalendarDate,
> {
    match (decimal_u32(year), decimal_u32(month), decimal_u32(day)) {
        (Some(y), Some(m), Some(d)) => if is_calendar_date(y as int, m as int, d as int) {
            Some(CalendarDate { year: y as i32, month: m, day: d })
        } else {
            None
        },
        _ => None,
    }
}

/// Reads a calendar date from the decimal texts of its year, month and day;
/// `None` when they are not decimals or name no day.
pub fn read_calendar_date(year: &str, month: &str, day: &str) -> (r: Option<CalendarDate>)
    ensures
        r == calendar_date_of(year@, month@, day@),
{
    match (parse_decimal(year), parse_decimal(month), parse_decimal(day)) {
        (Some(y), Some(m), Some(d)) => {
            if y > MAX_CALENDAR_YEAR as u32 {
                return None;
            }
            if calendar_date_exists(y as i32, m, d) {
                Some(CalendarDate { year: y as i32, month: m, day: d })
            } else {
                None
            }
        },
        _ => None,
    }
}

} // verus!
