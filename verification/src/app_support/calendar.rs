//! The proleptic Gregorian calendar: which civil date a day number is.
use vstd::prelude::*;


verus! {

/// Whether `year` is a leap year of the proleptic Gregorian calendar.
pub open spec fn is_leap_year(year: int) -> bool {
    year % 4 == 0 && (year % 100 != 0 || year % 400 == 0)
}

/// The number of days of `month` (1 to 12) in `year`.
pub open spec fn days_in_month(year: int, month: int) -> int {
    if month == 2 {
        if is_leap_year(year) { 29 } else { 28 }
    } else if month == 4 || month == 6 || month == 9 || month == 11 {
        30
    } else {
        31
    }
}

/// Whether `(year, month, day)` names a day of the calendar.
pub open spec fn valid_date(year: int, month: int, day: int) -> bool {
    1 <= month <= 12 && 1 <= day <= days_in_month(year, month)
}

/// The days of `year` before the first of `month`.
pub open spec fn days_before_month(year: int, month: int) -> int {
    let common: int = if month == 1 { 0 }
        else if month == 2 { 31 }
        else if month == 3 { 59 }
        else if month == 4 { 90 }
        else if month == 5 { 120 }
        else if month == 6 { 151 }
        else if month == 7 { 181 }
        else if month == 8 { 212 }
        else if month == 9 { 243 }
        else if month == 10 { 273 }
        else if month == 11 { 304 }
        else { 334 };
    if month > 2 && is_leap_year(year) { common + 1 } else { common }
}

/// The number of leap years from year 1 up to, not including, `year` (negative below year 1).
pub open spec fn leap_years_before(year: int) -> int {
    (year - 1) / 4 - (year - 1) / 100 + (year - 1) / 400
}

/// The day number of a date: days since 1970-01-01, negative before it.
pub open spec fn days_from_civil(year: int, month: int, day: int) -> int {
    365 * (year - 1970) + (leap_years_before(year) - leap_years_before(1970)) + days_before_month(year, month) + day - 1
}

/// The number of days of a year counted from March to the next February, `shifted_year`
/// being the year in which that March falls.
pub open spec fn march_year_length(shifted_year: int) -> int {
    if is_leap_year(shifted_year + 1) { 366 } else { 365 }
}

/// Days of the 400-year cycle before the March that starts year `yoe` of the cycle.
pub open spec fn days_before_march_year(yoe: int) -> int {
    365 * yoe + yoe / 4 - yoe / 100
}

proof fn lemma_year_of_era(doe: int, yoe: int)
    requires
        0 <= doe < 146097,
        yoe == (doe - doe / 1460 + doe / 36524 - doe / 146096) / 365,
    ensures
        0 <= yoe <= 399,
        days_before_march_year(yoe) <= doe,
        doe - days_before_march_year(yoe) < march_year_length(yoe),
{

}

/// The date of day number `days`, computed over March-based years in 400-year cycles
/// (146097 days each) counted from 0000-03-01.
pub open spec fn civil_from_days_spec(days: int) -> (int, int, int) {
    let z = days + 719468;
    let era = z / 146097;
    let doe = z - era * 146097;
    let yoe = (doe - doe / 1460 + doe / 36524 - doe / 146096) / 365;
    let doy = doe - days_before_march_year(yoe);
    let mp = (5 * doy + 2) / 153;
    let day = doy - (153 * mp + 2) / 5 + 1;
    let month = if mp < 10 { mp + 3 } else { mp - 9 };
    let year = yoe + era * 400 + if month <= 2 { 1int } else { 0 };
    (year, month, day)
}

proof fn lemma_month_of_march_year(doy: int, length: int)
    requires
        length == 365 || length == 366,
        0 <= doy < length,
    ensures
        0 <= (5 * doy + 2) / 153 <= 11,
        (153 * ((5 * doy + 2) / 153) + 2) / 5 <= doy,
        ({
            let mp = (5 * doy + 2) / 153;
            let day = doy - (153 * mp + 2) / 5 + 1;
            let month = if mp < 10 { mp + 3 } else { mp - 9 };
            &&& 1 <= day
            &&& month == 2 ==> day <= length - 337
            &&& (month == 4 || month == 6 || month == 9 || month == 11) ==> day <= 30
            &&& day <= 31
            &&& mp < 10 ==> (153 * mp + 2) / 5 + 59 == days_before_month(2001, month)
            &&& mp == 10 ==> (153 * mp + 2) / 5 == 306
            &&& mp == 11 ==> (153 * mp + 2) / 5 == 337
        }),
{
}

proof fn lemma_div_step(year: int, d: int)
    requires
        d == 4 || d == 100 || d == 400,
    ensures
        year / d - (year - 1) / d == if year % d == 0 { 1int } else { 0 },
{
    let q = (year - 1) / d;
    let r = (year - 1) % d;
    assert(year - 1 == d * q + r && 0 <= r < d);
    if r == d - 1 {
        assert(year == d * (q + 1));
        assert(year / d == q + 1);
        assert(year % d == 0);
    } else {
        assert(year == d * q + (r + 1));
        assert(year / d == q);
        assert(year % d == r + 1);
    }
}

#[verifier::spinoff_prover]
proof fn lemma_leap_years_step(year: int)
    ensures
        leap_years_before(year + 1) == leap_years_before(year) + if is_leap_year(year) { 1int } else { 0 },
{
    lemma_div_step(year, 4);
    lemma_div_step(year, 100);
    lemma_div_step(year, 400);
}

proof fn lemma_cycle_shift(era: int, yoe: int)
    requires
        0 <= yoe <= 399,
    ensures
        leap_years_before(yoe + era * 400 + 1) == 97 * era + yoe / 4 - yoe / 100,
        is_leap_year(yoe + era * 400 + 1) == is_leap_year(yoe + 1),
{
    let y = yoe + era * 400;
    assert(y / 4 == era * 100 + yoe / 4);
    assert(y / 100 == era * 4 + yoe / 100);
    assert(y / 400 == era);
    assert((y + 1) % 4 == (yoe + 1) % 4);
    assert((y + 1) % 100 == (yoe + 1) % 100);
    assert((y + 1) % 400 == (yoe + 1) % 400);
}

/// The day number `days` is the calendar date `civil_from_days_spec(days)`.
#[verifier::rlimit(100)]
pub proof fn lemma_civil_from_days(days: int)
    ensures
        ({
            let (year, month, day) = civil_from_days_spec(days);
            valid_date(year, month, day) && days_from_civil(year, month, day) == days
        }),
{
    let z = days + 719468;
    let era = z / 146097;
    let doe = z - era * 146097;
    assert(0 <= doe < 146097);
    let yoe = (doe - doe / 1460 + doe / 36524 - doe / 146096) / 365;
    lemma_year_of_era(doe, yoe);
    let doy = doe - days_before_march_year(yoe);
    lemma_month_of_march_year(doy, march_year_length(yoe));
    let mp = (5 * doy + 2) / 153;
    let day = doy - (153 * mp + 2) / 5 + 1;
    let month = if mp < 10 { mp + 3 } else { mp - 9 };
    let shifted = yoe + era * 400;
    lemma_cycle_shift(era, yoe);
    lemma_leap_years_step(shifted);
    let (year, m, d) = civil_from_days_spec(days);
    assert(m == month && d == day);
    if month <= 2 {
        assert(year == shifted + 1);
        assert(days_from_civil(year, month, day) == days);
    } else {
        assert(year == shifted);
        assert(days_before_month(year, month) == days_before_month(2001, month) + if is_leap_year(year) { 1int } else { 0 });
        assert(days_from_civil(year, month, day) == days);
    }
}

/// The calendar date `(year, month, day)` of day number `days_since_epoch` (days since
/// 1970-01-01). The year is returned as `i32`, truncated like an `as` cast where it does not fit.
pub fn civil_from_days(days_since_epoch: i64) -> (r: (i32, u32, u32))
    requires
        i64::MIN + 865564 <= days_since_epoch <= i64::MAX - 719468,
    ensures
        ({
            let (year, month, day) = civil_from_days_spec(days_since_epoch as int);
            &&& r.0 == year as i32
            &&& r.1 == month
            &&& r.2 == day
            &&& valid_date(year, month, day)
            &&& days_from_civil(year, month, day) == days_since_epoch
        }),
{
    proof { lemma_civil_from_days(days_since_epoch as int); }
    let z: i64 = days_since_epoch + 719_468;
    let era: i64 = if z >= 0 { z } else { z - 146_096 } / 146_097;
    assert(era == z as int / 146097);
    let doe: i64 = z - era * 146_097;
    let yoe: i64 = (doe - doe / 1_460 + doe / 36_524 - doe / 146_096) / 365;
    let doy: i64 = doe - (365 * yoe + yoe / 4 - yoe / 100);
    let mp: i64 = (5 * doy + 2) / 153;
    let day: i64 = doy - (153 * mp + 2) / 5 + 1;
    let month: i64 = mp + if mp < 10 { 3 } else { -9 };
    let year: i64 = yoe + era * 400 + if month <= 2 { 1 } else { 0 };
    (year as i32, month as u32, day as u32)
}

} // verus!
