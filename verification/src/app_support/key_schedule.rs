//! The daily data-key schedule: the key id of each day and when its key expires.
use vstd::prelude::*;

use crate::app_support::calendar::{civil_from_days, civil_from_days_spec};
use crate::domain::timestamp::MAX_CLOCK_SECONDS;
use crate::domain::Timestamp;
use crate::app_support::calendar::lemma_civil_from_days;
use crate::text::{
    lemma_zero_padded_len, lemma_zero_padded_value, pow10, push_signed_zero_padded, push_zero_padded,
    signed_zero_padded, zero_padded,
};

verus! {

/// Seconds in a day.
pub const SECONDS_PER_DAY: u64 = 86_400;

/// The key id of a date: `datakey-YYYY-MM-DD`, with the year, month and day zero-padded to
/// four, two and two places (a negative year keeps its sign within the four places).
pub open spec fn key_id_text(year: i32, month: u32, day: u32) -> Seq<char> {
    "datakey-"@ + signed_zero_padded(year as int, 4) + "-"@ + zero_padded(month as nat, 2) + "-"@
        + zero_padded(day as nat, 2)
}

/// The key id of the day with number `day_index` (days since 1970-01-01): that of its
/// calendar date, the year taken as an `i32`.
pub open spec fn key_id_for_day(day_index: int) -> Seq<char> {
    let (year, month, day) = civil_from_days_spec(day_index);
    key_id_text(year as i32, month as u32, day as u32)
}

proof fn lemma_key_id_text_injective(y1: i32, m1: u32, d1: u32, y2: i32, m2: u32, d2: u32)
    requires
        0 <= y1,
        0 <= y2,
        1 <= m1 <= 12,
        1 <= m2 <= 12,
        1 <= d1 <= 31,
        1 <= d2 <= 31,
        key_id_text(y1, m1, d1) == key_id_text(y2, m2, d2),
    ensures
        y1 == y2,
        m1 == m2,
        d1 == d2,
{
    reveal_strlit("datakey-");
    reveal_strlit("-");
    assert(pow10(2) == 100) by { reveal_with_fuel(pow10, 3); }
    lemma_zero_padded_len(m1 as nat, 2);
    lemma_zero_padded_len(m2 as nat, 2);
    lemma_zero_padded_len(d1 as nat, 2);
    lemma_zero_padded_len(d2 as nat, 2);
    lemma_zero_padded_value(y1 as nat, 4);
    lemma_zero_padded_value(y2 as nat, 4);
    lemma_zero_padded_value(m1 as nat, 2);
    lemma_zero_padded_value(m2 as nat, 2);
    lemma_zero_padded_value(d1 as nat, 2);
    lemma_zero_padded_value(d2 as nat, 2);
    let t = key_id_text(y1, m1, d1);
    let py1 = zero_padded(y1 as nat, 4);
    let py2 = zero_padded(y2 as nat, 4);
    let l = py1.len() as int;
    assert(signed_zero_padded(y1 as int, 4) == py1);
    assert(signed_zero_padded(y2 as int, 4) == py2);
    assert(t.len() == 14 + l);
    assert(key_id_text(y2, m2, d2).len() == 14 + py2.len());
    assert(py1.len() == py2.len());
    assert(t.subrange(8, 8 + l) =~= py1);
    assert(t.subrange(8, 8 + l) =~= py2);
    assert(t.subrange(9 + l, 11 + l) =~= zero_padded(m1 as nat, 2));
    assert(t.subrange(9 + l, 11 + l) =~= zero_padded(m2 as nat, 2));
    assert(t.subrange(12 + l, 14 + l) =~= zero_padded(d1 as nat, 2));
    assert(t.subrange(12 + l, 14 + l) =~= zero_padded(d2 as nat, 2));
}

proof fn lemma_year_after_epoch(day_index: int)
    requires
        day_index >= 0,
    ensures
        civil_from_days_spec(day_index).0 >= 1600,
{
}

/// Days with different numbers have different key ids, as long as their years fit in an `i32`.
pub proof fn lemma_key_id_for_day_injective(first_day: int, second_day: int)
    requires
        first_day >= 0,
        second_day >= 0,
        first_day != second_day,
        civil_from_days_spec(first_day).0 <= i32::MAX,
        civil_from_days_spec(second_day).0 <= i32::MAX,
    ensures
        key_id_for_day(first_day) != key_id_for_day(second_day),
{
    lemma_year_after_epoch(first_day);
    lemma_year_after_epoch(second_day);
    lemma_civil_from_days(first_day);
    lemma_civil_from_days(second_day);
    let (y1, m1, d1) = civil_from_days_spec(first_day);
    let (y2, m2, d2) = civil_from_days_spec(second_day);
    if key_id_for_day(first_day) == key_id_for_day(second_day) {
        lemma_key_id_text_injective(y1 as i32, m1 as u32, d1 as u32, y2 as i32, m2 as u32, d2 as u32);
        assert(y1 == y2 && m1 == m2 && d1 == d2);
    }
}

/// Writes the key id of a date.
pub fn format_key_id(year: i32, month: u32, day: u32) -> (s: String)
    ensures
        s@ == key_id_text(year, month, day),
{
    let mut s = String::from_str("datakey-");
    push_signed_zero_padded(&mut s, year as i64, 4);
    s.append("-");
    push_zero_padded(&mut s, month as u64, 2);
    s.append("-");
    push_zero_padded(&mut s, day as u64, 2);
    s
}

/// The key id of the day containing `timestamp`; a timestamp before the epoch counts as
/// the epoch's day.
pub open spec fn timestamp_key_id(timestamp: Timestamp) -> Seq<char> {
    key_id_for_day(if timestamp.seconds() >= 0 { timestamp.seconds() / SECONDS_PER_DAY as int } else { 0 })
}

/// The key id of the day containing `timestamp`; a timestamp before the epoch counts as
/// the epoch's day.
pub fn key_id_for_timestamp(timestamp: Timestamp) -> (s: String)
    ensures
        s@ == timestamp_key_id(timestamp),
{
    let seconds_since_epoch: u64 = match timestamp.whole_seconds_since_epoch() {
        Some(seconds) => seconds,
        None => 0,
    };
    let day_index: u64 = seconds_since_epoch / SECONDS_PER_DAY;
    let (year, month, day) = civil_from_days(day_index as i64);
    format_key_id(year, month, day)
}

/// Which data key a moment belongs to: the key id of its day, and the start of the next
/// day, when that key expires.
pub struct KeySchedule {
    pub key_id: String,
    pub expires_at: Timestamp,
}

/// Why no key schedule exists for a timestamp.
#[derive(Debug, Clone, Copy, PartialEq, Eq, Structural)]
pub enum KeyScheduleError {
    /// The timestamp lies before the Unix epoch.
    InvalidTimestamp,
    /// The start of the next day is beyond what the clock can hold.
    TimeCalculationFailed,
}

/// The schedule of a timestamp: its day's key id and the whole seconds from the epoch at
/// which that day ends.
pub open spec fn key_schedule_spec(timestamp: Timestamp) -> Result<(Seq<char>, int), KeyScheduleError> {
    if timestamp.seconds() < 0 {
        Err(KeyScheduleError::InvalidTimestamp)
    } else {
        let day_index = timestamp.seconds() / SECONDS_PER_DAY as int;
        let next_day = (day_index + 1) * SECONDS_PER_DAY;
        if next_day > MAX_CLOCK_SECONDS {
            Err(KeyScheduleError::TimeCalculationFailed)
        } else {
            Ok((key_id_for_day(day_index), next_day))
        }
    }
}

impl KeySchedule {
    /// The schedule of `timestamp`.
    pub fn from_timestamp(timestamp: Timestamp) -> (r: Result<KeySchedule, KeyScheduleError>)
        ensures
            match key_schedule_spec(timestamp) {
                Ok((key_id, expires)) => r matches Ok(schedule) && schedule.key_id@ == key_id
                    && schedule.expires_at.seconds() == expires && schedule.expires_at.nanos() == 0,
                Err(e) => r == Err::<KeySchedule, KeyScheduleError>(e),
            },
    {
        let seconds_since_epoch: u64 = match timestamp.whole_seconds_since_epoch() {
            Some(seconds) => seconds,
            None => return Err(KeyScheduleError::InvalidTimestamp),
        };
        let day_index: u64 = seconds_since_epoch / SECONDS_PER_DAY;
        let (year, month, day) = civil_from_days(day_index as i64);
        let next_day_seconds: u64 = match day_index.checked_add(1) {
            Some(next_day) => match next_day.checked_mul(SECONDS_PER_DAY) {
                Some(seconds) => seconds,
                None => return Err(KeyScheduleError::TimeCalculationFailed),
            },
            None => return Err(KeyScheduleError::TimeCalculationFailed),
        };
        if next_day_seconds > MAX_CLOCK_SECONDS {
            return Err(KeyScheduleError::TimeCalculationFailed);
        }
        Ok(KeySchedule { key_id: format_key_id(year, month, day), expires_at: Timestamp::from_unix_seconds(next_day_seconds) })
    }
}

} // verus!