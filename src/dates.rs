//! Calendar dates and wall-clock times as plain values, with the Gregorian
//! calendar rules that chrono applies to them.
use chrono::{Datelike, Timelike};
use crate::text::{decimal, zero_pad};
use vstd::prelude::*;

verus! {

/// The earliest year of a date that chrono can represent.
pub const MIN_YEAR: i32 = -262143;

/// The latest year of a date that chrono can represent.
pub const MAX_YEAR: i32 = 262142;

/// A day of the proleptic Gregorian calendar.
#[derive(Clone, Copy, Debug, PartialEq, Eq, Structural)]
pub struct Date {
    pub year: i32,
    pub month: u32,
    pub day: u32,
}

/// A time of day, to the minute.
#[derive(Clone, Copy, Debug, PartialEq, Eq, Structural)]
pub struct Time {
    pub hour: u32,
    pub minute: u32,
}

impl View for Date {
    type V = (int, int, int);

    open spec fn view(&self) -> (int, int, int) {
        (self.year as int, self.month as int, self.day as int)
    }
}

impl Date {
    /// The date that `ymd` names, as stored.
    pub open spec fn of(ymd: (int, int, int)) -> Date {
        Date { year: ymd.0 as i32, month: ymd.1 as u32, day: ymd.2 as u32 }
    }

    pub open spec fn wf(self) -> bool {
        valid_ymd(self@)
    }
}

impl Time {
    pub open spec fn wf(self) -> bool {
        self.hour < 24 && self.minute < 60
    }
}

pub open spec fn is_leap_year(y: int) -> bool {
    (y % 4 == 0 && y % 100 != 0) || y % 400 == 0
}

pub open spec fn days_in_month(y: int, m: int) -> int {
    if m == 2 {
        if is_leap_year(y) {
            29
        } else {
            28
        }
    } else if m == 4 || m == 6 || m == 9 || m == 11 {
        30
    } else {
        31
    }
}

/// Year, month and day name a day that exists and that chrono can represent.
pub open spec fn valid_ymd(ymd: (int, int, int)) -> bool {
    &&& MIN_YEAR <= ymd.0 <= MAX_YEAR
    &&& 1 <= ymd.1 <= 12
    &&& 1 <= ymd.2 <= days_in_month(ymd.0, ymd.1)
}

/// The day after `ymd`.
pub open spec fn next_day(ymd: (int, int, int)) -> (int, int, int) {
    if ymd.2 < days_in_month(ymd.0, ymd.1) {
        (ymd.0, ymd.1, ymd.2 + 1)
    } else if ymd.1 < 12 {
        (ymd.0, ymd.1 + 1, 1)
    } else {
        (ymd.0 + 1, 1, 1)
    }
}

/// The day `n` days after `ymd`.
pub open spec fn plus_days(ymd: (int, int, int), n: nat) -> (int, int, int)
    decreases n,
{
    if n == 0 {
        ymd
    } else {
        plus_days(next_day(ymd), (n - 1) as nat)
    }
}

/// The first day of the Unix epoch, 1 January 1970.
pub open spec fn epoch_day() -> (int, int, int) {
    (1970, 1, 1)
}

/// The day before `ymd`.
pub open spec fn prev_day(ymd: (int, int, int)) -> (int, int, int) {
    if ymd.2 > 1 {
        (ymd.0, ymd.1, ymd.2 - 1)
    } else if ymd.1 > 1 {
        (ymd.0, ymd.1 - 1, days_in_month(ymd.0, ymd.1 - 1))
    } else {
        (ymd.0 - 1, 12, 31)
    }
}

/// The day `n` days before `ymd`.
pub open spec fn minus_days(ymd: (int, int, int), n: nat) -> (int, int, int)
    decreases n,
{
    if n == 0 {
        ymd
    } else {
        minus_days(prev_day(ymd), (n - 1) as nat)
    }
}

proof fn lemma_next_day_valid(ymd: (int, int, int))
    requires
        valid_ymd(ymd),
        next_day(ymd).0 <= MAX_YEAR,
    ensures
        valid_ymd(next_day(ymd)),
        next_day(ymd).0 >= ymd.0,
{
}

proof fn lemma_plus_days_year_grows(ymd: (int, int, int), n: nat)
    ensures
        plus_days(ymd, n).0 >= ymd.0,
    decreases n,
{
    if n > 0 {
        lemma_plus_days_year_grows(next_day(ymd), (n - 1) as nat);
    }
}

/// Counting days forward from a valid date gives a valid date, as long as the
/// year stays within chrono's range.
pub proof fn lemma_plus_days_valid(ymd: (int, int, int), n: nat)
    requires
        valid_ymd(ymd),
        plus_days(ymd, n).0 <= MAX_YEAR,
    ensures
        valid_ymd(plus_days(ymd, n)),
        Date::of(plus_days(ymd, n))@ == plus_days(ymd, n),
        Date::of(plus_days(ymd, n)).wf(),
    decreases n,
{
    if n > 0 {
        lemma_plus_days_year_grows(next_day(ymd), (n - 1) as nat);
        lemma_next_day_valid(ymd);
        lemma_plus_days_valid(next_day(ymd), (n - 1) as nat);
    }
}

/// Relies on `chrono::NaiveDate::from_ymd_opt`: a date exists for a month in
/// 1..=12, a day within that month's length and a year within chrono's range,
/// and holds the three numbers it was made from.
#[verifier::external_body]
pub(crate) fn calendar_date(year: i32, month: u32, day: u32) -> (r: Option<Date>)
    ensures
        r == (if valid_ymd((year as int, month as int, day as int)) {
            Some(Date { year, month, day })
        } else {
            None
        }),
{
    match chrono::NaiveDate::from_ymd_opt(year, month, day) {
        Some(d) => Some(Date { year: d.year(), month: d.month(), day: d.day() }),
        None => None,
    }
}

/// Relies on `chrono::NaiveDate::checked_add_days`: the day `n` days after
/// `d`, or nothing where that day lies beyond chrono's last year.
#[verifier::external_body]
pub(crate) fn add_days(d: Date, n: u64) -> (r: Option<Date>)
    requires
        d.wf(),
    ensures
        r == (if plus_days(d@, n as nat).0 <= MAX_YEAR {
            Some(Date::of(plus_days(d@, n as nat)))
        } else {
            None
        }),
{
    let later = match chrono::NaiveDate::from_ymd_opt(d.year, d.month, d.day) {
        Some(x) => x.checked_add_days(chrono::Days::new(n)),
        None => None,
    };
    match later {
        Some(x) => Some(Date { year: x.year(), month: x.month(), day: x.day() }),
        None => None,
    }
}

/// Relies on `chrono::NaiveDate::checked_sub_days`: the day `n` days before
/// `d`, or nothing where that day lies before chrono's first year.
#[verifier::external_body]
pub(crate) fn sub_days(d: Date, n: u64) -> (r: Option<Date>)
    requires
        d.wf(),
    ensures
        r == (if minus_days(d@, n as nat).0 >= MIN_YEAR {
            Some(Date::of(minus_days(d@, n as nat)))
        } else {
            None
        }),
{
    let earlier = match chrono::NaiveDate::from_ymd_opt(d.year, d.month, d.day) {
        Some(x) => x.checked_sub_days(chrono::Days::new(n)),
        None => None,
    };
    match earlier {
        Some(x) => Some(Date { year: x.year(), month: x.month(), day: x.day() }),
        None => None,
    }
}

/// Relies on `chrono::DateTime::from_timestamp`: the UTC date of the instant
/// `secs` seconds after the start of 1970, which is that many whole days after
/// 1 January 1970, or nothing where it lies beyond chrono's last year.
#[verifier::external_body]
pub(crate) fn utc_date_of_timestamp(secs: i64) -> (r: Option<Date>)
    requires
        secs >= 0,
    ensures
        r == (if plus_days(epoch_day(), (secs / 86400) as nat).0 <= MAX_YEAR {
            Some(Date::of(plus_days(epoch_day(), (secs / 86400) as nat)))
        } else {
            None
        }),
{
    match chrono::DateTime::from_timestamp(secs, 0) {
        Some(t) => {
            let d = t.date_naive();
            Some(Date { year: d.year(), month: d.month(), day: d.day() })
        },
        None => None,
    }
}

/// The hour and minute that `chrono::NaiveTime::parse_from_str(s, "%H:%M")`
/// reads from `s`, if it reads a time.
pub uninterp spec fn clock_reading(s: Seq<char>) -> Option<(u32, u32)>;

/// Relies on `chrono::NaiveTime::parse_from_str` with the format `"%H:%M"`:
/// what it reads depends on `s` alone, and a time has an hour below 24 and a
/// minute below 60.
#[verifier::external_body]
pub(crate) fn read_clock(s: &str) -> (r: Option<Time>)
    ensures
        r == (match clock_reading(s@) {
            Some(hm) => Some(Time { hour: hm.0, minute: hm.1 }),
            None => None,
        }),
        r matches Some(t) ==> t.wf(),
{
    match chrono::NaiveTime::parse_from_str(s, "%H:%M") {
        Ok(t) => Some(Time { hour: t.hour(), minute: t.minute() }),
        Err(_) => None,
    }
}

/// A year as chrono's `%Y` writes it: four digits, zero-padded, with a sign
/// before years outside 0 to 9999.
pub open spec fn year_text(y: int) -> Seq<char> {
    if 0 <= y <= 9999 {
        zero_pad(decimal(y as nat), 4)
    } else if y < 0 {
        "-"@ + zero_pad(decimal((-y) as nat), 4)
    } else {
        "+"@ + zero_pad(decimal(y as nat), 4)
    }
}

/// A date as chrono's `format("%Y%m%d")` writes it.
pub open spec fn date_stamp_of(year: i32, month: u32, day: u32) -> Seq<char> {
    year_text(year as int) + zero_pad(decimal(month as nat), 2) + zero_pad(decimal(day as nat), 2)
}

/// A time of day as chrono's `format("%H%M")` writes it.
pub open spec fn time_stamp_of(hour: u32, minute: u32) -> Seq<char> {
    zero_pad(decimal(hour as nat), 2) + zero_pad(decimal(minute as nat), 2)
}

/// Relies on `chrono::NaiveDate::format` with `"%Y%m%d"`: the year as `%Y`
/// writes it, then month and day as two digits each. The date is made with
/// `chrono::NaiveDate::from_ymd_opt`, which gives one exactly for a valid date.
#[verifier::external_body]
pub(crate) fn format_date(d: Date) -> (r: Option<String>)
    ensures
        r is Some <==> d.wf(),
        r matches Some(s) ==> s@ == date_stamp_of(d.year, d.month, d.day),
{
    match chrono::NaiveDate::from_ymd_opt(d.year, d.month, d.day) {
        Some(x) => Some(x.format("%Y%m%d").to_string()),
        None => None,
    }
}

/// Relies on `chrono::NaiveTime::format` with `"%H%M"`: hour and minute as
/// two digits each. The time is made with
/// `chrono::NaiveTime::from_hms_opt`, which gives one exactly for an hour
/// below 24 and a minute below 60.
#[verifier::external_body]
pub(crate) fn format_time(t: Time) -> (r: Option<String>)
    ensures
        r is Some <==> t.wf(),
        r matches Some(s) ==> s@ == time_stamp_of(t.hour, t.minute),
{
    match chrono::NaiveTime::from_hms_opt(t.hour, t.minute, 0) {
        Some(x) => Some(x.format("%H%M").to_string()),
        None => None,
    }
}

} // verus!
