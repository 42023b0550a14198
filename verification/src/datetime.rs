//! `DateTime`: a calendar date, a wall-clock time, or a UTC instant, held as
//! plain components. The calendar itself — validity of a date, shifting a
//! date by days, turning an instant into components — is chrono's work,
//! reached through trusted wrappers.
use crate::text::{chars_to_string, dec_nat, fmt_u128};
use chrono::{Datelike, TimeZone, Timelike};
use vstd::prelude::*;

verus! {

/// A calendar date: year, month (1 to 12) and day (1 to the month's length).
#[derive(Debug, Clone, Copy, PartialEq, Eq, Structural, Hash)]
pub struct CivilDate {
    pub year: i32,
    pub month: u32,
    pub day: u32,
}

/// A wall-clock time of day.
#[derive(Debug, Clone, Copy, PartialEq, Eq, Structural, Hash)]
pub struct WallTime {
    pub hour: u32,
    pub minute: u32,
    pub second: u32,
    pub nanosecond: u32,
}

/// A UTC instant: seconds since the epoch, with its civil components carried
/// alongside, as chrono resolved them.
#[derive(Debug, Clone, Copy, PartialEq, Eq, Structural, Hash)]
pub struct UtcMoment {
    pub secs: i64,
    pub nanosecond: u32,
    pub date: CivilDate,
    pub time: WallTime,
}

/// The marker of the one time zone instants carry.
#[derive(Debug, Clone, Copy, PartialEq, Eq, Structural)]
pub struct UtcZone;

/// A span of time: whole seconds and a nanosecond part below one billion.
#[derive(Debug, Clone, Copy, PartialEq, Eq, Structural)]
pub struct Duration {
    pub secs: i64,
    pub nanos: u32,
}

impl Duration {
    /// A span of the given number of days.
    pub fn days(n: i64) -> (r: Duration)
        requires
            i64::MIN as int <= n * 86400 <= i64::MAX as int,
        ensures
            r == (Duration { secs: (n * 86400) as i64, nanos: 0u32 }),
    {
        proof {
            assert(n * 86400 == 86400 * n) by (nonlinear_arith);
        }
        Duration { secs: n.checked_mul(86400).unwrap(), nanos: 0 }
    }

    /// A span of the given number of seconds.
    pub fn seconds(n: i64) -> (r: Duration)
        ensures
            r == (Duration { secs: n, nanos: 0u32 }),
    {
        Duration { secs: n, nanos: 0 }
    }

    /// The whole days of the span, rounded towards zero.
    pub fn num_days(&self) -> (r: i64)
        ensures
            r == duration_num_days(*self),
    {
        if self.secs >= 0 {
            ((self.secs as u64) / 86400) as i64
        } else {
            let mag: u64 = ((-(self.secs + 1)) as u64) + 1;
            let q = mag / 86400;
            assert(q <= mag);
            -(q as i64)
        }
    }
}

// ---------------------------------------------------------------------------
// The calendar, by name: what chrono computes for given components.
// ---------------------------------------------------------------------------

/// Whether chrono's calendar has a date with these components.
pub uninterp spec fn ymd_valid(year: i32, month: u32, day: u32) -> bool;

/// The date chrono reaches by shifting a date by a number of days, when the
/// result stays in its range.
pub uninterp spec fn date_shifted(date: CivilDate, days: i64) -> Option<CivilDate>;

/// The signed number of days from one date to another, as chrono counts them.
pub uninterp spec fn days_between(a: CivilDate, b: CivilDate) -> i64;

/// The civil components chrono gives an epoch second count, when it lies in
/// its range.
pub uninterp spec fn civil_of_secs(secs: i64) -> Option<(CivilDate, WallTime)>;

/// The epoch second count chrono gives civil components, when they are valid
/// and in range.
pub uninterp spec fn secs_of_civil(
    year: i32,
    month: u32,
    day: u32,
    hour: u32,
    minute: u32,
    second: u32,
) -> Option<i64>;

/// The date chrono reads from a text, `%Y-%m-%d`.
pub uninterp spec fn date_of_text(s: Seq<char>) -> Option<CivilDate>;

/// The wall time chrono reads from a text, `%H:%M:%S` with an optional
/// fraction.
pub uninterp spec fn time_of_text(s: Seq<char>) -> Option<WallTime>;

/// The UTC instant chrono reads from an RFC 3339 text.
pub uninterp spec fn instant_of_text(s: Seq<char>) -> Option<(i64, u32)>;

/// Relies on `chrono::NaiveDate::from_ymd_opt`: whether the components form a
/// calendar date.
#[verifier::external_body]
fn chrono_ymd_valid(year: i32, month: u32, day: u32) -> (r: bool)
    ensures
        r == ymd_valid(year, month, day),
{
    chrono::NaiveDate::from_ymd_opt(year, month, day).is_some()
}

/// Relies on `chrono::NaiveDate::checked_add_signed` and
/// `checked_sub_signed`: the date a number of days away, a valid date again
/// when present.
#[verifier::external_body]
fn chrono_date_shift(date: &CivilDate, days: i64) -> (r: Option<CivilDate>)
    ensures
        r == date_shifted(*date, days),
        r is Some ==> ymd_valid(r.unwrap().year, r.unwrap().month, r.unwrap().day),
{
    let d = chrono::NaiveDate::from_ymd_opt(date.year, date.month, date.day)?;
    let span = chrono::Duration::try_days(days)?;
    let shifted = d.checked_add_signed(span)?;
    Some(CivilDate { year: shifted.year(), month: shifted.month(), day: shifted.day() })
}

/// Relies on `chrono::NaiveDate::signed_duration_since`: the day count from
/// the first date to the second.
#[verifier::external_body]
fn chrono_days_between(a: &CivilDate, b: &CivilDate) -> (r: Option<i64>)
    ensures
        r is Some <==> (ymd_valid(a.year, a.month, a.day) && ymd_valid(b.year, b.month, b.day)),
        r is Some ==> r.unwrap() == days_between(*a, *b),
{
    let first = chrono::NaiveDate::from_ymd_opt(a.year, a.month, a.day)?;
    let second = chrono::NaiveDate::from_ymd_opt(b.year, b.month, b.day)?;
    Some(second.signed_duration_since(first).num_days())
}

/// Relies on `chrono::DateTime::from_timestamp`: the civil components of an
/// epoch second count in chrono's range.
#[verifier::external_body]
fn chrono_civil_of_secs(secs: i64) -> (r: Option<(CivilDate, WallTime)>)
    ensures
        r == civil_of_secs(secs),
{
    let dt = chrono::DateTime::from_timestamp(secs, 0)?;
    Some(
        (
            CivilDate { year: dt.year(), month: dt.month(), day: dt.day() },
            WallTime { hour: dt.hour(), minute: dt.minute(), second: dt.second(), nanosecond: 0 },
        ),
    )
}

/// Relies on `chrono::Utc.with_ymd_and_hms`: the epoch second count of civil
/// components, present exactly when they name a date and a time of day.
#[verifier::external_body]
fn chrono_secs_of_civil(
    year: i32,
    month: u32,
    day: u32,
    hour: u32,
    minute: u32,
    second: u32,
) -> (r: Option<i64>)
    ensures
        r == secs_of_civil(year, month, day, hour, minute, second),
        r is Some <==> (ymd_valid(year, month, day) && hour <= 23 && minute <= 59 && second <= 59),
{
    match chrono::Utc.with_ymd_and_hms(year, month, day, hour, minute, second) {
        chrono::LocalResult::Single(dt) => Some(dt.timestamp()),
        _ => None,
    }
}

/// Relies on `chrono::Utc::now`: the clock's epoch seconds and nanosecond
/// part, which stays below two billion even across a leap second.
#[verifier::external_body]
fn chrono_now() -> (r: (i64, u32))
    ensures
        r.1 < 2000000000,
{
    let now = chrono::Utc::now();
    (now.timestamp(), now.timestamp_subsec_nanos())
}

/// Relies on `str::parse::<chrono::NaiveDate>`: success and components depend
/// on the characters alone.
#[verifier::external_body]
fn chrono_parse_date(s: &str) -> (r: Option<CivilDate>)
    ensures
        r == date_of_text(s@),
{
    let d: chrono::NaiveDate = s.parse().ok()?;
    Some(CivilDate { year: d.year(), month: d.month(), day: d.day() })
}

/// Relies on `str::parse::<chrono::NaiveTime>`: success and components depend
/// on the characters alone.
#[verifier::external_body]
fn chrono_parse_time(s: &str) -> (r: Option<WallTime>)
    ensures
        r == time_of_text(s@),
{
    let t: chrono::NaiveTime = s.parse().ok()?;
    Some(
        WallTime {
            hour: t.hour(),
            minute: t.minute(),
            second: t.second(),
            nanosecond: t.nanosecond(),
        },
    )
}

/// Relies on `str::parse::<chrono::DateTime<chrono::Utc>>`: success, seconds
/// and nanoseconds depend on the characters alone.
#[verifier::external_body]
fn chrono_parse_instant(s: &str) -> (r: Option<(i64, u32)>)
    ensures
        r == instant_of_text(s@),
{
    let dt: chrono::DateTime<chrono::Utc> = s.parse().ok()?;
    Some((dt.timestamp(), dt.timestamp_subsec_nanos()))
}

// ---------------------------------------------------------------------------
// The DateTime value.
// ---------------------------------------------------------------------------

/// A date, a time, or a UTC instant.
#[derive(Debug, Clone, Copy, PartialEq, Eq, Structural, Hash)]
pub enum DateTime {
    Date(CivilDate),
    Time(WallTime),
    DateTime(UtcMoment),
}

impl DateTime {
    /// The calendar date, when this is a bare date.
    pub fn as_date(&self) -> (r: Option<&CivilDate>)
        ensures
            match r {
                Some(d) => self is Date && *d == self->Date_0,
                None => !(self is Date),
            },
    {
        match self {
            DateTime::Date(d) => Some(d),
            _ => None,
        }
    }

    /// The wall time, when this is a bare time.
    pub fn as_time(&self) -> (r: Option<&WallTime>)
        ensures
            match r {
                Some(t) => self is Time && *t == self->Time_0,
                None => !(self is Time),
            },
    {
        match self {
            DateTime::Time(t) => Some(t),
            _ => None,
        }
    }

    /// The instant, when this is a full date-time.
    pub fn as_date_time(&self) -> (r: Option<&UtcMoment>)
        ensures
            match r {
                Some(m) => self is DateTime && *m == self->DateTime_0,
                None => !(self is DateTime),
            },
    {
        match self {
            DateTime::DateTime(m) => Some(m),
            _ => None,
        }
    }

    /// The year of a date or an instant.
    pub fn year(&self) -> (r: Option<i32>)
        ensures
            r == match *self {
                DateTime::Date(d) => Some(d.year),
                DateTime::DateTime(m) => Some(m.date.year),
                DateTime::Time(_) => None::<i32>,
            },
    {
        match self {
            DateTime::Date(d) => Some(d.year),
            DateTime::DateTime(m) => Some(m.date.year),
            _ => None,
        }
    }

    /// The month of a date or an instant.
    pub fn month(&self) -> (r: Option<u32>)
        ensures
            r == match *self {
                DateTime::Date(d) => Some(d.month),
                DateTime::DateTime(m) => Some(m.date.month),
                DateTime::Time(_) => None::<u32>,
            },
    {
        match self {
            DateTime::Date(d) => Some(d.month),
            DateTime::DateTime(m) => Some(m.date.month),
            _ => None,
        }
    }

    /// The day of a date or an instant.
    pub fn day(&self) -> (r: Option<u32>)
        ensures
            r == match *self {
                DateTime::Date(d) => Some(d.day),
                DateTime::DateTime(m) => Some(m.date.day),
                DateTime::Time(_) => None::<u32>,
            },
    {
        match self {
            DateTime::Date(d) => Some(d.day),
            DateTime::DateTime(m) => Some(m.date.day),
            _ => None,
        }
    }

    /// The hour of a time or an instant.
    pub fn hour(&self) -> (r: Option<u32>)
        ensures
            r == match *self {
                DateTime::Time(t) => Some(t.hour),
                DateTime::DateTime(m) => Some(m.time.hour),
                DateTime::Date(_) => None::<u32>,
            },
    {
        match self {
            DateTime::Time(t) => Some(t.hour),
            DateTime::DateTime(m) => Some(m.time.hour),
            _ => None,
        }
    }

    /// The minute of a time or an instant.
    pub fn minute(&self) -> (r: Option<u32>)
        ensures
            r == match *self {
                DateTime::Time(t) => Some(t.minute),
                DateTime::DateTime(m) => Some(m.time.minute),
                DateTime::Date(_) => None::<u32>,
            },
    {
        match self {
            DateTime::Time(t) => Some(t.minute),
            DateTime::DateTime(m) => Some(m.time.minute),
            _ => None,
        }
    }

    /// The second of a time or an instant.
    pub fn second(&self) -> (r: Option<u32>)
        ensures
            r == match *self {
                DateTime::Time(t) => Some(t.second),
                DateTime::DateTime(m) => Some(m.time.second),
                DateTime::Date(_) => None::<u32>,
            },
    {
        match self {
            DateTime::Time(t) => Some(t.second),
            DateTime::DateTime(m) => Some(m.time.second),
            _ => None,
        }
    }

    /// The epoch seconds of an instant.
    pub fn timestamp(&self) -> (r: Option<i64>)
        ensures
            r == match *self {
                DateTime::DateTime(m) => Some(m.secs),
                _ => None::<i64>,
            },
    {
        match self {
            DateTime::DateTime(m) => Some(m.secs),
            _ => None,
        }
    }

    /// The time zone of an instant: always UTC.
    pub fn timezone(&self) -> (r: Option<UtcZone>)
        ensures
            r is Some <==> self is DateTime,
    {
        match self {
            DateTime::DateTime(_) => Some(UtcZone),
            _ => None,
        }
    }

    /// A date built from components, which must name a calendar date.
    pub fn from_ymd_opt(year: i32, month: u32, day: u32) -> (r: DateTime)
        requires
            ymd_valid(year, month, day),
        ensures
            r == DateTime::Date(CivilDate { year, month, day }),
    {
        DateTime::Date(CivilDate { year, month, day })
    }

    /// A date built from components; `None` when they name no calendar date.
    pub fn try_from_ymd(year: i32, month: u32, day: u32) -> (r: Option<DateTime>)
        ensures
            r == if ymd_valid(year, month, day) {
                Some(DateTime::Date(CivilDate { year, month, day }))
            } else {
                None::<DateTime>
            },
    {
        if chrono_ymd_valid(year, month, day) {
            Some(DateTime::from_ymd_opt(year, month, day))
        } else {
            None
        }
    }

    /// An instant built from components, which must name a date and a time of
    /// day.
    pub fn with_ymd_and_hms(
        year: i32,
        month: u32,
        day: u32,
        hour: u32,
        min: u32,
        sec: u32,
    ) -> (r: DateTime)
        requires
            ymd_valid(year, month, day),
            hour <= 23,
            min <= 59,
            sec <= 59,
        ensures
            r == DateTime::DateTime(
                UtcMoment {
                    secs: secs_of_civil(year, month, day, hour, min, sec).unwrap(),
                    nanosecond: 0u32,
                    date: CivilDate { year, month, day },
                    time: WallTime { hour, minute: min, second: sec, nanosecond: 0u32 },
                },
            ),
    {
        let secs = chrono_secs_of_civil(year, month, day, hour, min, sec).unwrap();
        DateTime::DateTime(
            UtcMoment {
                secs,
                nanosecond: 0,
                date: CivilDate { year, month, day },
                time: WallTime { hour, minute: min, second: sec, nanosecond: 0 },
            },
        )
    }

    /// An instant built from components; `None` when they name no date or no
    /// time of day.
    pub fn try_with_ymd_and_hms(
        year: i32,
        month: u32,
        day: u32,
        hour: u32,
        min: u32,
        sec: u32,
    ) -> (r: Option<DateTime>)
        ensures
            r is Some <==> ymd_valid(year, month, day) && hour <= 23 && min <= 59 && sec <= 59,
            r is Some ==> r.unwrap() == DateTime::DateTime(
                UtcMoment {
                    secs: secs_of_civil(year, month, day, hour, min, sec).unwrap(),
                    nanosecond: 0u32,
                    date: CivilDate { year, month, day },
                    time: WallTime { hour, minute: min, second: sec, nanosecond: 0u32 },
                },
            ),
    {
        match chrono_secs_of_civil(year, month, day, hour, min, sec) {
            Some(_) => Some(DateTime::with_ymd_and_hms(year, month, day, hour, min, sec)),
            None => None,
        }
    }

    /// The instant the clock shows now: its fraction stays below two billion
    /// nanoseconds, and its civil components are the calendar's reading of
    /// its seconds.
    pub fn now() -> (r: DateTime)
        ensures
            r is DateTime,
            r->DateTime_0.nanosecond < 2000000000,
            civil_of_secs(r->DateTime_0.secs) is Some ==> civil_of_secs(r->DateTime_0.secs)
                == Some((r->DateTime_0.date, r->DateTime_0.time)),
    {
        let (secs, nanos) = chrono_now();
        match chrono_civil_of_secs(secs) {
            Some((date, time)) => DateTime::DateTime(
                UtcMoment { secs, nanosecond: nanos, date, time },
            ),
            None => DateTime::DateTime(
                UtcMoment {
                    secs,
                    nanosecond: nanos,
                    date: CivilDate { year: 1970, month: 1, day: 1 },
                    time: WallTime { hour: 0, minute: 0, second: 0, nanosecond: 0 },
                },
            ),
        }
    }

    /// Reads a date, a time, or an instant from text, trying the three shapes
    /// in that order.
    pub fn parse(s: &str) -> (r: Option<DateTime>)
        ensures
            r == if date_of_text(s@) is Some {
                Some(DateTime::Date(date_of_text(s@).unwrap()))
            } else if time_of_text(s@) is Some {
                Some(DateTime::Time(time_of_text(s@).unwrap()))
            } else if instant_of_text(s@) is Some {
                instant_parsed(instant_of_text(s@).unwrap())
            } else {
                None::<DateTime>
            },
    {
        if let Some(date) = chrono_parse_date(s) {
            return Some(DateTime::Date(date));
        }
        if let Some(time) = chrono_parse_time(s) {
            return Some(DateTime::Time(time));
        }
        if let Some((secs, nanos)) = chrono_parse_instant(s) {
            return match chrono_civil_of_secs(secs) {
                Some((date, time)) => Some(
                    DateTime::DateTime(UtcMoment { secs, nanosecond: nanos, date, time }),
                ),
                None => None,
            };
        }
        None
    }

    /// The value a span of time away, later for a positive span: day steps
    /// for a date, the full span for an instant, nothing for a bare time or
    /// when the result leaves the calendar's range.
    pub fn add_duration(&self, duration: Duration) -> (r: Option<DateTime>)
        ensures
            r == add_duration_spec(*self, duration),
    {
        match self {
            DateTime::Date(d) => {
                let days = duration.num_days();
                match chrono_date_shift(d, days) {
                    Some(shifted) => Some(DateTime::Date(shifted)),
                    None => None,
                }
            },
            DateTime::Time(_) => None,
            DateTime::DateTime(m) => {
                let total: u64 = m.nanosecond as u64 + duration.nanos as u64;
                let carry: u64 = total / 1000000000;
                let nanos: u32 = (total % 1000000000) as u32;
                let wide: i128 = m.secs as i128 + duration.secs as i128 + carry as i128;
                if wide < i64::MIN as i128 || wide > i64::MAX as i128 {
                    return None;
                }
                let secs: i64 = wide as i64;
                match chrono_civil_of_secs(secs) {
                    Some((date, time)) => Some(
                        DateTime::DateTime(UtcMoment { secs, nanosecond: nanos, date, time }),
                    ),
                    None => None,
                }
            },
        }
    }

    /// The value a span of time back; the mirror of `add_duration`.
    pub fn subtract_duration(&self, duration: Duration) -> (r: Option<DateTime>)
        ensures
            r == subtract_duration_spec(*self, duration),
    {
        match self {
            DateTime::Date(d) => {
                let days = duration.num_days();
                if days == i64::MIN {
                    return None;
                }
                match chrono_date_shift(d, -days) {
                    Some(shifted) => Some(DateTime::Date(shifted)),
                    None => None,
                }
            },
            DateTime::Time(_) => None,
            DateTime::DateTime(m) => {
                let (carry, nanos) = nanos_borrow(m.nanosecond, duration.nanos);
                let wide: i128 = m.secs as i128 - duration.secs as i128 + carry as i128;
                if wide < i64::MIN as i128 || wide > i64::MAX as i128 {
                    return None;
                }
                let secs: i64 = wide as i64;
                match chrono_civil_of_secs(secs) {
                    Some((date, time)) => Some(
                        DateTime::DateTime(UtcMoment { secs, nanosecond: nanos, date, time }),
                    ),
                    None => None,
                }
            },
        }
    }

    /// The span from this value to another of the same variant: whole days
    /// between dates, the exact difference between instants, nothing across
    /// variants.
    pub fn duration_between(&self, other: &DateTime) -> (r: Option<Duration>)
        ensures
            r == duration_between_spec(*self, *other),
    {
        match (self, other) {
            (DateTime::Date(a), DateTime::Date(b)) => {
                match chrono_days_between(a, b) {
                    Some(days) => {
                        if -106751991167300i64 <= days && days <= 106751991167300i64 {
                            proof {
                                assert(i64::MIN <= days * 86400 <= i64::MAX) by (nonlinear_arith)
                                    requires
                                        -106751991167300 <= days <= 106751991167300,
                                ;
                            }
                            Some(Duration::days(days))
                        } else {
                            None
                        }
                    },
                    None => None,
                }
            },
            (DateTime::DateTime(a), DateTime::DateTime(b)) => {
                let (carry, nanos) = nanos_borrow(b.nanosecond, a.nanosecond);
                let wide: i128 = b.secs as i128 - a.secs as i128 + carry as i128;
                if wide < i64::MIN as i128 || wide > i64::MAX as i128 {
                    return None;
                }
                Some(Duration { secs: wide as i64, nanos })
            },
            _ => None,
        }
    }
}

/// Splits the signed nanosecond difference `x - y` into carried seconds and a
/// nanosecond part below one billion, the way the whole-number division of
/// the specifications does.
fn nanos_borrow(x: u32, y: u32) -> (r: (i64, u32))
    ensures
        r.0 as int == (x - y) / 1000000000,
        r.1 as int == (x - y) % 1000000000,
        r.1 < 1000000000,
{
    if x >= y {
        let d = x - y;
        ((d / 1000000000) as i64, d % 1000000000)
    } else {
        let d = y - x;
        let q = d / 1000000000;
        let rem = d % 1000000000;
        if rem == 0 {
            proof {
                assert((x - y) as int == (-(q as int)) * 1000000000 + 0) by (nonlinear_arith)
                    requires
                        d == y - x,
                        q == d as int / 1000000000,
                        d as int % 1000000000 == 0,
                ;
            }
            (-(q as i64), 0u32)
        } else {
            proof {
                assert((x - y) as int == (-(q as int) - 1) * 1000000000 + (1000000000 - rem))
                    by (nonlinear_arith)
                    requires
                        d == y - x,
                        q == d as int / 1000000000,
                        rem == d as int % 1000000000,
                        rem != 0,
                ;
            }
            (-(q as i64) - 1, 1000000000 - rem)
        }
    }
}

/// The instant a parsed epoch pair denotes, with its components, when chrono
/// can resolve them.
pub open spec fn instant_parsed(pair: (i64, u32)) -> Option<DateTime> {
    match civil_of_secs(pair.0) {
        Some(ct) => Some(
            DateTime::DateTime(
                UtcMoment { secs: pair.0, nanosecond: pair.1, date: ct.0, time: ct.1 },
            ),
        ),
        None => None,
    }
}

/// What `add_duration` returns for each variant.
pub open spec fn add_duration_spec(v: DateTime, duration: Duration) -> Option<DateTime> {
    match v {
        DateTime::Date(d) => {
            let days = duration_num_days(duration);
            match date_shifted(d, days) {
                Some(shifted) => Some(DateTime::Date(shifted)),
                None => None,
            }
        },
        DateTime::Time(_) => None,
        DateTime::DateTime(m) => {
            let total = m.nanosecond + duration.nanos;
            let secs_total = m.secs + duration.secs + total / 1000000000;
            if i64::MIN <= secs_total <= i64::MAX {
                let secs = secs_total as i64;
                match civil_of_secs(secs) {
                    Some(ct) => Some(
                        DateTime::DateTime(
                            UtcMoment {
                                secs,
                                nanosecond: (total % 1000000000) as u32,
                                date: ct.0,
                                time: ct.1,
                            },
                        ),
                    ),
                    None => None,
                }
            } else {
                None
            }
        },
    }
}

/// What `subtract_duration` returns for each variant.
pub open spec fn subtract_duration_spec(v: DateTime, duration: Duration) -> Option<DateTime> {
    match v {
        DateTime::Date(d) => {
            let days = duration_num_days(duration);
            if days == i64::MIN {
                None
            } else {
                match date_shifted(d, (-days) as i64) {
                    Some(shifted) => Some(DateTime::Date(shifted)),
                    None => None,
                }
            }
        },
        DateTime::Time(_) => None,
        DateTime::DateTime(m) => {
            let total = m.nanosecond - duration.nanos;
            let secs_total = m.secs - duration.secs + total / 1000000000;
            if i64::MIN <= secs_total <= i64::MAX {
                let secs = secs_total as i64;
                match civil_of_secs(secs) {
                    Some(ct) => Some(
                        DateTime::DateTime(
                            UtcMoment {
                                secs,
                                nanosecond: (total % 1000000000) as u32,
                                date: ct.0,
                                time: ct.1,
                            },
                        ),
                    ),
                    None => None,
                }
            } else {
                None
            }
        },
    }
}

/// What `duration_between` returns for each pair of variants.
pub open spec fn duration_between_spec(a: DateTime, b: DateTime) -> Option<Duration> {
    match (a, b) {
        (DateTime::Date(x), DateTime::Date(y)) => {
            if ymd_valid(x.year, x.month, x.day) && ymd_valid(y.year, y.month, y.day) {
                let days = days_between(x, y);
                if -106751991167300 <= days <= 106751991167300 {
                    Some(Duration { secs: (days * 86400) as i64, nanos: 0u32 })
                } else {
                    None
                }
            } else {
                None
            }
        },
        (DateTime::DateTime(x), DateTime::DateTime(y)) => {
            let total = y.nanosecond - x.nanosecond;
            let secs_total = y.secs - x.secs + total / 1000000000;
            if i64::MIN <= secs_total <= i64::MAX {
                Some(
                    Duration { secs: secs_total as i64, nanos: (total % 1000000000) as u32 },
                )
            } else {
                None
            }
        },
        _ => None,
    }
}

/// The day count of a span, rounded towards zero, as `Duration::num_days`
/// computes it.
pub open spec fn duration_num_days(duration: Duration) -> i64 {
    if duration.secs >= 0 {
        (duration.secs as int / 86400) as i64
    } else {
        (-((-(duration.secs as int)) / 86400)) as i64
    }
}

// ---------------------------------------------------------------------------
// Rendering as text: ISO 8601 and RFC 3339, from the stored components.
// ---------------------------------------------------------------------------

/// A run of zero characters.
pub open spec fn zero_run(k: nat) -> Seq<char>
    decreases k,
{
    if k == 0 {
        Seq::empty()
    } else {
        zero_run((k - 1) as nat).push('0')
    }
}

/// A natural number in decimal, zero-padded on the left to a width.
pub open spec fn padded(n: nat, width: nat) -> Seq<char> {
    if dec_nat(n).len() >= width {
        dec_nat(n)
    } else {
        zero_run((width - dec_nat(n).len()) as nat) + dec_nat(n)
    }
}

/// A year: four digits, with a minus sign for years before year zero.
pub open spec fn year_chars(y: int) -> Seq<char> {
    if y < 0 {
        seq!['-'] + padded((-y) as nat, 4)
    } else {
        padded(y as nat, 4)
    }
}

/// A date, `%Y-%m-%d`.
pub open spec fn date_chars(d: CivilDate) -> Seq<char> {
    year_chars(d.year as int) + seq!['-'] + padded(d.month as nat, 2) + seq!['-'] + padded(
        d.day as nat,
        2,
    )
}

/// The fraction of a second: nothing for zero, else a dot and three, six or
/// nine digits, as short as exactness allows.
pub open spec fn frac_chars(nanos: nat) -> Seq<char> {
    if nanos == 0 {
        Seq::empty()
    } else if nanos % 1000000 == 0 {
        seq!['.'] + padded(nanos / 1000000, 3)
    } else if nanos % 1000 == 0 {
        seq!['.'] + padded(nanos / 1000, 6)
    } else {
        seq!['.'] + padded(nanos, 9)
    }
}

/// A wall time, `%H:%M:%S` and the fraction.
pub open spec fn time_chars(t: WallTime) -> Seq<char> {
    padded(t.hour as nat, 2) + seq![':'] + padded(t.minute as nat, 2) + seq![':'] + padded(
        t.second as nat,
        2,
    ) + frac_chars(t.nanosecond as nat)
}

/// An instant in RFC 3339 shape: date, `T`, time with fraction, `+00:00`.
pub open spec fn rfc3339_chars(m: UtcMoment) -> Seq<char> {
    date_chars(m.date) + seq!['T'] + time_chars(
        WallTime {
            hour: m.time.hour,
            minute: m.time.minute,
            second: m.time.second,
            nanosecond: m.nanosecond,
        },
    ) + seq!['+', '0', '0', ':', '0', '0']
}

/// The display text of a value: its date, its time, or its RFC 3339 form.
pub open spec fn dt_display_chars(v: DateTime) -> Seq<char> {
    match v {
        DateTime::Date(d) => date_chars(d),
        DateTime::Time(t) => time_chars(t),
        DateTime::DateTime(m) => rfc3339_chars(m),
    }
}

/// The ISO 8601 text of a value: the instant's form carries no fraction and
/// no offset.
pub open spec fn dt_iso8601_chars(v: DateTime) -> Seq<char> {
    match v {
        DateTime::Date(d) => date_chars(d),
        DateTime::Time(t) => time_chars(t),
        DateTime::DateTime(m) => date_chars(m.date) + seq!['T'] + padded(m.time.hour as nat, 2)
            + seq![':'] + padded(m.time.minute as nat, 2) + seq![':'] + padded(
            m.time.second as nat,
            2,
        ),
    }
}

/// Appends a zero-padded natural number, as `padded` describes.
fn push_padded(out: &mut Vec<char>, n: u128, width: usize)
    ensures
        final(out)@ == old(out)@ + padded(n as nat, width as nat),
{
    let digits = fmt_u128(n);
    let ghost out0 = out@;
    if digits.len() < width {
        let mut k: usize = width - digits.len();
        assert(out@ =~= out0 + zero_run(0));
        while k > 0
            invariant
                k <= width - digits@.len(),
                digits@.len() < width,
                out@ == out0 + zero_run(((width - digits@.len()) - k) as nat),
            decreases k,
        {
            out.push('0');
            assert(out@ =~= out0 + zero_run(((width - digits@.len()) - (k - 1)) as nat));
            k = k - 1;
        }
    }
    let ghost mid = out@;
    let mut i: usize = 0;
    while i < digits.len()
        invariant
            0 <= i <= digits@.len(),
            out@ == mid + digits@.subrange(0, i as int),
        decreases digits@.len() - i,
    {
        out.push(digits[i]);
        assert(out@ =~= mid + digits@.subrange(0, i + 1int));
        i = i + 1;
    }
    proof {
        assert(digits@.subrange(0, digits@.len() as int) =~= digits@);
        if digits@.len() >= width {
            assert(out@ =~= out0 + padded(n as nat, width as nat));
        } else {
            assert(out@ =~= out0 + (zero_run((width - digits@.len()) as nat) + digits@));
        }
    }
}

/// Appends a date, as `date_chars` describes.
fn push_date(out: &mut Vec<char>, d: &CivilDate)
    ensures
        final(out)@ == old(out)@ + date_chars(*d),
{
    let ghost out0 = out@;
    if d.year < 0 {
        out.push('-');
        let mag: u32 = ((-(d.year + 1)) as u32) + 1;
        push_padded(out, mag as u128, 4);
        assert(out@ =~= out0 + year_chars(d.year as int));
    } else {
        push_padded(out, d.year as u128, 4);
        assert(out@ =~= out0 + year_chars(d.year as int));
    }
    out.push('-');
    push_padded(out, d.month as u128, 2);
    out.push('-');
    push_padded(out, d.day as u128, 2);
    assert(final(out)@ =~= out0 + date_chars(*d));
}

/// Appends a wall time with an explicit nanosecond part, as `time_chars`
/// describes.
fn push_time(out: &mut Vec<char>, hour: u32, minute: u32, second: u32, nanos: u32)
    ensures
        final(out)@ == old(out)@ + time_chars(
            WallTime { hour, minute, second, nanosecond: nanos },
        ),
{
    let ghost out0 = out@;
    push_padded(out, hour as u128, 2);
    out.push(':');
    push_padded(out, minute as u128, 2);
    out.push(':');
    push_padded(out, second as u128, 2);
    if nanos != 0 {
        out.push('.');
        if nanos % 1000000 == 0 {
            push_padded(out, (nanos / 1000000) as u128, 3);
        } else if nanos % 1000 == 0 {
            push_padded(out, (nanos / 1000) as u128, 6);
        } else {
            push_padded(out, nanos as u128, 9);
        }
    }
    assert(final(out)@ =~= out0 + time_chars(WallTime { hour, minute, second, nanosecond: nanos }));
}

impl DateTime {
    /// The characters of the display form, as `dt_display_chars` describes.
    pub fn display_chars(&self) -> (r: Vec<char>)
        ensures
            r@ == dt_display_chars(*self),
    {
        let mut out: Vec<char> = Vec::new();
        match self {
            DateTime::Date(d) => {
                push_date(&mut out, d);
            },
            DateTime::Time(t) => {
                push_time(&mut out, t.hour, t.minute, t.second, t.nanosecond);
            },
            DateTime::DateTime(m) => {
                push_date(&mut out, &m.date);
                out.push('T');
                push_time(&mut out, m.time.hour, m.time.minute, m.time.second, m.nanosecond);
                out.push('+');
                out.push('0');
                out.push('0');
                out.push(':');
                out.push('0');
                out.push('0');
                assert(out@ =~= rfc3339_chars(*m));
            },
        }
        out
    }

    /// The display form as an owned string.
    pub fn to_display_string(&self) -> (r: String)
        ensures
            r@ == dt_display_chars(*self),
    {
        let chars = self.display_chars();
        chars_to_string(&chars)
    }

    /// The ISO 8601 text, as `dt_iso8601_chars` describes.
    pub fn to_iso8601(&self) -> (r: String)
        ensures
            r@ == dt_iso8601_chars(*self),
    {
        let mut out: Vec<char> = Vec::new();
        match self {
            DateTime::Date(d) => {
                push_date(&mut out, d);
            },
            DateTime::Time(t) => {
                push_time(&mut out, t.hour, t.minute, t.second, t.nanosecond);
            },
            DateTime::DateTime(m) => {
                push_date(&mut out, &m.date);
                out.push('T');
                push_padded(&mut out, m.time.hour as u128, 2);
                out.push(':');
                push_padded(&mut out, m.time.minute as u128, 2);
                out.push(':');
                push_padded(&mut out, m.time.second as u128, 2);
                assert(out@ =~= dt_iso8601_chars(*self));
            },
        }
        chars_to_string(&out)
    }

    /// The RFC 3339 text of an instant; empty for a date or a time alone.
    pub fn to_rfc3339(&self) -> (r: String)
        ensures
            r@ == match *self {
                DateTime::DateTime(m) => rfc3339_chars(m),
                _ => Seq::<char>::empty(),
            },
    {
        match self {
            DateTime::DateTime(_) => {
                let chars = self.display_chars();
                chars_to_string(&chars)
            },
            _ => {
                let out: Vec<char> = Vec::new();
                chars_to_string(&out)
            },
        }
    }
}

} // verus!
