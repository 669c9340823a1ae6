//! Instants and calendar days in UTC, as plain numbers.
//!
//! A [`Timestamp`] counts seconds and nanoseconds from the Unix epoch; a
//! [`Date`] counts days from the first day of year one. Seconds and days have
//! the ranges of `chrono::DateTime<Utc>` and `chrono::NaiveDate`. Nanoseconds
//! past a billion, which stand for a leap second, are admitted at any second;
//! `chrono` has them at the last second of a minute alone.

use chrono::{DateTime, Datelike, Days, Duration, NaiveDate, Utc};
use std::time::Instant;
use vstd::prelude::*;

verus! {

/// The number of the first day that a [`Date`] can hold.
pub const MIN_DAY: i32 = -95_746_129;

/// The number of the last day that a [`Date`] can hold.
pub const MAX_DAY: i32 = 95_745_399;

/// The number of 1970-01-01.
pub const EPOCH_DAY: i32 = 719_163;

/// Seconds in a day.
pub const DAY_SECS: i64 = 86_400;

/// The first second of `MIN_DAY`, counted from the Unix epoch.
pub const MIN_SECS: i64 = -8_334_601_228_800;

/// The last second of `MAX_DAY`, counted from the Unix epoch.
pub const MAX_SECS: i64 = 8_210_266_876_799;

/// One nanosecond short of a second, counted double so that a leap second
/// still has a place.
pub const MAX_NANOS: u32 = 1_999_999_999;

/// An instant in UTC.
#[derive(Debug, Clone, Copy, PartialEq, Eq, Structural)]
pub struct Timestamp {
    secs: i64,
    nanos: u32,
}

impl Timestamp {
    /// The range that every timestamp keeps to.
    #[verifier::type_invariant]
    spec fn in_range(self) -> bool {
        MIN_SECS <= self.secs <= MAX_SECS && self.nanos <= MAX_NANOS
    }

    /// Whole seconds since the Unix epoch.
    pub closed spec fn secs(self) -> int {
        self.secs as int
    }

    /// Nanoseconds within the second; a leap second counts on past a billion.
    pub closed spec fn nanos(self) -> int {
        self.nanos as int
    }

    /// The position of the instant on the time line: timestamps compare as
    /// these numbers do.
    pub open spec fn rank(self) -> int {
        self.secs() * 2_000_000_000 + self.nanos()
    }

    /// The number of the UTC day that the instant falls on.
    pub open spec fn day(self) -> int {
        self.secs() / (DAY_SECS as int) + EPOCH_DAY
    }

    /// An instant that the system clock can show: not before the Unix epoch,
    /// and not within a leap second.
    pub open spec fn on_clock(self) -> bool {
        &&& 0 <= self.secs() <= MAX_SECS
        &&& 0 <= self.nanos() < 1_000_000_000
    }

    /// The instant at the given offset from the Unix epoch, if it is in range.
    pub fn new(secs: i64, nanos: u32) -> (r: Option<Timestamp>)
        ensures
            r is Some <==> MIN_SECS <= secs <= MAX_SECS && nanos <= MAX_NANOS,
            r matches Some(t) ==> t.secs() == secs && t.nanos() == nanos,
    {
        if MIN_SECS <= secs && secs <= MAX_SECS && nanos <= MAX_NANOS {
            Some(Timestamp { secs, nanos })
        } else {
            None
        }
    }

    /// Whole seconds since the Unix epoch.
    pub fn unix_secs(&self) -> (r: i64)
        ensures
            r == self.secs(),
            MIN_SECS <= r <= MAX_SECS,
    {
        proof {
            use_type_invariant(self);
        }
        self.secs
    }

    /// Nanoseconds within the second.
    pub fn subsec_nanos(&self) -> (r: u32)
        ensures
            r == self.nanos(),
            r <= MAX_NANOS,
    {
        proof {
            use_type_invariant(self);
        }
        self.nanos
    }

    /// Whether `self` comes strictly before `other`.
    pub fn is_before(&self, other: &Timestamp) -> (r: bool)
        ensures
            r == (self.rank() < other.rank()),
    {
        proof {
            use_type_invariant(self);
            use_type_invariant(other);
        }
        self.secs < other.secs || (self.secs == other.secs && self.nanos < other.nanos)
    }

    /// The UTC day that the instant falls on.
    pub fn date(&self) -> (r: Date)
        ensures
            r.day() == self.day(),
    {
        proof {
            use_type_invariant(self);
        }
        let day: i32 = utc_day(self.secs);
        Date { day }
    }

    /// The present instant, read from the system clock.
    pub fn now() -> (r: Timestamp)
        ensures
            r.on_clock(),
    {
        let (secs, nanos) = utc_now();
        Timestamp { secs, nanos }
    }

    /// The instant `days` days earlier.
    pub fn minus_days(&self, days: i64) -> (r: Timestamp)
        requires
            self.nanos() < 1_000_000_000,
            0 <= days,
            self.secs() - days * DAY_SECS >= MIN_SECS,
        ensures
            r.secs() == self.secs() - days * DAY_SECS,
            r.nanos() == self.nanos(),
    {
        proof {
            use_type_invariant(self);
        }
        let (secs, nanos) = utc_minus_days(self.secs, self.nanos, days);
        Timestamp { secs, nanos }
    }
}

/// A day of the proleptic Gregorian calendar.
#[derive(Debug, Clone, Copy, PartialEq, Eq, Structural)]
pub struct Date {
    day: i32,
}

impl Date {
    /// The range that every date keeps to.
    #[verifier::type_invariant]
    spec fn in_range(self) -> bool {
        MIN_DAY <= self.day <= MAX_DAY
    }

    /// The number of the day, with January 1 of year one as day one.
    pub closed spec fn day(self) -> int {
        self.day as int
    }

    /// The day as text, year first: `2026-05-23`.
    pub open spec fn text(self) -> Seq<char> {
        date_text(self.day())
    }

    /// The day with the given number, if it is in range.
    pub fn new(day: i32) -> (r: Option<Date>)
        ensures
            r is Some <==> MIN_DAY <= day <= MAX_DAY,
            r matches Some(d) ==> d.day() == day,
    {
        if MIN_DAY <= day && day <= MAX_DAY {
            Some(Date { day })
        } else {
            None
        }
    }

    /// The number of the day, with January 1 of year one as day one.
    pub fn number(&self) -> (r: i32)
        ensures
            r == self.day(),
            MIN_DAY <= r <= MAX_DAY,
    {
        proof {
            use_type_invariant(self);
        }
        self.day
    }

    /// The day `days` days later, if it is in range.
    pub fn plus_days(&self, days: u32) -> (r: Option<Date>)
        ensures
            r is Some <==> self.day() + days <= MAX_DAY,
            r matches Some(d) ==> d.day() == self.day() + days,
    {
        proof {
            use_type_invariant(self);
        }
        match date_plus_days(self.day, days) {
            Some(day) => Some(Date { day }),
            None => None,
        }
    }

    /// The day as text, year first.
    pub fn to_text(&self) -> (s: String)
        ensures
            s@ == self.text(),
    {
        proof {
            use_type_invariant(self);
        }
        date_to_string(self.day)
    }
}

/// The text of the day with the given number, as `chrono::NaiveDate` displays
/// it.
pub uninterp spec fn date_text(day: int) -> Seq<char>;

/// `chrono::Utc::now`: seconds and nanoseconds since the Unix epoch on the
/// system clock. Trusted for its range alone: a clock before the epoch or past
/// the last representable instant makes the call panic, and the nanoseconds
/// come from a `Duration` and never reach a full second.
#[verifier::external_body]
fn utc_now() -> (r: (i64, u32))
    ensures
        0 <= r.0 <= MAX_SECS,
        r.1 < 1_000_000_000,
{
    let now = Utc::now();
    (now.timestamp(), now.timestamp_subsec_nanos())
}

/// `chrono::DateTime::date_naive` for UTC: the number of the day on which the
/// given second falls. Trusted to be the floor of the division by a day's
/// seconds, counted from the number of 1970-01-01.
#[verifier::external_body]
fn utc_day(secs: i64) -> (day: i32)
    requires
        MIN_SECS <= secs <= MAX_SECS,
    ensures
        day == secs as int / (DAY_SECS as int) + EPOCH_DAY,
        MIN_DAY <= day <= MAX_DAY,
{
    DateTime::from_timestamp(secs, 0).unwrap().date_naive().num_days_from_ce()
}

/// `chrono::DateTime - chrono::Duration::days`: the instant that many days
/// earlier. Trusted, away from leap seconds and within the range of
/// `DateTime<Utc>`, to move the seconds back by whole days and keep the
/// nanoseconds.
#[verifier::external_body]
fn utc_minus_days(secs: i64, nanos: u32, days: i64) -> (r: (i64, u32))
    requires
        MIN_SECS <= secs <= MAX_SECS,
        nanos < 1_000_000_000,
        0 <= days,
        secs - days * DAY_SECS >= MIN_SECS,
    ensures
        r.0 == secs - days * DAY_SECS,
        r.1 == nanos,
{
    let earlier = DateTime::from_timestamp(secs, nanos).unwrap() - Duration::days(days);
    (earlier.timestamp(), earlier.timestamp_subsec_nanos())
}

/// `chrono::NaiveDate::checked_add_days`: the number of the day that many days
/// later. Trusted to fail exactly past the last representable day.
#[verifier::external_body]
fn date_plus_days(day: i32, days: u32) -> (r: Option<i32>)
    requires
        MIN_DAY <= day <= MAX_DAY,
    ensures
        r is Some <==> day + days <= MAX_DAY,
        r matches Some(later) ==> later == day + days,
{
    let date = NaiveDate::from_num_days_from_ce_opt(day).unwrap();
    match date.checked_add_days(Days::new(days as u64)) {
        Some(later) => Some(later.num_days_from_ce()),
        None => None,
    }
}

/// `chrono::NaiveDate`'s `Display`: the day as text. Trusted to depend on the
/// day alone; the calendar itself is left to `chrono`.
#[verifier::external_body]
fn date_to_string(day: i32) -> (s: String)
    requires
        MIN_DAY <= day <= MAX_DAY,
    ensures
        s@ == date_text(day as int),
{
    NaiveDate::from_num_days_from_ce_opt(day).unwrap().to_string()
}

/// A reading of the system's monotonic clock.
#[verifier::external_type_specification]
#[verifier::external_body]
pub struct ExInstant(Instant);

/// `std::time::Instant::now`: a reading of the monotonic clock, of which
/// nothing is claimed.
#[verifier::external_body]
pub(crate) fn clock_start() -> Instant {
    Instant::now()
}

/// `std::time::Instant::elapsed`: the milliseconds since `start`, of which
/// nothing is claimed.
#[verifier::external_body]
pub(crate) fn clock_elapsed_ms(start: &Instant) -> u64 {
    start.elapsed().as_millis() as u64
}

} // verus!
