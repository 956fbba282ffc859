//! Calendar days and instants, as plain numbers, and the system clock.
//!
//! A [`Date`] is a day of the proleptic Gregorian calendar, held as its day
//! number counted from January 1 of year 1 (day 1), within the range of
//! `chrono::NaiveDate`. A [`Timestamp`] is an instant in seconds and
//! nanoseconds since the Unix epoch.

use vstd::prelude::*;
use chrono::Datelike;

verus! {

/// Day number of the earliest date: January 1 of year -262143.
pub const MIN_DAY: i32 = -95_746_129;

/// Day number of the latest date: December 31 of year 262142.
pub const MAX_DAY: i32 = 95_745_399;

/// Day number of January 1 of 1970, the day of the Unix epoch.
pub const UNIX_EPOCH_DAY: i32 = 719_163;

/// The seconds of a day. Leap seconds are not counted.
pub const SECONDS_PER_DAY: i64 = 86_400;

/// The nanoseconds of a second.
pub const NANOS_PER_SECOND: u32 = 1_000_000_000;

/// A calendar day.
#[derive(Clone, Copy, Debug, PartialEq, Eq, Structural)]
pub struct Date {
    days: i32,
}

/// An instant: whole seconds since the Unix epoch and the nanoseconds past them.
#[derive(Clone, Copy, Debug, PartialEq, Eq, Structural)]
pub struct Timestamp {
    pub secs: i64,
    pub nanos: u32,
}

/// Whether `day` numbers a date in range.
pub open spec fn day_in_range(day: int) -> bool {
    MIN_DAY <= day <= MAX_DAY
}

/// Reads the system clock once with `chrono::Utc::now` and gives the day
/// number of the current UTC date, the seconds since the Unix epoch and the
/// nanoseconds past them. Whatever the clock says, the date is one that
/// `chrono::NaiveDate` can hold, the seconds lie within that day, counted
/// from the day of the epoch, and the nanoseconds are less than a second.
/// The call does not return where the system clock stands before the Unix
/// epoch.
#[verifier::external_body]
fn clock_outside() -> (r: (i32, i64, u32))
    ensures
        day_in_range(r.0 as int),
        (r.0 - UNIX_EPOCH_DAY) * SECONDS_PER_DAY <= r.1 < (r.0 - UNIX_EPOCH_DAY + 1)
            * SECONDS_PER_DAY,
        r.2 < NANOS_PER_SECOND,
{
    let t = chrono::Utc::now();
    (t.date_naive().num_days_from_ce(), t.timestamp(), t.timestamp_subsec_nanos())
}

/// Calls `chrono::NaiveDate::checked_add_signed` with a span of `n` whole
/// days on the date numbered `day`: the date `n` days later where that is in
/// range, else `None`.
#[verifier::external_body]
fn add_days_outside(day: i32, n: i32) -> (r: Option<i32>)
    requires
        day_in_range(day as int),
    ensures
        r == if day_in_range(day + n) {
            Some((day + n) as i32)
        } else {
            None
        },
{
    chrono::NaiveDate::from_num_days_from_ce_opt(day)
        .and_then(|d| d.checked_add_signed(chrono::TimeDelta::days(i64::from(n))))
        .map(|d| d.num_days_from_ce())
}

impl Date {
    /// The day number, as a specification value.
    pub closed spec fn spec_days(&self) -> i32 {
        self.days
    }

    #[verifier::type_invariant]
    closed spec fn inv(&self) -> bool {
        day_in_range(self.days as int)
    }

    /// The date with the day number `day`, as a specification value. It
    /// stands for a date only where `day` is in range.
    pub closed spec fn at_day(day: int) -> Date {
        Date { days: day as i32 }
    }

    /// The date `n` days after this one, as a specification value.
    pub open spec fn plus_days(&self, n: int) -> Date {
        Self::at_day(self.spec_days() + n)
    }

    /// A day number in range is the day number of the date made from it.
    pub proof fn lemma_at_day(day: int)
        requires
            day_in_range(day),
        ensures
            Self::at_day(day).spec_days() == day,
    {
    }

    /// A date is determined by its day number.
    pub proof fn lemma_day_determines_date(a: Date, b: Date)
        requires
            a.spec_days() == b.spec_days(),
        ensures
            a == b,
    {
    }

    /// The date with the given day number, if there is one.
    pub fn from_days_from_ce(days: i32) -> (r: Option<Date>)
        ensures
            r == if day_in_range(days as int) {
                Some(Self::at_day(days as int))
            } else {
                None
            },
            r is Some ==> r->0.spec_days() == days,
    {
        if MIN_DAY <= days && days <= MAX_DAY {
            Some(Date { days })
        } else {
            None
        }
    }

    /// The day number, counted from January 1 of year 1 as day 1.
    #[verifier::when_used_as_spec(spec_days)]
    pub fn days_from_ce(&self) -> (d: i32)
        ensures
            d == self.spec_days(),
            day_in_range(d as int),
    {
        proof {
            use_type_invariant(self);
        }
        self.days
    }

    /// The current UTC date.
    pub fn today() -> (d: Date)
        ensures
            day_in_range(d.spec_days() as int),
    {
        let now = clock_outside();
        Date { days: now.0 }
    }

    /// The date `n` days later, or `None` where that is out of range.
    pub fn checked_add_days(&self, n: i32) -> (r: Option<Date>)
        ensures
            r == if day_in_range(self.spec_days() + n) {
                Some(self.plus_days(n as int))
            } else {
                None
            },
            r is Some ==> r->0.spec_days() == self.spec_days() + n,
    {
        proof {
            use_type_invariant(self);
        }
        match add_days_outside(self.days, n) {
            Some(days) => Some(Date { days }),
            None => None,
        }
    }
}

impl Timestamp {
    /// The day number of the UTC date on which the instant falls.
    pub open spec fn utc_day(&self) -> int {
        UNIX_EPOCH_DAY + self.secs as int / SECONDS_PER_DAY as int
    }

    /// The current instant: its nanoseconds are less than a second, and the
    /// UTC day on which it falls is a date in range.
    pub fn now() -> (t: Timestamp)
        ensures
            t.nanos < NANOS_PER_SECOND,
            day_in_range(t.utc_day()),
    {
        let now = clock_outside();
        Timestamp { secs: now.1, nanos: now.2 }
    }
}

} // verus!
