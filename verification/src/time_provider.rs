//! Dates and times for directory entries, taken from a count of nanoseconds
//! since the Unix epoch.

use vstd::prelude::*;

verus! {

/// A calendar date with a time of day, in UTC.
#[derive(Clone, Copy, Debug, PartialEq, Eq, Structural)]
pub struct CivilTime {
    pub year: i32,
    pub month: u8,
    pub day: u8,
    pub hour: u8,
    pub minute: u8,
    pub second: u8,
    pub millisecond: u16,
}

/// A DOS compatible date.
#[derive(Clone, Copy, Debug, PartialEq, Eq, Structural)]
pub struct Date {
    /// Full year - [1980, 2107]
    pub year: u16,
    /// Month of the year - [1, 12]
    pub month: u16,
    /// Day of the month - [1, 31]
    pub day: u16,
}

/// A DOS compatible time.
#[derive(Clone, Copy, Debug, PartialEq, Eq, Structural)]
pub struct Time {
    /// Hours after midnight - [0, 23]
    pub hour: u16,
    /// Minutes after the hour - [0, 59]
    pub min: u16,
    /// Seconds after the minute - [0, 59]
    pub sec: u16,
    /// Milliseconds after the second - [0, 999]
    pub millis: u16,
}

/// A DOS compatible date and time.
#[derive(Clone, Copy, Debug, PartialEq, Eq, Structural)]
pub struct DateTime {
    pub date: Date,
    pub time: Time,
}

impl CivilTime {
    /// A DOS date and time can hold this: the year is one that it can store
    /// and every other field lies in its calendar range.
    pub open spec fn fits_dos(self) -> bool {
        &&& 1980 <= self.year <= 2107
        &&& 1 <= self.month <= 12
        &&& 1 <= self.day <= 31
        &&& self.hour <= 23
        &&& self.minute <= 59
        &&& self.second <= 59
        &&& self.millisecond <= 999
    }

    /// The same date and time, field by field, as a DOS date and time.
    pub open spec fn to_dos(self) -> DateTime {
        DateTime {
            date: Date { year: self.year as u16, month: self.month as u16, day: self.day as u16 },
            time: Time {
                hour: self.hour as u16,
                min: self.minute as u16,
                sec: self.second as u16,
                millis: self.millisecond,
            },
        }
    }
}

impl DateTime {
    /// Every field lies in the range that a DOS date and time allows.
    pub open spec fn valid(self) -> bool {
        &&& 1980 <= self.date.year <= 2107
        &&& 1 <= self.date.month <= 12
        &&& 1 <= self.date.day <= 31
        &&& self.time.hour <= 23
        &&& self.time.min <= 59
        &&& self.time.sec <= 59
        &&& self.time.millis <= 999
    }
}

/// The calendar date and time of day, in UTC, that lie `unix_nanos`
/// nanoseconds after 1970-01-01 00:00:00 UTC, as the `time` crate computes
/// them; `None` where it cannot represent that instant.
pub uninterp spec fn civil_time_at(unix_nanos: i64) -> Option<CivilTime>;

/// The DOS date and time at `now` nanoseconds since the Unix epoch, where
/// there is one.
pub open spec fn dos_date_time_at(now: u64) -> Option<DateTime> {
    if now > i64::MAX {
        None
    } else {
        match civil_time_at(now as i64) {
            Some(civil) => if civil.fits_dos() {
                Some(civil.to_dos())
            } else {
                None
            },
            None => None,
        }
    }
}

/// Calls `time::OffsetDateTime::checked_add` on `OffsetDateTime::UNIX_EPOCH`
/// with a `time::Duration` of `unix_nanos` nanoseconds, and reads the fields
/// of the sum, which are in UTC, with its getters. Not verified: the contract
/// only gives the result its name, `civil_time_at`.
#[verifier::external_body]
fn civil_time(unix_nanos: i64) -> (r: Option<CivilTime>)
    ensures
        r == civil_time_at(unix_nanos),
{
    let elapsed = time::Duration::nanoseconds(unix_nanos);
    let sum = time::OffsetDateTime::UNIX_EPOCH.checked_add(elapsed)?;
    Some(
        CivilTime {
            year: sum.year(),
            month: u8::from(sum.month()),
            day: sum.day(),
            hour: sum.hour(),
            minute: sum.minute(),
            second: sum.second(),
            millisecond: sum.millisecond(),
        },
    )
}

/// Turns a calendar date and time into a DOS date and time, field by field.
/// `None` where a DOS date and time cannot hold it: a year outside
/// 1980..=2107, or a field outside its calendar range.
pub fn dos_date_time(civil: CivilTime) -> (r: Option<DateTime>)
    ensures
        r == if civil.fits_dos() {
            Some(civil.to_dos())
        } else {
            None
        },
        r matches Some(date_time) ==> date_time.valid(),
{
    if civil.year < 1980 || civil.year > 2107 {
        return None;
    }
    if civil.month < 1 || civil.month > 12 || civil.day < 1 || civil.day > 31 {
        return None;
    }
    if civil.hour > 23 || civil.minute > 59 || civil.second > 59 || civil.millisecond > 999 {
        return None;
    }
    Some(
        DateTime {
            date: Date { year: civil.year as u16, month: civil.month as u16, day: civil.day as u16 },
            time: Time {
                hour: civil.hour as u16,
                min: civil.minute as u16,
                sec: civil.second as u16,
                millis: civil.millisecond,
            },
        },
    )
}

/// Gives the date and time of directory entries, from the time that its
/// caller read off the clock.
#[derive(Debug, Clone, Copy)]
pub struct TimeProvider {
    _dummy: (),
}

impl TimeProvider {
    #[must_use]
    pub fn new() -> Self {
        Self { _dummy: () }
    }

    /// The DOS date at `now` nanoseconds since the Unix epoch. `None` where
    /// `get_current_date_time` gives none.
    pub fn get_current_date(&self, now: u64) -> (r: Option<Date>)
        ensures
            r == match dos_date_time_at(now) {
                Some(date_time) => Some(date_time.date),
                None => None,
            },
    {
        match self.get_current_date_time(now) {
            Some(date_time) => Some(date_time.date),
            None => None,
        }
    }

    /// The DOS date and time at `now` nanoseconds since the Unix epoch.
    /// `None` where a DOS date and time cannot hold it, as before 1980 and
    /// after 2107.
    pub fn get_current_date_time(&self, now: u64) -> (r: Option<DateTime>)
        ensures
            r == dos_date_time_at(now),
            r matches Some(date_time) ==> date_time.valid(),
    {
        if now > i64::MAX as u64 {
            return None;
        }
        match civil_time(now as i64) {
            Some(civil) => dos_date_time(civil),
            None => None,
        }
    }
}

impl Default for TimeProvider {
    fn default() -> Self {
        TimeProvider::new()
    }
}

} // verus!
