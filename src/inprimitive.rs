//! Dates with a time of day, some of whose components are unknown.
use vstd::prelude::*;

use crate::date::{Month, Weekday};
use crate::datetime::PrimitiveDateTime;
use crate::error::InComponentRange;
use crate::incomplete::InComplete;
use crate::indate::{indate_result, lemma_indate_fallback_complete, lemma_indate_round_trip, InDate};
use crate::inoffset::InOffsetDateTime;
use crate::intime::{
    intime_micro_result, intime_milli_result, intime_result, lemma_intime_fallback_complete,
    lemma_intime_round_trip, InTime,
};
use crate::offset::UtcOffset;

verus! {

broadcast use
    crate::datetime::group_datetime,
    crate::indate::group_indate,
    crate::intime::group_intime,
    crate::offset::group_offset,
;

/// The value with date `date` (or the error that came instead) and time of day `time`.
pub open spec fn with_indate(date: Result<InDate, InComponentRange>, time: InTime) -> Result<
    InPrimitiveDateTime,
    InComponentRange,
> {
    match date {
        Ok(d) => Ok(InPrimitiveDateTime::from_parts(d, time)),
        Err(e) => Err(e),
    }
}

/// The value with date `date` and time of day `time` (or the error that came instead).
pub open spec fn with_intime(date: InDate, time: Result<InTime, InComponentRange>) -> Result<
    InPrimitiveDateTime,
    InComponentRange,
> {
    match time {
        Ok(t) => Ok(InPrimitiveDateTime::from_parts(date, t)),
        Err(e) => Err(e),
    }
}

/// A date and a time of day, each with components that may be unknown.
#[derive(Debug, Clone, Copy, PartialEq, Eq, Structural, Hash)]
pub struct InPrimitiveDateTime {
    date: InDate,
    time: InTime,
}

impl InPrimitiveDateTime {
    /// The date part.
    pub closed spec fn spec_date(&self) -> InDate {
        self.date
    }

    /// The time-of-day part.
    pub closed spec fn spec_time(&self) -> InTime {
        self.time
    }

    /// The value made of the given parts.
    pub closed spec fn from_parts(date: InDate, time: InTime) -> InPrimitiveDateTime {
        InPrimitiveDateTime { date, time }
    }

    /// Whether every component is present.
    pub open spec fn is_complete(&self) -> bool {
        self.spec_date().is_complete() && self.spec_time().is_complete()
    }

    /// The parts of a value built from parts are those parts.
    pub broadcast proof fn lemma_from_parts(date: InDate, time: InTime)
        ensures
            #[trigger] InPrimitiveDateTime::from_parts(date, time).spec_date() == date,
            InPrimitiveDateTime::from_parts(date, time).spec_time() == time,
    {
    }

    /// A value is determined by its parts.
    pub broadcast proof fn lemma_parts(dt: InPrimitiveDateTime)
        ensures
            #[trigger] InPrimitiveDateTime::from_parts(dt.spec_date(), dt.spec_time()) == dt,
    {
    }

    /// Combines an incomplete date and an incomplete time of day.
    pub fn new(date: InDate, time: InTime) -> (r: InPrimitiveDateTime)
        ensures
            r == InPrimitiveDateTime::from_parts(date, time),
    {
        InPrimitiveDateTime { date, time }
    }

    /// Returns the date.
    pub fn date(self) -> (r: InDate)
        ensures
            r == self.spec_date(),
    {
        self.date
    }

    /// Returns the year.
    pub fn year(self) -> (r: Option<i32>)
        ensures
            r == self.spec_date().spec_year(),
    {
        self.date.year()
    }

    /// Returns the month.
    pub fn month(self) -> (r: Option<Month>)
        ensures
            r == self.spec_date().spec_month(),
    {
        self.date.month()
    }

    /// Returns the day of the week, or `None` when the date cannot be completed.
    pub fn weekday(self) -> (r: Option<Weekday>)
        ensures
            r == self.spec_date().spec_weekday(),
    {
        self.date.weekday()
    }

    /// Returns the day of the month.
    pub fn day(self) -> (r: Option<u8>)
        ensures
            r == self.spec_date().spec_day(),
    {
        self.date.day()
    }

    /// Returns the time of day.
    pub fn time(self) -> (r: InTime)
        ensures
            r == self.spec_time(),
    {
        self.time
    }

    /// Returns the clock hour.
    pub fn hour(self) -> (r: Option<u8>)
        ensures
            r == self.spec_time().spec_hour(),
    {
        self.time.hour()
    }

    /// Returns the minute within the hour.
    pub fn minute(self) -> (r: Option<u8>)
        ensures
            r == self.spec_time().spec_minute(),
    {
        self.time.minute()
    }

    /// Returns the second within the minute.
    pub fn second(self) -> (r: Option<u8>)
        ensures
            r == self.spec_time().spec_second(),
    {
        self.time.second()
    }

    /// Returns the milliseconds within the second.
    pub fn millisecond(self) -> (r: Option<u16>)
        ensures
            r == (match self.spec_time().spec_nanosecond() {
                Some(n) => Some((n / 1_000_000) as u16),
                None => None,
            }),
    {
        self.time.millisecond()
    }

    /// Returns the microseconds within the second.
    pub fn microsecond(self) -> (r: Option<u32>)
        ensures
            r == (match self.spec_time().spec_nanosecond() {
                Some(n) => Some(n / 1000),
                None => None,
            }),
    {
        self.time.microsecond()
    }

    /// Returns the nanoseconds within the second.
    pub fn nanosecond(self) -> (r: Option<u32>)
        ensures
            r == self.spec_time().spec_nanosecond(),
    {
        self.time.nanosecond()
    }

    /// Replaces the date.
    pub fn replace_date(self, date: InDate) -> (r: Result<InPrimitiveDateTime, InComponentRange>)
        ensures
            r == with_indate(Ok(date), self.spec_time()),
    {
        Ok(InPrimitiveDateTime::new(date, self.time))
    }

    /// Replaces the year.
    pub fn replace_year(self, year: Option<i32>) -> (r: Result<InPrimitiveDateTime, InComponentRange>)
        ensures
            r == with_indate(
                indate_result(year, self.spec_date().spec_month(), self.spec_date().spec_day()),
                self.spec_time(),
            ),
    {
        match self.date.replace_year(year) {
            Ok(d) => self.replace_date(d),
            Err(e) => Err(e),
        }
    }

    /// Replaces the month of the year.
    pub fn replace_month(self, month: Option<Month>) -> (r: Result<InPrimitiveDateTime, InComponentRange>)
        ensures
            r == with_indate(
                indate_result(self.spec_date().spec_year(), month, self.spec_date().spec_day()),
                self.spec_time(),
            ),
    {
        match self.date.replace_month(month) {
            Ok(d) => self.replace_date(d),
            Err(e) => Err(e),
        }
    }

    /// Replaces the day of the month.
    pub fn replace_day(self, day: Option<u8>) -> (r: Result<InPrimitiveDateTime, InComponentRange>)
        ensures
            r == with_indate(
                indate_result(self.spec_date().spec_year(), self.spec_date().spec_month(), day),
                self.spec_time(),
            ),
    {
        match self.date.replace_day(day) {
            Ok(d) => self.replace_date(d),
            Err(e) => Err(e),
        }
    }

    /// Replaces the time of day.
    pub fn replace_time(self, time: InTime) -> (r: Result<InPrimitiveDateTime, InComponentRange>)
        ensures
            r == with_intime(self.spec_date(), Ok(time)),
    {
        Ok(InPrimitiveDateTime::new(self.date, time))
    }

    /// Replaces the clock hour.
    pub fn replace_hour(self, hour: Option<u8>) -> (r: Result<InPrimitiveDateTime, InComponentRange>)
        ensures
            r == with_intime(
                self.spec_date(),
                intime_result(
                    hour,
                    self.spec_time().spec_minute(),
                    self.spec_time().spec_second(),
                    self.spec_time().spec_nanosecond(),
                ),
            ),
    {
        match self.time.replace_hour(hour) {
            Ok(t) => self.replace_time(t),
            Err(e) => Err(e),
        }
    }

    /// Replaces the minute within the hour.
    pub fn replace_minute(self, minute: Option<u8>) -> (r: Result<InPrimitiveDateTime, InComponentRange>)
        ensures
            r == with_intime(
                self.spec_date(),
                intime_result(
                    self.spec_time().spec_hour(),
                    minute,
                    self.spec_time().spec_second(),
                    self.spec_time().spec_nanosecond(),
                ),
            ),
    {
        match self.time.replace_minute(minute) {
            Ok(t) => self.replace_time(t),
            Err(e) => Err(e),
        }
    }

    /// Replaces the second within the minute.
    pub fn replace_second(self, second: Option<u8>) -> (r: Result<InPrimitiveDateTime, InComponentRange>)
        ensures
            r == with_intime(
                self.spec_date(),
                intime_result(
                    self.spec_time().spec_hour(),
                    self.spec_time().spec_minute(),
                    second,
                    self.spec_time().spec_nanosecond(),
                ),
            ),
    {
        match self.time.replace_second(second) {
            Ok(t) => self.replace_time(t),
            Err(e) => Err(e),
        }
    }

    /// Replaces the sub-second part with a number of milliseconds.
    pub fn replace_millisecond(self, millisecond: Option<u16>) -> (r: Result<
        InPrimitiveDateTime,
        InComponentRange,
    >)
        ensures
            r == with_intime(
                self.spec_date(),
                intime_milli_result(
                    self.spec_time().spec_hour(),
                    self.spec_time().spec_minute(),
                    self.spec_time().spec_second(),
                    millisecond,
                ),
            ),
    {
        match self.time.replace_millisecond(millisecond) {
            Ok(t) => self.replace_time(t),
            Err(e) => Err(e),
        }
    }

    /// Replaces the sub-second part with a number of microseconds.
    pub fn replace_microsecond(self, microsecond: Option<u32>) -> (r: Result<
        InPrimitiveDateTime,
        InComponentRange,
    >)
        ensures
            r == with_intime(
                self.spec_date(),
                intime_micro_result(
                    self.spec_time().spec_hour(),
                    self.spec_time().spec_minute(),
                    self.spec_time().spec_second(),
                    microsecond,
                ),
            ),
    {
        match self.time.replace_microsecond(microsecond) {
            Ok(t) => self.replace_time(t),
            Err(e) => Err(e),
        }
    }

    /// Replaces the nanoseconds within the second.
    pub fn replace_nanosecond(self, nanosecond: Option<u32>) -> (r: Result<
        InPrimitiveDateTime,
        InComponentRange,
    >)
        ensures
            r == with_intime(
                self.spec_date(),
                intime_result(
                    self.spec_time().spec_hour(),
                    self.spec_time().spec_minute(),
                    self.spec_time().spec_second(),
                    nanosecond,
                ),
            ),
    {
        match self.time.replace_nanosecond(nanosecond) {
            Ok(t) => self.replace_time(t),
            Err(e) => Err(e),
        }
    }

    /// Takes the value as a moment in the given offset, which may be unknown.
    pub fn assume_offset(self, offset: Option<UtcOffset>) -> (r: InOffsetDateTime)
        ensures
            r == InOffsetDateTime::from_parts(self, offset),
    {
        InOffsetDateTime::new(self, offset)
    }

    /// Takes the value as a moment in UTC.
    pub fn assume_utc(self) -> (r: InOffsetDateTime)
        ensures
            r == InOffsetDateTime::from_parts(self, Some(UtcOffset::from_parts(0))),
    {
        self.assume_offset(Some(UtcOffset::utc()))
    }
}

impl InComplete for InPrimitiveDateTime {
    type Complete = PrimitiveDateTime;

    open spec fn spec_from_complete(complete: PrimitiveDateTime) -> InPrimitiveDateTime {
        InPrimitiveDateTime::from_parts(
            InDate::spec_from_complete(complete.spec_date()),
            InTime::spec_from_complete(complete.spec_time()),
        )
    }

    open spec fn spec_into_complete(self) -> Result<PrimitiveDateTime, InComponentRange> {
        match self.spec_date().spec_into_complete() {
            Err(e) => Err(e),
            Ok(d) => match self.spec_time().spec_into_complete() {
                Err(e) => Err(e),
                Ok(t) => Ok(PrimitiveDateTime::from_parts(d, t)),
            },
        }
    }

    open spec fn spec_with_fallback(self, fallback: PrimitiveDateTime) -> Result<
        InPrimitiveDateTime,
        InComponentRange,
    > {
        match self.spec_date().spec_with_fallback(fallback.spec_date()) {
            Err(e) => Err(e),
            Ok(d) => with_intime(d, self.spec_time().spec_with_fallback(fallback.spec_time())),
        }
    }

    fn from_complete(complete: PrimitiveDateTime) -> (r: InPrimitiveDateTime) {
        let d = InDate::from_complete(complete.date());
        let t = InTime::from_complete(complete.time());
        InPrimitiveDateTime::new(d, t)
    }

    fn into_complete(self) -> (r: Result<PrimitiveDateTime, InComponentRange>) {
        let d = match self.date.into_complete() {
            Ok(d) => d,
            Err(e) => return Err(e),
        };
        let t = match self.time.into_complete() {
            Ok(t) => t,
            Err(e) => return Err(e),
        };
        Ok(PrimitiveDateTime::new(d, t))
    }

    fn with_fallback(self, fallback: PrimitiveDateTime) -> (r: Result<
        InPrimitiveDateTime,
        InComponentRange,
    >) {
        let d = match self.date.with_fallback(fallback.date()) {
            Ok(d) => d,
            Err(e) => return Err(e),
        };
        let t = match self.time.with_fallback(fallback.time()) {
            Ok(t) => t,
            Err(e) => return Err(e),
        };
        Ok(InPrimitiveDateTime::new(d, t))
    }
}

/// Completing the incomplete form of a date and time gives back that date and time.
pub proof fn lemma_inprimitive_round_trip(dt: PrimitiveDateTime)
    requires
        dt.wf(),
    ensures
        InPrimitiveDateTime::spec_from_complete(dt).spec_into_complete() == Ok::<_, InComponentRange>(dt),
{
    lemma_indate_round_trip(dt.spec_date());
    lemma_intime_round_trip(dt.spec_time());
}

/// Filling an incomplete date and time from a date and time, when it succeeds, leaves no
/// component absent.
pub proof fn lemma_inprimitive_fallback_complete(p: InPrimitiveDateTime, fallback: PrimitiveDateTime)
    requires
        p.spec_time().wf(),
        fallback.wf(),
    ensures
        p.spec_with_fallback(fallback) matches Ok(q) ==> q.is_complete(),
{
    lemma_indate_fallback_complete(p.spec_date(), fallback.spec_date());
    lemma_intime_fallback_complete(p.spec_time(), fallback.spec_time());
}

pub broadcast group group_inprimitive {
    InPrimitiveDateTime::lemma_from_parts,
    InPrimitiveDateTime::lemma_parts,
}

} // verus!
