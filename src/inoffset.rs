//! Dates with a time of day and an offset, some of whose components are unknown.
use vstd::prelude::*;

use crate::date::{Month, Weekday};
use crate::datetime::{OffsetDateTime, PrimitiveDateTime};
use crate::error::{missing, InCompleteError, InComponentRange};
use crate::incomplete::InComplete;
use crate::indate::{indate_result, InDate};
use crate::inprimitive::{
    lemma_inprimitive_fallback_complete, lemma_inprimitive_round_trip, with_indate, with_intime,
    InPrimitiveDateTime,
};
use crate::intime::{intime_micro_result, intime_milli_result, intime_result, InTime};
use crate::offset::UtcOffset;

verus! {

broadcast use
    crate::datetime::group_datetime,
    crate::inprimitive::group_inprimitive,
    crate::error::group_error,
;

/// The value with local date and time `datetime` (or the error that came instead) and
/// offset `offset`.
pub open spec fn with_datetime(
    datetime: Result<InPrimitiveDateTime, InComponentRange>,
    offset: Option<UtcOffset>,
) -> Result<InOffsetDateTime, InComponentRange> {
    match datetime {
        Ok(dt) => Ok(InOffsetDateTime::from_parts(dt, offset)),
        Err(e) => Err(e),
    }
}

/// A local date and time of day with an offset from UTC, each with components that may
/// be unknown.
#[derive(Debug, Clone, Copy, PartialEq, Eq, Structural, Hash)]
pub struct InOffsetDateTime {
    datetime: InPrimitiveDateTime,
    offset: Option<UtcOffset>,
}

impl InOffsetDateTime {
    /// The local date and time.
    pub closed spec fn spec_datetime(&self) -> InPrimitiveDateTime {
        self.datetime
    }

    /// The offset, when known.
    pub closed spec fn spec_offset(&self) -> Option<UtcOffset> {
        self.offset
    }

    /// The value made of the given parts.
    pub closed spec fn from_parts(datetime: InPrimitiveDateTime, offset: Option<UtcOffset>) -> InOffsetDateTime {
        InOffsetDateTime { datetime, offset }
    }

    /// Whether every component is present.
    pub open spec fn is_complete(&self) -> bool {
        self.spec_datetime().is_complete() && self.spec_offset() is Some
    }

    /// The parts of a value built from parts are those parts.
    pub broadcast proof fn lemma_from_parts(datetime: InPrimitiveDateTime, offset: Option<UtcOffset>)
        ensures
            #[trigger] InOffsetDateTime::from_parts(datetime, offset).spec_datetime() == datetime,
            InOffsetDateTime::from_parts(datetime, offset).spec_offset() == offset,
    {
    }

    /// A value is determined by its parts.
    pub broadcast proof fn lemma_parts(dt: InOffsetDateTime)
        ensures
            #[trigger] InOffsetDateTime::from_parts(dt.spec_datetime(), dt.spec_offset()) == dt,
    {
    }

    /// Combines an incomplete local date and time with an offset, which may be unknown.
    pub fn new(datetime: InPrimitiveDateTime, offset: Option<UtcOffset>) -> (r: InOffsetDateTime)
        ensures
            r == InOffsetDateTime::from_parts(datetime, offset),
    {
        InOffsetDateTime { datetime, offset }
    }

    /// Returns the offset.
    pub fn offset(self) -> (r: Option<UtcOffset>)
        ensures
            r == self.spec_offset(),
    {
        self.offset
    }

    /// Returns the local date.
    pub fn date(self) -> (r: InDate)
        ensures
            r == self.spec_datetime().spec_date(),
    {
        self.datetime.date()
    }

    /// Returns the year.
    pub fn year(self) -> (r: Option<i32>)
        ensures
            r == self.spec_datetime().spec_date().spec_year(),
    {
        self.datetime.year()
    }

    /// Returns the month.
    pub fn month(self) -> (r: Option<Month>)
        ensures
            r == self.spec_datetime().spec_date().spec_month(),
    {
        self.datetime.month()
    }

    /// Returns the day of the week, or `None` when the date cannot be completed.
    pub fn weekday(self) -> (r: Option<Weekday>)
        ensures
            r == self.spec_datetime().spec_date().spec_weekday(),
    {
        self.datetime.weekday()
    }

    /// Returns the day of the month.
    pub fn day(self) -> (r: Option<u8>)
        ensures
            r == self.spec_datetime().spec_date().spec_day(),
    {
        self.datetime.day()
    }

    /// Returns the local time of day.
    pub fn time(self) -> (r: InTime)
        ensures
            r == self.spec_datetime().spec_time(),
    {
        self.datetime.time()
    }

    /// Returns the clock hour.
    pub fn hour(self) -> (r: Option<u8>)
        ensures
            r == self.spec_datetime().spec_time().spec_hour(),
    {
        self.datetime.hour()
    }

    /// Returns the minute within the hour.
    pub fn minute(self) -> (r: Option<u8>)
        ensures
            r == self.spec_datetime().spec_time().spec_minute(),
    {
        self.datetime.minute()
    }

    /// Returns the second within the minute.
    pub fn second(self) -> (r: Option<u8>)
        ensures
            r == self.spec_datetime().spec_time().spec_second(),
    {
        self.datetime.second()
    }

    /// Returns the milliseconds within the second.
    pub fn millisecond(self) -> (r: Option<u16>)
        ensures
            r == (match self.spec_datetime().spec_time().spec_nanosecond() {
                Some(n) => Some((n / 1_000_000) as u16),
                None => None,
            }),
    {
        self.datetime.millisecond()
    }

    /// Returns the microseconds within the second.
    pub fn microsecond(self) -> (r: Option<u32>)
        ensures
            r == (match self.spec_datetime().spec_time().spec_nanosecond() {
                Some(n) => Some(n / 1000),
                None => None,
            }),
    {
        self.datetime.microsecond()
    }

    /// Returns the nanoseconds within the second.
    pub fn nanosecond(self) -> (r: Option<u32>)
        ensures
            r == self.spec_datetime().spec_time().spec_nanosecond(),
    {
        self.datetime.nanosecond()
    }

    /// Replaces the offset.
    pub fn replace_offset(self, offset: Option<UtcOffset>) -> (r: Result<InOffsetDateTime, InComponentRange>)
        ensures
            r == with_datetime(Ok(self.spec_datetime()), offset),
    {
        Ok(InOffsetDateTime::new(self.datetime, offset))
    }

    /// Replaces the local date and time.
    pub fn replace_date_time(self, datetime: InPrimitiveDateTime) -> (r: Result<
        InOffsetDateTime,
        InComponentRange,
    >)
        ensures
            r == with_datetime(Ok(datetime), self.spec_offset()),
    {
        Ok(InOffsetDateTime::new(datetime, self.offset))
    }

    /// Replaces the local date.
    pub fn replace_date(self, date: InDate) -> (r: Result<InOffsetDateTime, InComponentRange>)
        ensures
            r == with_datetime(with_indate(Ok(date), self.spec_datetime().spec_time()), self.spec_offset()),
    {
        match self.datetime.replace_date(date) {
            Ok(dt) => self.replace_date_time(dt),
            Err(e) => Err(e),
        }
    }

    /// Replaces the year.
    pub fn replace_year(self, year: Option<i32>) -> (r: Result<InOffsetDateTime, InComponentRange>)
        ensures
            r == with_datetime(
                with_indate(
                    indate_result(
                        year,
                        self.spec_datetime().spec_date().spec_month(),
                        self.spec_datetime().spec_date().spec_day(),
                    ),
                    self.spec_datetime().spec_time(),
                ),
                self.spec_offset(),
            ),
    {
        match self.datetime.replace_year(year) {
            Ok(dt) => self.replace_date_time(dt),
            Err(e) => Err(e),
        }
    }

    /// Replaces the month of the year.
    pub fn replace_month(self, month: Option<Month>) -> (r: Result<InOffsetDateTime, InComponentRange>)
        ensures
            r == with_datetime(
                with_indate(
                    indate_result(
                        self.spec_datetime().spec_date().spec_year(),
                        month,
                        self.spec_datetime().spec_date().spec_day(),
                    ),
                    self.spec_datetime().spec_time(),
                ),
                self.spec_offset(),
            ),
    {
        match self.datetime.replace_month(month) {
            Ok(dt) => self.replace_date_time(dt),
            Err(e) => Err(e),
        }
    }

    /// Replaces the day of the month.
    pub fn replace_day(self, day: Option<u8>) -> (r: Result<InOffsetDateTime, InComponentRange>)
        ensures
            r == with_datetime(
                with_indate(
                    indate_result(
                        self.spec_datetime().spec_date().spec_year(),
                        self.spec_datetime().spec_date().spec_month(),
                        day,
                    ),
                    self.spec_datetime().spec_time(),
                ),
                self.spec_offset(),
            ),
    {
        match self.datetime.replace_day(day) {
            Ok(dt) => self.replace_date_time(dt),
            Err(e) => Err(e),
        }
    }

    /// Replaces the local time of day.
    pub fn replace_time(self, time: InTime) -> (r: Result<InOffsetDateTime, InComponentRange>)
        ensures
            r == with_datetime(with_intime(self.spec_datetime().spec_date(), Ok(time)), self.spec_offset()),
    {
        match self.datetime.replace_time(time) {
            Ok(dt) => self.replace_date_time(dt),
            Err(e) => Err(e),
        }
    }

    /// Replaces the clock hour.
    pub fn replace_hour(self, hour: Option<u8>) -> (r: Result<InOffsetDateTime, InComponentRange>)
        ensures
            r == with_datetime(
                with_intime(
                    self.spec_datetime().spec_date(),
                    intime_result(
                        hour,
                        self.spec_datetime().spec_time().spec_minute(),
                        self.spec_datetime().spec_time().spec_second(),
                        self.spec_datetime().spec_time().spec_nanosecond(),
                    ),
                ),
                self.spec_offset(),
            ),
    {
        match self.datetime.replace_hour(hour) {
            Ok(dt) => self.replace_date_time(dt),
            Err(e) => Err(e),
        }
    }

    /// Replaces the minute within the hour.
    pub fn replace_minute(self, minute: Option<u8>) -> (r: Result<InOffsetDateTime, InComponentRange>)
        ensures
            r == with_datetime(
                with_intime(
                    self.spec_datetime().spec_date(),
                    intime_result(
                        self.spec_datetime().spec_time().spec_hour(),
                        minute,
                        self.spec_datetime().spec_time().spec_second(),
                        self.spec_datetime().spec_time().spec_nanosecond(),
                    ),
                ),
                self.spec_offset(),
            ),
    {
        match self.datetime.replace_minute(minute) {
            Ok(dt) => self.replace_date_time(dt),
            Err(e) => Err(e),
        }
    }

    /// Replaces the second within the minute.
    pub fn replace_second(self, second: Option<u8>) -> (r: Result<InOffsetDateTime, InComponentRange>)
        ensures
            r == with_datetime(
                with_intime(
                    self.spec_datetime().spec_date(),
                    intime_result(
                        self.spec_datetime().spec_time().spec_hour(),
                        self.spec_datetime().spec_time().spec_minute(),
                        second,
                        self.spec_datetime().spec_time().spec_nanosecond(),
                    ),
                ),
                self.spec_offset(),
            ),
    {
        match self.datetime.replace_second(second) {
            Ok(dt) => self.replace_date_time(dt),
            Err(e) => Err(e),
        }
    }

    /// Replaces the sub-second part with a number of milliseconds.
    pub fn replace_millisecond(self, millisecond: Option<u16>) -> (r: Result<
        InOffsetDateTime,
        InComponentRange,
    >)
        ensures
            r == with_datetime(
                with_intime(
                    self.spec_datetime().spec_date(),
                    intime_milli_result(
                        self.spec_datetime().spec_time().spec_hour(),
                        self.spec_datetime().spec_time().spec_minute(),
                        self.spec_datetime().spec_time().spec_second(),
                        millisecond,
                    ),
                ),
                self.spec_offset(),
            ),
    {
        match self.datetime.replace_millisecond(millisecond) {
            Ok(dt) => self.replace_date_time(dt),
            Err(e) => Err(e),
        }
    }

    /// Replaces the sub-second part with a number of microseconds.
    pub fn replace_microsecond(self, microsecond: Option<u32>) -> (r: Result<
        InOffsetDateTime,
        InComponentRange,
    >)
        ensures
            r == with_datetime(
                with_intime(
                    self.spec_datetime().spec_date(),
                    intime_micro_result(
                        self.spec_datetime().spec_time().spec_hour(),
                        self.spec_datetime().spec_time().spec_minute(),
                        self.spec_datetime().spec_time().spec_second(),
                        microsecond,
                    ),
                ),
                self.spec_offset(),
            ),
    {
        match self.datetime.replace_microsecond(microsecond) {
            Ok(dt) => self.replace_date_time(dt),
            Err(e) => Err(e),
        }
    }

    /// Replaces the nanoseconds within the second.
    pub fn replace_nanosecond(self, nanosecond: Option<u32>) -> (r: Result<
        InOffsetDateTime,
        InComponentRange,
    >)
        ensures
            r == with_datetime(
                with_intime(
                    self.spec_datetime().spec_date(),
                    intime_result(
                        self.spec_datetime().spec_time().spec_hour(),
                        self.spec_datetime().spec_time().spec_minute(),
                        self.spec_datetime().spec_time().spec_second(),
                        nanosecond,
                    ),
                ),
                self.spec_offset(),
            ),
    {
        match self.datetime.replace_nanosecond(nanosecond) {
            Ok(dt) => self.replace_date_time(dt),
            Err(e) => Err(e),
        }
    }
}

impl InComplete for InOffsetDateTime {
    type Complete = OffsetDateTime;

    open spec fn spec_from_complete(complete: OffsetDateTime) -> InOffsetDateTime {
        InOffsetDateTime::from_parts(
            InPrimitiveDateTime::spec_from_complete(complete.spec_datetime()),
            Some(complete.spec_offset()),
        )
    }

    /// The offset is checked first, then the date, then the time of day.
    open spec fn spec_into_complete(self) -> Result<OffsetDateTime, InComponentRange> {
        match self.spec_offset() {
            None => Err(missing("offset")),
            Some(offset) => match self.spec_datetime().spec_into_complete() {
                Err(e) => Err(e),
                Ok(dt) => Ok(OffsetDateTime::from_parts(dt, offset)),
            },
        }
    }

    open spec fn spec_with_fallback(self, fallback: OffsetDateTime) -> Result<
        InOffsetDateTime,
        InComponentRange,
    > {
        with_datetime(
            self.spec_datetime().spec_with_fallback(fallback.spec_datetime()),
            Some(self.spec_offset().unwrap_or(fallback.spec_offset())),
        )
    }

    fn from_complete(complete: OffsetDateTime) -> (r: InOffsetDateTime) {
        let dt = PrimitiveDateTime::new(complete.date(), complete.time());
        InOffsetDateTime::new(InPrimitiveDateTime::from_complete(dt), Some(complete.offset()))
    }

    fn into_complete(self) -> (r: Result<OffsetDateTime, InComponentRange>) {
        match self.offset {
            Some(offset) => match self.datetime.into_complete() {
                Ok(dt) => Ok(dt.assume_offset(offset)),
                Err(e) => Err(e),
            },
            None => Err(InComponentRange::InComplete(InCompleteError::new("offset"))),
        }
    }

    fn with_fallback(self, fallback: OffsetDateTime) -> (r: Result<InOffsetDateTime, InComponentRange>) {
        let dt = PrimitiveDateTime::new(fallback.date(), fallback.time());
        let dt = match self.datetime.with_fallback(dt) {
            Ok(dt) => dt,
            Err(e) => return Err(e),
        };
        let offset = Some(self.offset.unwrap_or(fallback.offset()));
        Ok(InOffsetDateTime::new(dt, offset))
    }
}

/// Completing the incomplete form of a date and time with offset gives back that value.
pub proof fn lemma_inoffset_round_trip(dt: OffsetDateTime)
    requires
        dt.wf(),
    ensures
        InOffsetDateTime::spec_from_complete(dt).spec_into_complete() == Ok::<_, InComponentRange>(dt),
{
    lemma_inprimitive_round_trip(dt.spec_datetime());
}

/// Filling an incomplete date and time with offset from a complete one, when it
/// succeeds, leaves no component absent.
pub proof fn lemma_inoffset_fallback_complete(p: InOffsetDateTime, fallback: OffsetDateTime)
    requires
        p.spec_datetime().spec_time().wf(),
        fallback.wf(),
    ensures
        p.spec_with_fallback(fallback) matches Ok(q) ==> q.is_complete(),
{
    lemma_inprimitive_fallback_complete(p.spec_datetime(), fallback.spec_datetime());
}

pub broadcast group group_inoffset {
    InOffsetDateTime::lemma_from_parts,
    InOffsetDateTime::lemma_parts,
}

} // verus!
