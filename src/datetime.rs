//! Dates with a time of day, without and with an offset from UTC.
use vstd::prelude::*;

use crate::date::Date;
use crate::offset::UtcOffset;
use crate::time::Time;

verus! {

/// A date and a time of day, with no offset.
#[derive(Debug, Clone, Copy, PartialEq, Eq, Structural, Hash)]
pub struct PrimitiveDateTime {
    date: Date,
    time: Time,
}

impl PrimitiveDateTime {
    /// The date.
    pub closed spec fn spec_date(&self) -> Date {
        self.date
    }

    /// The time of day.
    pub closed spec fn spec_time(&self) -> Time {
        self.time
    }

    /// The date and time made of the given parts.
    pub closed spec fn from_parts(date: Date, time: Time) -> PrimitiveDateTime {
        PrimitiveDateTime { date, time }
    }

    /// Whether both parts are valid.
    pub open spec fn wf(&self) -> bool {
        self.spec_date().wf() && self.spec_time().wf()
    }

    /// The parts of a value built from parts are those parts.
    pub broadcast proof fn lemma_from_parts(date: Date, time: Time)
        ensures
            #[trigger] PrimitiveDateTime::from_parts(date, time).spec_date() == date,
            PrimitiveDateTime::from_parts(date, time).spec_time() == time,
    {
    }

    /// A value is determined by its parts.
    pub broadcast proof fn lemma_parts(dt: PrimitiveDateTime)
        ensures
            #[trigger] PrimitiveDateTime::from_parts(dt.spec_date(), dt.spec_time()) == dt,
    {
    }

    /// Combines a date and a time of day.
    pub fn new(date: Date, time: Time) -> (r: PrimitiveDateTime)
        ensures
            r == PrimitiveDateTime::from_parts(date, time),
    {
        PrimitiveDateTime { date, time }
    }

    /// The earliest value: midnight of the earliest date.
    pub fn min_value() -> (r: PrimitiveDateTime)
        ensures
            r == PrimitiveDateTime::spec_min(),
    {
        PrimitiveDateTime { date: Date::min_value(), time: Time::midnight() }
    }

    /// The latest value: the last nanosecond of the latest date.
    pub fn max_value() -> (r: PrimitiveDateTime)
        ensures
            r == PrimitiveDateTime::spec_max(),
    {
        PrimitiveDateTime { date: Date::max_value(), time: Time::max_value() }
    }

    /// The earliest value.
    pub open spec fn spec_min() -> PrimitiveDateTime {
        PrimitiveDateTime::from_parts(Date::spec_min(), Time::from_parts(0, 0, 0, 0))
    }

    /// The latest value.
    pub open spec fn spec_max() -> PrimitiveDateTime {
        PrimitiveDateTime::from_parts(Date::spec_max(), Time::from_parts(23, 59, 59, 999_999_999))
    }

    /// Returns the date.
    pub fn date(self) -> (r: Date)
        ensures
            r == self.spec_date(),
    {
        self.date
    }

    /// Returns the time of day.
    pub fn time(self) -> (r: Time)
        ensures
            r == self.spec_time(),
    {
        self.time
    }

    /// Replaces the date, keeping the time of day.
    pub fn replace_date(self, date: Date) -> (r: PrimitiveDateTime)
        ensures
            r == PrimitiveDateTime::from_parts(date, self.spec_time()),
    {
        PrimitiveDateTime { date, time: self.time }
    }

    /// Replaces the time of day, keeping the date.
    pub fn replace_time(self, time: Time) -> (r: PrimitiveDateTime)
        ensures
            r == PrimitiveDateTime::from_parts(self.spec_date(), time),
    {
        PrimitiveDateTime { date: self.date, time }
    }

    /// Takes the value as a moment in the given offset.
    pub fn assume_offset(self, offset: UtcOffset) -> (r: OffsetDateTime)
        ensures
            r == OffsetDateTime::from_parts(self, offset),
    {
        OffsetDateTime { datetime: self, offset }
    }

    /// Takes the value as a moment in UTC.
    pub fn assume_utc(self) -> (r: OffsetDateTime)
        ensures
            r == OffsetDateTime::from_parts(self, UtcOffset::from_parts(0)),
    {
        self.assume_offset(UtcOffset::utc())
    }
}

/// A date and a time of day in a given offset from UTC.
#[derive(Debug, Clone, Copy, PartialEq, Eq, Structural, Hash)]
pub struct OffsetDateTime {
    datetime: PrimitiveDateTime,
    offset: UtcOffset,
}

impl OffsetDateTime {
    /// The local date and time.
    pub closed spec fn spec_datetime(&self) -> PrimitiveDateTime {
        self.datetime
    }

    /// The offset.
    pub closed spec fn spec_offset(&self) -> UtcOffset {
        self.offset
    }

    /// The value made of the given parts.
    pub closed spec fn from_parts(datetime: PrimitiveDateTime, offset: UtcOffset) -> OffsetDateTime {
        OffsetDateTime { datetime, offset }
    }

    /// Whether the local date and time are valid.
    pub open spec fn wf(&self) -> bool {
        self.spec_datetime().wf()
    }

    /// The parts of a value built from parts are those parts.
    pub broadcast proof fn lemma_from_parts(datetime: PrimitiveDateTime, offset: UtcOffset)
        ensures
            #[trigger] OffsetDateTime::from_parts(datetime, offset).spec_datetime() == datetime,
            OffsetDateTime::from_parts(datetime, offset).spec_offset() == offset,
    {
    }

    /// A value is determined by its parts.
    pub broadcast proof fn lemma_parts(dt: OffsetDateTime)
        ensures
            #[trigger] OffsetDateTime::from_parts(dt.spec_datetime(), dt.spec_offset()) == dt,
    {
    }

    /// Returns the local date and time.
    pub fn datetime(self) -> (r: PrimitiveDateTime)
        ensures
            r == self.spec_datetime(),
    {
        self.datetime
    }

    /// Returns the local date.
    pub fn date(self) -> (r: Date)
        ensures
            r == self.spec_datetime().spec_date(),
    {
        self.datetime.date()
    }

    /// Returns the local time of day.
    pub fn time(self) -> (r: Time)
        ensures
            r == self.spec_datetime().spec_time(),
    {
        self.datetime.time()
    }

    /// Returns the offset.
    pub fn offset(self) -> (r: UtcOffset)
        ensures
            r == self.spec_offset(),
    {
        self.offset
    }

    /// Replaces the local date, keeping the local time of day and the offset.
    pub fn replace_date(self, date: Date) -> (r: OffsetDateTime)
        ensures
            r == OffsetDateTime::from_parts(
                PrimitiveDateTime::from_parts(date, self.spec_datetime().spec_time()),
                self.spec_offset(),
            ),
    {
        OffsetDateTime { datetime: self.datetime.replace_date(date), offset: self.offset }
    }
}

pub broadcast group group_datetime {
    PrimitiveDateTime::lemma_from_parts,
    PrimitiveDateTime::lemma_parts,
    OffsetDateTime::lemma_from_parts,
    OffsetDateTime::lemma_parts,
}

} // verus!
