//! Dates some of whose components are unknown.
use vstd::prelude::*;

use crate::date::{date_result, Date, Month, Weekday, MAX_YEAR, MIN_YEAR};
use crate::error::{missing, out_of_range, InCompleteError, InComponentRange, ComponentRange};
use crate::incomplete::InComplete;
use crate::inprimitive::InPrimitiveDateTime;
use crate::intime::InTime;

verus! {

broadcast use crate::date::group_date, crate::error::group_error;

/// Whether each present component is in its own range; no check is made across them.
pub open spec fn indate_fields_valid(year: Option<i32>, day: Option<u8>) -> bool {
    &&& year matches Some(y) ==> MIN_YEAR <= y <= MAX_YEAR
    &&& day matches Some(d) ==> 1 <= d <= 31
}

/// The incomplete date of the given components, or the error naming the first present
/// component, in the order year, day, that is out of its own range.
pub open spec fn indate_result(year: Option<i32>, month: Option<Month>, day: Option<u8>) -> Result<
    InDate,
    InComponentRange,
> {
    if year matches Some(y) && !(MIN_YEAR <= y <= MAX_YEAR) {
        Err(out_of_range("year"))
    } else if day matches Some(d) && !(1 <= d <= 31) {
        Err(out_of_range("day"))
    } else {
        Ok(InDate::from_parts(year, month, day))
    }
}

/// A date whose year, month and day may each be unknown.
///
/// Each present component is checked against its own range when the value is built; no
/// check is made across components (February 31 is accepted) until the date is completed.
#[derive(Debug, Clone, Copy, PartialEq, Eq, Structural, Hash)]
pub struct InDate {
    year: Option<i32>,
    month: Option<Month>,
    day: Option<u8>,
}

impl InDate {
    /// Every present component is in its own range.
    #[verifier::type_invariant]
    closed spec fn inv(&self) -> bool {
        self.wf()
    }

    /// The year, when known.
    pub closed spec fn spec_year(&self) -> Option<i32> {
        self.year
    }

    /// The month, when known.
    pub closed spec fn spec_month(&self) -> Option<Month> {
        self.month
    }

    /// The day of the month, when known.
    pub closed spec fn spec_day(&self) -> Option<u8> {
        self.day
    }

    /// The incomplete date made of the given components.
    pub closed spec fn from_parts(year: Option<i32>, month: Option<Month>, day: Option<u8>) -> InDate {
        InDate { year, month, day }
    }

    /// Whether each present component is in its own range.
    pub open spec fn wf(&self) -> bool {
        indate_fields_valid(self.spec_year(), self.spec_day())
    }

    /// Whether every component is present.
    pub open spec fn is_complete(&self) -> bool {
        self.spec_year() is Some && self.spec_month() is Some && self.spec_day() is Some
    }

    /// The components of a value built from parts are those parts.
    pub broadcast proof fn lemma_from_parts(year: Option<i32>, month: Option<Month>, day: Option<u8>)
        ensures
            #[trigger] InDate::from_parts(year, month, day).spec_year() == year,
            InDate::from_parts(year, month, day).spec_month() == month,
            InDate::from_parts(year, month, day).spec_day() == day,
    {
    }

    /// A value is determined by its components.
    pub broadcast proof fn lemma_parts(d: InDate)
        ensures
            #[trigger] InDate::from_parts(d.spec_year(), d.spec_month(), d.spec_day()) == d,
    {
    }

    /// Attempts to create an incomplete date from the year, month and day.
    pub fn from_calendar_date(year: Option<i32>, month: Option<Month>, day: Option<u8>) -> (r: Result<
        InDate,
        InComponentRange,
    >)
        ensures
            r == indate_result(year, month, day),
            r matches Ok(d) ==> d.wf(),
    {
        if let Some(y) = year {
            if y < MIN_YEAR || y > MAX_YEAR {
                return Err(InComponentRange::ComponentRange(ComponentRange::new("year")));
            }
        }
        if let Some(d) = day {
            if d < 1 || d > 31 {
                return Err(InComponentRange::ComponentRange(ComponentRange::new("day")));
            }
        }
        Ok(InDate::from_calendar_date_unchecked(year, month, day))
    }

    /// Creates an incomplete date from components already known to be in range.
    fn from_calendar_date_unchecked(year: Option<i32>, month: Option<Month>, day: Option<u8>) -> (r: InDate)
        requires
            indate_fields_valid(year, day),
        ensures
            r == InDate::from_parts(year, month, day),
    {
        InDate { year, month, day }
    }

    /// Returns the year.
    pub fn year(self) -> (r: Option<i32>)
        ensures
            r == self.spec_year(),
            self.wf(),
    {
        proof {
            use_type_invariant(&self);
        }
        self.year
    }

    /// Returns the month.
    pub fn month(self) -> (r: Option<Month>)
        ensures
            r == self.spec_month(),
    {
        self.month
    }

    /// The day of the week, when the date can be completed.
    pub open spec fn spec_weekday(&self) -> Option<Weekday> {
        match self.spec_into_complete() {
            Ok(d) => Some(d.spec_weekday()),
            Err(_) => None,
        }
    }

    /// Returns the day of the week, or `None` when the date cannot be completed.
    pub fn weekday(self) -> (r: Option<Weekday>)
        ensures
            r == self.spec_weekday(),
    {
        match self.into_complete() {
            Ok(d) => Some(d.weekday()),
            Err(_) => None,
        }
    }

    /// Returns the day of the month.
    pub fn day(self) -> (r: Option<u8>)
        ensures
            r == self.spec_day(),
            self.wf(),
    {
        proof {
            use_type_invariant(&self);
        }
        self.day
    }

    /// Replaces the year.
    pub fn replace_year(self, year: Option<i32>) -> (r: Result<InDate, InComponentRange>)
        ensures
            r == indate_result(year, self.spec_month(), self.spec_day()),
    {
        InDate::from_calendar_date(year, self.month(), self.day())
    }

    /// Replaces the month of the year.
    pub fn replace_month(self, month: Option<Month>) -> (r: Result<InDate, InComponentRange>)
        ensures
            r == indate_result(self.spec_year(), month, self.spec_day()),
            r is Ok,
    {
        InDate::from_calendar_date(self.year(), month, self.day())
    }

    /// Replaces the day of the month.
    pub fn replace_day(self, day: Option<u8>) -> (r: Result<InDate, InComponentRange>)
        ensures
            r == indate_result(self.spec_year(), self.spec_month(), day),
    {
        InDate::from_calendar_date(self.year(), self.month(), day)
    }
}

impl InDate {
    /// Combines the date with an incomplete time of day.
    pub fn with_time(self, time: InTime) -> (r: InPrimitiveDateTime)
        ensures
            r == InPrimitiveDateTime::from_parts(self, time),
    {
        InPrimitiveDateTime::new(self, time)
    }
}

impl InComplete for InDate {
    type Complete = Date;

    open spec fn spec_from_complete(complete: Date) -> InDate {
        InDate::from_parts(Some(complete.spec_year()), Some(complete.spec_month()), Some(complete.spec_day()))
    }

    open spec fn spec_into_complete(self) -> Result<Date, InComponentRange> {
        match (self.spec_year(), self.spec_month(), self.spec_day()) {
            (None, _, _) => Err(missing("year")),
            (_, None, _) => Err(missing("month")),
            (_, _, None) => Err(missing("day")),
            (Some(y), Some(m), Some(d)) => match date_result(y, m, d) {
                Ok(date) => Ok(date),
                Err(e) => Err(InComponentRange::ComponentRange(e)),
            },
        }
    }

    /// The components filled in must form a valid date together.
    open spec fn spec_with_fallback(self, fallback: Date) -> Result<InDate, InComponentRange> {
        match date_result(
            self.spec_year().unwrap_or(fallback.spec_year()),
            self.spec_month().unwrap_or(fallback.spec_month()),
            self.spec_day().unwrap_or(fallback.spec_day()),
        ) {
            Ok(date) => Ok(InDate::spec_from_complete(date)),
            Err(e) => Err(InComponentRange::ComponentRange(e)),
        }
    }

    fn from_complete(complete: Date) -> (r: InDate) {
        let y = Some(complete.year());
        let m = Some(complete.month());
        let d = Some(complete.day());
        InDate::from_calendar_date_unchecked(y, m, d)
    }

    fn into_complete(self) -> (r: Result<Date, InComponentRange>) {
        let y = match self.year {
            Some(y) => y,
            None => return Err(InComponentRange::InComplete(InCompleteError::new("year"))),
        };
        let m = match self.month {
            Some(m) => m,
            None => return Err(InComponentRange::InComplete(InCompleteError::new("month"))),
        };
        let d = match self.day {
            Some(d) => d,
            None => return Err(InComponentRange::InComplete(InCompleteError::new("day"))),
        };
        match Date::from_calendar_date(y, m, d) {
            Ok(date) => Ok(date),
            Err(e) => Err(InComponentRange::ComponentRange(e)),
        }
    }

    fn with_fallback(self, fallback: Date) -> (r: Result<InDate, InComponentRange>) {
        let y = self.year.unwrap_or(fallback.year());
        let m = self.month.unwrap_or(fallback.month());
        let d = self.day.unwrap_or(fallback.day());
        match Date::from_calendar_date(y, m, d) {
            Ok(date) => Ok(InDate::from_complete(date)),
            Err(e) => Err(InComponentRange::ComponentRange(e)),
        }
    }
}

/// Completing the incomplete form of a date gives back that date.
pub proof fn lemma_indate_round_trip(date: Date)
    requires
        date.wf(),
    ensures
        InDate::spec_from_complete(date).spec_into_complete() == Ok::<_, InComponentRange>(date),
{
}

/// Filling an incomplete date from a date, when it succeeds, leaves no component absent.
pub proof fn lemma_indate_fallback_complete(p: InDate, fallback: Date)
    ensures
        p.spec_with_fallback(fallback) matches Ok(q) ==> q.is_complete(),
{
}

pub broadcast group group_indate {
    InDate::lemma_from_parts,
    InDate::lemma_parts,
}

} // verus!
