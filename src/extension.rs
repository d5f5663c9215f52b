//! Calendar arithmetic on dates, and on dates with a time of day.
use vstd::prelude::*;

use crate::date::{lemma_month_number, month_number, Date};
use crate::datetime::{OffsetDateTime, PrimitiveDateTime};
use crate::duration::{calendar_add, calendar_sub, month_index, CalendarDuration};
use vstd::arithmetic::div_mod::{lemma_fundamental_div_mod, lemma_fundamental_div_mod_converse};
use crate::sealed::Sealed;

verus! {

broadcast use crate::date::group_date, crate::datetime::group_datetime;

/// The date `delta` months after `date`, or the earliest or latest date when that
/// cannot be represented: the earliest when `delta` is negative.
pub open spec fn saturating_add(date: Date, delta: int) -> Date {
    match calendar_add(date, delta) {
        Some(d) => d,
        None => if delta < 0 {
            Date::spec_min()
        } else {
            Date::spec_max()
        },
    }
}

/// The date `delta` months before `date`, or the latest or earliest date when that
/// cannot be represented: the latest when `delta` is negative.
pub open spec fn saturating_sub(date: Date, delta: i32) -> Date {
    match calendar_sub(date, delta) {
        Some(d) => d,
        None => if delta < 0 {
            Date::spec_max()
        } else {
            Date::spec_min()
        },
    }
}

/// `dt` with its date replaced by `date`, when there is one.
pub open spec fn with_date(dt: PrimitiveDateTime, date: Option<Date>) -> Option<PrimitiveDateTime> {
    match date {
        Some(d) => Some(PrimitiveDateTime::from_parts(d, dt.spec_time())),
        None => None,
    }
}

/// `dt` with its local date replaced by `date`, when there is one.
pub open spec fn with_local_date(dt: OffsetDateTime, date: Option<Date>) -> Option<OffsetDateTime> {
    match date {
        Some(d) => Some(
            OffsetDateTime::from_parts(
                PrimitiveDateTime::from_parts(d, dt.spec_datetime().spec_time()),
                dt.spec_offset(),
            ),
        ),
        None => None,
    }
}

/// The bound a saturating operation on `dt` goes to: the earliest value when `low`.
pub open spec fn datetime_bound(low: bool) -> PrimitiveDateTime {
    if low {
        PrimitiveDateTime::spec_min()
    } else {
        PrimitiveDateTime::spec_max()
    }
}

/// Arithmetic with a [`CalendarDuration`].
///
/// Implemented for [`Date`], [`PrimitiveDateTime`] and [`OffsetDateTime`] only; the two
/// latter move their date and keep their time of day and offset.
pub trait CalendarExtension: Sealed + Sized {
    /// Adds the duration, returning `None` when the result cannot be represented.
    fn checked_calendar_add(self, duration: CalendarDuration) -> Option<Self>;

    /// Subtracts the duration, returning `None` when the result cannot be represented.
    fn checked_calendar_sub(self, duration: CalendarDuration) -> Option<Self>;

    /// Adds the duration, clamping to the earliest or latest value on overflow.
    fn saturating_calendar_add(self, duration: CalendarDuration) -> Self;

    /// Subtracts the duration, clamping to the earliest or latest value on overflow.
    fn saturating_calendar_sub(self, duration: CalendarDuration) -> Self;
}

impl Sealed for Date {}

impl Sealed for PrimitiveDateTime {}

impl Sealed for OffsetDateTime {}

impl CalendarExtension for Date {
    fn checked_calendar_add(self, duration: CalendarDuration) -> (r: Option<Date>)
        ensures
            r == calendar_add(self, duration.spec_months() as int),
    {
        CalendarDuration::checked_date_add(self, duration)
    }

    fn checked_calendar_sub(self, duration: CalendarDuration) -> (r: Option<Date>)
        ensures
            r == calendar_sub(self, duration.spec_months()),
    {
        CalendarDuration::checked_date_sub(self, duration)
    }

    fn saturating_calendar_add(self, duration: CalendarDuration) -> (r: Date)
        ensures
            r == saturating_add(self, duration.spec_months() as int),
    {
        match self.checked_calendar_add(duration) {
            Some(d) => d,
            None => if duration.is_negative() {
                Date::min_value()
            } else {
                Date::max_value()
            },
        }
    }

    fn saturating_calendar_sub(self, duration: CalendarDuration) -> (r: Date)
        ensures
            r == saturating_sub(self, duration.spec_months()),
    {
        match self.checked_calendar_sub(duration) {
            Some(d) => d,
            None => if duration.is_negative() {
                Date::max_value()
            } else {
                Date::min_value()
            },
        }
    }
}

impl CalendarExtension for PrimitiveDateTime {
    fn checked_calendar_add(self, duration: CalendarDuration) -> (r: Option<PrimitiveDateTime>)
        ensures
            r == with_date(self, calendar_add(self.spec_date(), duration.spec_months() as int)),
    {
        match self.date().checked_calendar_add(duration) {
            Some(d) => Some(self.replace_date(d)),
            None => None,
        }
    }

    fn checked_calendar_sub(self, duration: CalendarDuration) -> (r: Option<PrimitiveDateTime>)
        ensures
            r == with_date(self, calendar_sub(self.spec_date(), duration.spec_months())),
    {
        match self.date().checked_calendar_sub(duration) {
            Some(d) => Some(self.replace_date(d)),
            None => None,
        }
    }

    fn saturating_calendar_add(self, duration: CalendarDuration) -> (r: PrimitiveDateTime)
        ensures
            r == (match with_date(self, calendar_add(self.spec_date(), duration.spec_months() as int)) {
                Some(dt) => dt,
                None => datetime_bound(duration.spec_months() < 0),
            }),
    {
        match self.checked_calendar_add(duration) {
            Some(dt) => dt,
            None => if duration.is_negative() {
                PrimitiveDateTime::min_value()
            } else {
                PrimitiveDateTime::max_value()
            },
        }
    }

    fn saturating_calendar_sub(self, duration: CalendarDuration) -> (r: PrimitiveDateTime)
        ensures
            r == (match with_date(self, calendar_sub(self.spec_date(), duration.spec_months())) {
                Some(dt) => dt,
                None => datetime_bound(duration.spec_months() >= 0),
            }),
    {
        match self.checked_calendar_sub(duration) {
            Some(dt) => dt,
            None => if duration.is_negative() {
                PrimitiveDateTime::max_value()
            } else {
                PrimitiveDateTime::min_value()
            },
        }
    }
}

impl CalendarExtension for OffsetDateTime {
    fn checked_calendar_add(self, duration: CalendarDuration) -> (r: Option<OffsetDateTime>)
        ensures
            r == with_local_date(
                self,
                calendar_add(self.spec_datetime().spec_date(), duration.spec_months() as int),
            ),
    {
        match self.date().checked_calendar_add(duration) {
            Some(d) => Some(self.replace_date(d)),
            None => None,
        }
    }

    fn checked_calendar_sub(self, duration: CalendarDuration) -> (r: Option<OffsetDateTime>)
        ensures
            r == with_local_date(
                self,
                calendar_sub(self.spec_datetime().spec_date(), duration.spec_months()),
            ),
    {
        match self.date().checked_calendar_sub(duration) {
            Some(d) => Some(self.replace_date(d)),
            None => None,
        }
    }

    fn saturating_calendar_add(self, duration: CalendarDuration) -> (r: OffsetDateTime)
        ensures
            r == (match with_local_date(
                self,
                calendar_add(self.spec_datetime().spec_date(), duration.spec_months() as int),
            ) {
                Some(dt) => dt,
                None => OffsetDateTime::from_parts(
                    datetime_bound(duration.spec_months() < 0),
                    self.spec_offset(),
                ),
            }),
    {
        match self.checked_calendar_add(duration) {
            Some(dt) => dt,
            None => if duration.is_negative() {
                PrimitiveDateTime::min_value().assume_offset(self.offset())
            } else {
                PrimitiveDateTime::max_value().assume_offset(self.offset())
            },
        }
    }

    fn saturating_calendar_sub(self, duration: CalendarDuration) -> (r: OffsetDateTime)
        ensures
            r == (match with_local_date(
                self,
                calendar_sub(self.spec_datetime().spec_date(), duration.spec_months()),
            ) {
                Some(dt) => dt,
                None => OffsetDateTime::from_parts(
                    datetime_bound(duration.spec_months() >= 0),
                    self.spec_offset(),
                ),
            }),
    {
        match self.checked_calendar_sub(duration) {
            Some(dt) => dt,
            None => if duration.is_negative() {
                PrimitiveDateTime::max_value().assume_offset(self.offset())
            } else {
                PrimitiveDateTime::min_value().assume_offset(self.offset())
            },
        }
    }
}

impl core::ops::Add<CalendarDuration> for Date {
    type Output = Date;

    /// Adds the duration; the result must be representable.
    fn add(self, rhs: CalendarDuration) -> (r: Date)
        ensures
            Some(r) == calendar_add(self, rhs.spec_months() as int),
    {
        self.checked_calendar_add(rhs).unwrap()
    }
}

impl vstd::std_specs::ops::AddSpecImpl<CalendarDuration> for Date {
    open spec fn obeys_add_spec() -> bool {
        true
    }

    open spec fn add_req(self, rhs: CalendarDuration) -> bool {
        calendar_add(self, rhs.spec_months() as int) is Some
    }

    open spec fn add_spec(self, rhs: CalendarDuration) -> Date {
        calendar_add(self, rhs.spec_months() as int).unwrap()
    }
}

impl core::ops::Sub<CalendarDuration> for Date {
    type Output = Date;

    /// Subtracts the duration; the result must be representable.
    fn sub(self, rhs: CalendarDuration) -> (r: Date)
        ensures
            Some(r) == calendar_sub(self, rhs.spec_months()),
    {
        self.checked_calendar_sub(rhs).unwrap()
    }
}

impl vstd::std_specs::ops::SubSpecImpl<CalendarDuration> for Date {
    open spec fn obeys_sub_spec() -> bool {
        true
    }

    open spec fn sub_req(self, rhs: CalendarDuration) -> bool {
        calendar_sub(self, rhs.spec_months()) is Some
    }

    open spec fn sub_spec(self, rhs: CalendarDuration) -> Date {
        calendar_sub(self, rhs.spec_months()).unwrap()
    }
}

impl core::ops::Add<CalendarDuration> for PrimitiveDateTime {
    type Output = PrimitiveDateTime;

    /// Adds the duration; the result must be representable.
    fn add(self, rhs: CalendarDuration) -> (r: PrimitiveDateTime)
        ensures
            Some(r) == with_date(self, calendar_add(self.spec_date(), rhs.spec_months() as int)),
    {
        self.checked_calendar_add(rhs).unwrap()
    }
}

impl vstd::std_specs::ops::AddSpecImpl<CalendarDuration> for PrimitiveDateTime {
    open spec fn obeys_add_spec() -> bool {
        true
    }

    open spec fn add_req(self, rhs: CalendarDuration) -> bool {
        with_date(self, calendar_add(self.spec_date(), rhs.spec_months() as int)) is Some
    }

    open spec fn add_spec(self, rhs: CalendarDuration) -> PrimitiveDateTime {
        with_date(self, calendar_add(self.spec_date(), rhs.spec_months() as int)).unwrap()
    }
}

impl core::ops::Sub<CalendarDuration> for PrimitiveDateTime {
    type Output = PrimitiveDateTime;

    /// Subtracts the duration; the result must be representable.
    fn sub(self, rhs: CalendarDuration) -> (r: PrimitiveDateTime)
        ensures
            Some(r) == with_date(self, calendar_sub(self.spec_date(), rhs.spec_months())),
    {
        self.checked_calendar_sub(rhs).unwrap()
    }
}

impl vstd::std_specs::ops::SubSpecImpl<CalendarDuration> for PrimitiveDateTime {
    open spec fn obeys_sub_spec() -> bool {
        true
    }

    open spec fn sub_req(self, rhs: CalendarDuration) -> bool {
        with_date(self, calendar_sub(self.spec_date(), rhs.spec_months())) is Some
    }

    open spec fn sub_spec(self, rhs: CalendarDuration) -> PrimitiveDateTime {
        with_date(self, calendar_sub(self.spec_date(), rhs.spec_months())).unwrap()
    }
}

impl core::ops::Add<CalendarDuration> for OffsetDateTime {
    type Output = OffsetDateTime;

    /// Adds the duration; the result must be representable.
    fn add(self, rhs: CalendarDuration) -> (r: OffsetDateTime)
        ensures
            Some(r) == with_local_date(self, calendar_add(self.spec_datetime().spec_date(), rhs.spec_months() as int)),
    {
        self.checked_calendar_add(rhs).unwrap()
    }
}

impl vstd::std_specs::ops::AddSpecImpl<CalendarDuration> for OffsetDateTime {
    open spec fn obeys_add_spec() -> bool {
        true
    }

    open spec fn add_req(self, rhs: CalendarDuration) -> bool {
        with_local_date(self, calendar_add(self.spec_datetime().spec_date(), rhs.spec_months() as int)) is Some
    }

    open spec fn add_spec(self, rhs: CalendarDuration) -> OffsetDateTime {
        with_local_date(self, calendar_add(self.spec_datetime().spec_date(), rhs.spec_months() as int)).unwrap()
    }
}

impl core::ops::Sub<CalendarDuration> for OffsetDateTime {
    type Output = OffsetDateTime;

    /// Subtracts the duration; the result must be representable.
    fn sub(self, rhs: CalendarDuration) -> (r: OffsetDateTime)
        ensures
            Some(r) == with_local_date(self, calendar_sub(self.spec_datetime().spec_date(), rhs.spec_months())),
    {
        self.checked_calendar_sub(rhs).unwrap()
    }
}

impl vstd::std_specs::ops::SubSpecImpl<CalendarDuration> for OffsetDateTime {
    open spec fn obeys_sub_spec() -> bool {
        true
    }

    open spec fn sub_req(self, rhs: CalendarDuration) -> bool {
        with_local_date(self, calendar_sub(self.spec_datetime().spec_date(), rhs.spec_months())) is Some
    }

    open spec fn sub_spec(self, rhs: CalendarDuration) -> OffsetDateTime {
        with_local_date(self, calendar_sub(self.spec_datetime().spec_date(), rhs.spec_months())).unwrap()
    }
}

/// Adding no months gives back the date: `saturating_calendar_add(d, months(0)) == d`.
pub proof fn lemma_add_zero(d: Date)
    requires
        d.wf(),
    ensures
        calendar_add(d, 0) == Some(d),
        saturating_add(d, 0) == d,
{
    let m = month_number(d.spec_month());
    lemma_month_number(d.spec_month());
    lemma_fundamental_div_mod_converse(month_index(d), 12, d.spec_year() as int, m - 1);
}

/// Moving a date forward by `m` months and back again restores it, when the forward
/// step stays within the calendar and did not clamp the day of the month.
pub proof fn lemma_add_sub_round_trip(d: Date, m: i32)
    requires
        d.wf(),
        calendar_add(d, m as int) matches Some(x) && x.spec_day() == d.spec_day(),
    ensures
        calendar_sub(calendar_add(d, m as int).unwrap(), m) == Some(d),
{
    let x = calendar_add(d, m as int).unwrap();
    let total = month_index(d) + m;
    let n = month_number(d.spec_month());
    lemma_month_number(d.spec_month());
    lemma_fundamental_div_mod(total, 12);
    assert(month_index(x) == total);
    lemma_fundamental_div_mod_converse(month_index(d), 12, d.spec_year() as int, n - 1);
}

/// Adding or subtracting the longest or shortest duration to any date saturates at the
/// earliest or latest date, in the direction of the move.
pub proof fn lemma_saturation(d: Date)
    requires
        d.wf(),
    ensures
        saturating_add(d, i32::MAX as int) == Date::spec_max(),
        saturating_add(d, i32::MIN as int) == Date::spec_min(),
        saturating_sub(d, i32::MAX) == Date::spec_min(),
        saturating_sub(d, i32::MIN) == Date::spec_max(),
{
    lemma_month_number(d.spec_month());
    lemma_fundamental_div_mod(month_index(d) + i32::MAX, 12);
    lemma_fundamental_div_mod(month_index(d) + i32::MIN, 12);
    lemma_fundamental_div_mod(month_index(d) - i32::MAX, 12);
}

} // verus!
