//! A signed number of calendar months, and its addition to calendar dates.
use vstd::prelude::*;

use crate::date::{
    days_in_month, days_in_year_month, month_number, month_of_number, Date, Month, MAX_YEAR,
    MIN_YEAR,
};
use crate::sealed::Sealed;

verus! {

broadcast use crate::date::group_date;

/// A duration counted in whole calendar months.
///
/// Adding it to a date moves the date by that many months, keeping the day of the month
/// where the resulting month has it and clamping it to the month's last day otherwise.
#[derive(Debug, Clone, Copy, PartialEq, Eq, Structural, Hash, PartialOrd, Ord, Default)]
pub struct CalendarDuration {
    months: i32,
}

/// Whether `n` fits in a 32-bit signed integer.
pub open spec fn fits_i32(n: int) -> bool {
    i32::MIN <= n <= i32::MAX
}

/// `a / b` rounded toward zero, as Rust's integer division does.
pub open spec fn div_toward_zero(a: int, b: int) -> int {
    if (a < 0) == (b < 0) {
        (vstd::math::abs(a) / vstd::math::abs(b)) as int
    } else {
        -((vstd::math::abs(a) / vstd::math::abs(b)) as int)
    }
}

/// The zero-based number of months from January of year 0 to the month of `date`.
pub open spec fn month_index(date: Date) -> int {
    date.spec_year() * 12 + month_number(date.spec_month()) - 1
}

/// The date `delta` months away from `date`, or `None` when it falls outside the calendar.
///
/// The year and month are found by floor division of the month index, and the day of the
/// month is clamped to the last day of the month reached.
pub open spec fn calendar_add(date: Date, delta: int) -> Option<Date> {
    let total = month_index(date) + delta;
    let year = total / 12;
    let month = total % 12 + 1;
    let day = vstd::math::min(date.spec_day() as int, days_in_month(year, month));
    if MIN_YEAR <= year <= MAX_YEAR {
        Some(Date::from_parts(year as i32, month_of_number(month), day as u8))
    } else {
        None
    }
}

/// The date `delta` months before `date`; `None` also when `-delta` is not a duration.
pub open spec fn calendar_sub(date: Date, delta: i32) -> Option<Date> {
    if delta == i32::MIN {
        None
    } else {
        calendar_add(date, -delta)
    }
}

/// The integer types a duration can be multiplied or divided by: the signed and unsigned
/// types of up to 32 bits.
pub trait Scalar: Sealed + Copy {
    /// The integer.
    spec fn spec_value(self) -> int;

    /// The integer as an `i32`, or `None` when it does not fit.
    fn to_i32(self) -> (r: Option<i32>)
        ensures
            r == (if fits_i32(self.spec_value()) {
                Some(self.spec_value() as i32)
            } else {
                None
            }),
    ;
}

impl Scalar for i8 {
    open spec fn spec_value(self) -> int {
        self as int
    }

    fn to_i32(self) -> (r: Option<i32>) {
        Some(self as i32)
    }
}

impl Scalar for i16 {
    open spec fn spec_value(self) -> int {
        self as int
    }

    fn to_i32(self) -> (r: Option<i32>) {
        Some(self as i32)
    }
}

impl Scalar for i32 {
    open spec fn spec_value(self) -> int {
        self as int
    }

    fn to_i32(self) -> (r: Option<i32>) {
        Some(self)
    }
}

impl Scalar for u8 {
    open spec fn spec_value(self) -> int {
        self as int
    }

    fn to_i32(self) -> (r: Option<i32>) {
        Some(self as i32)
    }
}

impl Scalar for u16 {
    open spec fn spec_value(self) -> int {
        self as int
    }

    fn to_i32(self) -> (r: Option<i32>) {
        Some(self as i32)
    }
}

impl Scalar for u32 {
    open spec fn spec_value(self) -> int {
        self as int
    }

    fn to_i32(self) -> (r: Option<i32>) {
        if self <= i32::MAX as u32 {
            Some(self as i32)
        } else {
            None
        }
    }
}

impl Sealed for i8 {}

impl Sealed for i16 {}

impl Sealed for i32 {}

impl Sealed for u8 {}

impl Sealed for u16 {}

impl Sealed for u32 {}

impl CalendarDuration {
    /// The number of months of the duration.
    pub closed spec fn spec_months(&self) -> i32 {
        self.months
    }

    /// The duration of `months` months.
    pub closed spec fn spec_from_months(months: i32) -> CalendarDuration {
        CalendarDuration { months }
    }

    /// The month count of a duration built from a month count is that count.
    pub broadcast proof fn lemma_from_months(months: i32)
        ensures
            #[trigger] CalendarDuration::spec_from_months(months).spec_months() == months,
    {
    }

    /// A duration is determined by its month count.
    pub broadcast proof fn lemma_months(d: CalendarDuration)
        ensures
            #[trigger] CalendarDuration::spec_from_months(d.spec_months()) == d,
    {
    }

    /// Creates a duration of `years` years and `months` months.
    pub fn new(years: i32, months: i32) -> (r: CalendarDuration)
        requires
            fits_i32(years * 12 + months),
        ensures
            r.spec_months() == years * 12 + months,
    {
        let total = years as i64 * 12 + months as i64;
        CalendarDuration { months: total as i32 }
    }

    /// Creates a duration of `years` years and `months` months, or `None` when the total
    /// number of months does not fit in 32 bits.
    pub fn checked_new(years: i32, months: i32) -> (r: Option<CalendarDuration>)
        ensures
            r == (if fits_i32(years * 12 + months) {
                Some(CalendarDuration::spec_from_months((years * 12 + months) as i32))
            } else {
                None
            }),
    {
        let total = years as i64 * 12 + months as i64;
        if total < i32::MIN as i64 || total > i32::MAX as i64 {
            None
        } else {
            Some(CalendarDuration { months: total as i32 })
        }
    }

    /// Creates a duration of `years` years.
    pub fn years(years: i32) -> (r: CalendarDuration)
        requires
            fits_i32(years * 12),
        ensures
            r.spec_months() == years * 12,
    {
        CalendarDuration::new(years, 0)
    }

    /// Creates a duration of `months` months.
    pub fn months(months: i32) -> (r: CalendarDuration)
        ensures
            r.spec_months() == months,
    {
        CalendarDuration { months }
    }

    /// The shortest duration, `i32::MIN` months.
    pub fn min_value() -> (r: CalendarDuration)
        ensures
            r.spec_months() == i32::MIN,
    {
        CalendarDuration::months(i32::MIN)
    }

    /// The longest duration, `i32::MAX` months.
    pub fn max_value() -> (r: CalendarDuration)
        ensures
            r.spec_months() == i32::MAX,
    {
        CalendarDuration::months(i32::MAX)
    }

    /// Returns the number of whole years, rounded toward zero.
    pub fn whole_years(self) -> (r: i32)
        ensures
            r == div_toward_zero(self.spec_months() as int, 12),
    {
        self.months / 12
    }

    /// Returns the number of whole months.
    pub fn whole_months(self) -> (r: i32)
        ensures
            r == self.spec_months(),
    {
        self.months
    }

    /// Returns the number of months past the whole years; its sign is that of the duration.
    pub fn subyear_months(self) -> (r: i32)
        ensures
            r == self.spec_months() - 12 * div_toward_zero(self.spec_months() as int, 12),
    {
        self.months % 12
    }

    /// Checks if the duration is zero.
    pub fn is_zero(self) -> (r: bool)
        ensures
            r == (self.spec_months() == 0),
    {
        self.months == 0
    }

    /// Checks if the duration is positive.
    pub fn is_positive(self) -> (r: bool)
        ensures
            r == (self.spec_months() > 0),
    {
        self.months > 0
    }

    /// Checks if the duration is negative.
    pub fn is_negative(self) -> (r: bool)
        ensures
            r == (self.spec_months() < 0),
    {
        self.months < 0
    }

    /// Returns the absolute value of the duration.
    pub fn abs(self) -> (r: CalendarDuration)
        requires
            self.spec_months() != i32::MIN,
        ensures
            r.spec_months() == vstd::math::abs(self.spec_months() as int),
    {
        if self.months < 0 {
            CalendarDuration { months: -self.months }
        } else {
            self
        }
    }

    /// Returns the absolute value of the duration, or `None` for the shortest duration.
    pub fn checked_abs(self) -> (r: Option<CalendarDuration>)
        ensures
            r == (if self.spec_months() == i32::MIN {
                None
            } else {
                Some(CalendarDuration::spec_from_months(vstd::math::abs(self.spec_months() as int) as i32))
            }),
    {
        if self.months == i32::MIN {
            None
        } else {
            Some(self.abs())
        }
    }

    /// Returns the date `duration` after `date`, or `None` when it cannot be represented.
    pub fn checked_date_add(date: Date, duration: CalendarDuration) -> (r: Option<Date>)
        ensures
            r == calendar_add(date, duration.spec_months() as int),
            r matches Some(d) ==> d.wf(),
    {
        let year = date.year();
        let month = date.month();
        let day = date.day();
        let index: i32 = year * 12 + (month.number() as i32 - 1);
        let total = match index.checked_add(duration.months) {
            Some(total) => total,
            None => {
                assert(calendar_add(date, duration.spec_months() as int) is None) by (nonlinear_arith)
                    requires
                        index + duration.spec_months() > i32::MAX || index + duration.spec_months() < i32::MIN,
                        index == month_index(date),
                ;
                return None;
            },
        };
        let new_year = total.checked_div_euclid(12).unwrap();
        let new_month = total.checked_rem_euclid(12).unwrap();
        if new_year < MIN_YEAR || new_year > MAX_YEAR {
            return None;
        }
        let new_month = Month::from_number((new_month + 1) as u8).unwrap();
        let last = days_in_year_month(new_year, new_month);
        let new_day = if day < last {
            day
        } else {
            last
        };
        match Date::from_calendar_date(new_year, new_month, new_day) {
            Ok(d) => Some(d),
            Err(_) => None,
        }
    }

    /// Returns the date `duration` before `date`, or `None` when it cannot be represented.
    pub fn checked_date_sub(date: Date, duration: CalendarDuration) -> (r: Option<Date>)
        ensures
            r == calendar_sub(date, duration.spec_months()),
            r matches Some(d) ==> d.wf(),
    {
        match duration.checked_neg() {
            Some(negated) => CalendarDuration::checked_date_add(date, negated),
            None => None,
        }
    }

    /// Computes `self + rhs`, returning `None` if the sum does not fit.
    pub fn checked_add(self, rhs: CalendarDuration) -> (r: Option<CalendarDuration>)
        ensures
            r == (if fits_i32(self.spec_months() + rhs.spec_months()) {
                Some(CalendarDuration::spec_from_months((self.spec_months() + rhs.spec_months()) as i32))
            } else {
                None
            }),
    {
        match self.months.checked_add(rhs.months) {
            Some(months) => Some(CalendarDuration { months }),
            None => None,
        }
    }

    /// Computes `self - rhs`, returning `None` if the difference does not fit.
    pub fn checked_sub(self, rhs: CalendarDuration) -> (r: Option<CalendarDuration>)
        ensures
            r == (if fits_i32(self.spec_months() - rhs.spec_months()) {
                Some(CalendarDuration::spec_from_months((self.spec_months() - rhs.spec_months()) as i32))
            } else {
                None
            }),
    {
        match self.months.checked_sub(rhs.months) {
            Some(months) => Some(CalendarDuration { months }),
            None => None,
        }
    }

    /// Computes `self * rhs`, returning `None` if `rhs` or the product does not fit in 32 bits.
    pub fn checked_mul<T: Scalar>(self, rhs: T) -> (r: Option<CalendarDuration>)
        ensures
            r == (if fits_i32(rhs.spec_value()) && fits_i32(self.spec_months() * rhs.spec_value()) {
                Some(CalendarDuration::spec_from_months((self.spec_months() * rhs.spec_value()) as i32))
            } else {
                None
            }),
    {
        let factor = match rhs.to_i32() {
            Some(factor) => factor,
            None => return None,
        };
        match self.months.checked_mul(factor) {
            Some(months) => Some(CalendarDuration { months }),
            None => None,
        }
    }

    /// Computes `self / rhs` rounded toward zero, returning `None` if `rhs` is zero, does
    /// not fit in 32 bits, or the quotient does not fit.
    pub fn checked_div<T: Scalar>(self, rhs: T) -> (r: Option<CalendarDuration>)
        ensures
            r == (if rhs.spec_value() == 0 || !fits_i32(rhs.spec_value()) || !fits_i32(
                div_toward_zero(self.spec_months() as int, rhs.spec_value()),
            ) {
                None
            } else {
                Some(CalendarDuration::spec_from_months(div_toward_zero(self.spec_months() as int, rhs.spec_value()) as i32))
            }),
    {
        let divisor = match rhs.to_i32() {
            Some(divisor) => divisor,
            None => return None,
        };
        match self.months.checked_div(divisor) {
            Some(months) => Some(CalendarDuration { months }),
            None => None,
        }
    }

    /// Computes `-self`, returning `None` for the shortest duration.
    pub fn checked_neg(self) -> (r: Option<CalendarDuration>)
        ensures
            r == (if self.spec_months() == i32::MIN {
                None
            } else {
                Some(CalendarDuration::spec_from_months((-self.spec_months()) as i32))
            }),
    {
        if self.months == i32::MIN {
            None
        } else {
            Some(CalendarDuration { months: -self.months })
        }
    }
}

impl core::ops::Add for CalendarDuration {
    type Output = CalendarDuration;

    /// The sum of the durations; the sum must fit.
    fn add(self, rhs: CalendarDuration) -> (r: CalendarDuration)
        ensures
            r.spec_months() == self.spec_months() + rhs.spec_months(),
    {
        CalendarDuration { months: self.months + rhs.months }
    }
}

impl vstd::std_specs::ops::AddSpecImpl for CalendarDuration {
    open spec fn obeys_add_spec() -> bool {
        true
    }

    open spec fn add_req(self, rhs: CalendarDuration) -> bool {
        fits_i32(self.spec_months() + rhs.spec_months())
    }

    open spec fn add_spec(self, rhs: CalendarDuration) -> CalendarDuration {
        CalendarDuration::spec_from_months((self.spec_months() + rhs.spec_months()) as i32)
    }
}

impl core::ops::Sub for CalendarDuration {
    type Output = CalendarDuration;

    /// The difference of the durations; the difference must fit.
    fn sub(self, rhs: CalendarDuration) -> (r: CalendarDuration)
        ensures
            r.spec_months() == self.spec_months() - rhs.spec_months(),
    {
        CalendarDuration { months: self.months - rhs.months }
    }
}

impl vstd::std_specs::ops::SubSpecImpl for CalendarDuration {
    open spec fn obeys_sub_spec() -> bool {
        true
    }

    open spec fn sub_req(self, rhs: CalendarDuration) -> bool {
        fits_i32(self.spec_months() - rhs.spec_months())
    }

    open spec fn sub_spec(self, rhs: CalendarDuration) -> CalendarDuration {
        CalendarDuration::spec_from_months((self.spec_months() - rhs.spec_months()) as i32)
    }
}

impl core::ops::Neg for CalendarDuration {
    type Output = CalendarDuration;

    /// The opposite duration; the shortest duration has none.
    fn neg(self) -> (r: CalendarDuration)
        ensures
            r.spec_months() == -self.spec_months(),
    {
        CalendarDuration { months: -self.months }
    }
}

impl vstd::std_specs::ops::NegSpecImpl for CalendarDuration {
    open spec fn obeys_neg_spec() -> bool {
        true
    }

    open spec fn neg_req(self) -> bool {
        self.spec_months() != i32::MIN
    }

    open spec fn neg_spec(self) -> CalendarDuration {
        CalendarDuration::spec_from_months((-self.spec_months()) as i32)
    }
}

impl<T: Scalar> core::ops::Mul<T> for CalendarDuration {
    type Output = CalendarDuration;

    /// The duration scaled by `rhs`; `rhs` and the product must fit in 32 bits.
    fn mul(self, rhs: T) -> (r: CalendarDuration)
        ensures
            r.spec_months() == self.spec_months() * rhs.spec_value(),
    {
        self.checked_mul(rhs).unwrap()
    }
}

impl<T: Scalar> vstd::std_specs::ops::MulSpecImpl<T> for CalendarDuration {
    open spec fn obeys_mul_spec() -> bool {
        true
    }

    open spec fn mul_req(self, rhs: T) -> bool {
        fits_i32(rhs.spec_value()) && fits_i32(self.spec_months() * rhs.spec_value())
    }

    open spec fn mul_spec(self, rhs: T) -> CalendarDuration {
        CalendarDuration::spec_from_months((self.spec_months() * rhs.spec_value()) as i32)
    }
}

impl<T: Scalar> core::ops::Div<T> for CalendarDuration {
    type Output = CalendarDuration;

    /// The duration divided by `rhs`, rounded toward zero; `rhs` must be non-zero and fit
    /// in 32 bits, and the quotient must fit.
    fn div(self, rhs: T) -> (r: CalendarDuration)
        ensures
            r.spec_months() == div_toward_zero(self.spec_months() as int, rhs.spec_value()),
    {
        self.checked_div(rhs).unwrap()
    }
}

impl<T: Scalar> vstd::std_specs::ops::DivSpecImpl<T> for CalendarDuration {
    open spec fn obeys_div_spec() -> bool {
        true
    }

    open spec fn div_req(self, rhs: T) -> bool {
        &&& rhs.spec_value() != 0
        &&& fits_i32(rhs.spec_value())
        &&& fits_i32(div_toward_zero(self.spec_months() as int, rhs.spec_value()))
    }

    open spec fn div_spec(self, rhs: T) -> CalendarDuration {
        CalendarDuration::spec_from_months(div_toward_zero(self.spec_months() as int, rhs.spec_value()) as i32)
    }
}

pub broadcast group group_duration {
    CalendarDuration::lemma_from_months,
    CalendarDuration::lemma_months,
}

} // verus!
