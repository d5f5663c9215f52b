//! The Gregorian calendar: months, weekdays and validated calendar dates.
use vstd::prelude::*;

use crate::error::ComponentRange;

verus! {

/// The earliest year a [`Date`] can hold.
pub const MIN_YEAR: i32 = -9999;

/// The latest year a [`Date`] can hold.
pub const MAX_YEAR: i32 = 9999;

/// Months of the year.
#[derive(Debug, Clone, Copy, PartialEq, Eq, Structural, Hash)]
pub enum Month {
    January,
    February,
    March,
    April,
    May,
    June,
    July,
    August,
    September,
    October,
    November,
    December,
}

/// The number of `m` within the year, January being 1.
pub open spec fn month_number(m: Month) -> int {
    match m {
        Month::January => 1,
        Month::February => 2,
        Month::March => 3,
        Month::April => 4,
        Month::May => 5,
        Month::June => 6,
        Month::July => 7,
        Month::August => 8,
        Month::September => 9,
        Month::October => 10,
        Month::November => 11,
        Month::December => 12,
    }
}

/// The month numbered `n`, for `n` in `1..=12`.
pub open spec fn month_of_number(n: int) -> Month {
    if n == 1 {
        Month::January
    } else if n == 2 {
        Month::February
    } else if n == 3 {
        Month::March
    } else if n == 4 {
        Month::April
    } else if n == 5 {
        Month::May
    } else if n == 6 {
        Month::June
    } else if n == 7 {
        Month::July
    } else if n == 8 {
        Month::August
    } else if n == 9 {
        Month::September
    } else if n == 10 {
        Month::October
    } else if n == 11 {
        Month::November
    } else {
        Month::December
    }
}

impl Month {
    /// The number of the month within the year, January being 1.
    pub fn number(self) -> (r: u8)
        ensures
            r == month_number(self),
            1 <= r <= 12,
    {
        match self {
            Month::January => 1,
            Month::February => 2,
            Month::March => 3,
            Month::April => 4,
            Month::May => 5,
            Month::June => 6,
            Month::July => 7,
            Month::August => 8,
            Month::September => 9,
            Month::October => 10,
            Month::November => 11,
            Month::December => 12,
        }
    }

    /// The month numbered `n`, or `None` when `n` is not in `1..=12`.
    pub fn from_number(n: u8) -> (r: Option<Month>)
        ensures
            r == (if 1 <= n <= 12 { Some(month_of_number(n as int)) } else { None::<Month> }),
    {
        match n {
            1 => Some(Month::January),
            2 => Some(Month::February),
            3 => Some(Month::March),
            4 => Some(Month::April),
            5 => Some(Month::May),
            6 => Some(Month::June),
            7 => Some(Month::July),
            8 => Some(Month::August),
            9 => Some(Month::September),
            10 => Some(Month::October),
            11 => Some(Month::November),
            12 => Some(Month::December),
            _ => None,
        }
    }
}

/// Numbering months and reading the number back are inverse.
pub proof fn lemma_month_number(m: Month)
    ensures
        1 <= month_number(m) <= 12,
        month_of_number(month_number(m)) == m,
{
}

/// Whether `year` is a leap year of the proleptic Gregorian calendar.
pub open spec fn is_leap_year(year: int) -> bool {
    (year % 4 == 0 && year % 100 != 0) || year % 400 == 0
}

/// The number of days in month `month` (numbered from 1) of `year`.
pub open spec fn days_in_month(year: int, month: int) -> int {
    if month == 2 {
        if is_leap_year(year) {
            29
        } else {
            28
        }
    } else if month == 4 || month == 6 || month == 9 || month == 11 {
        30
    } else {
        31
    }
}

/// Whether the year, month and day name a day that a [`Date`] can hold.
pub open spec fn is_valid_date(year: int, month: Month, day: int) -> bool {
    &&& MIN_YEAR <= year <= MAX_YEAR
    &&& 1 <= day <= days_in_month(year, month_number(month))
}

/// Whether `year` is a leap year.
pub fn is_leap(year: i32) -> (r: bool)
    ensures
        r == is_leap_year(year as int),
{
    let by_4 = year.checked_rem_euclid(4).unwrap();
    let by_100 = year.checked_rem_euclid(100).unwrap();
    let by_400 = year.checked_rem_euclid(400).unwrap();
    (by_4 == 0 && by_100 != 0) || by_400 == 0
}

/// The number of days in `month` of `year`.
pub fn days_in_year_month(year: i32, month: Month) -> (r: u8)
    ensures
        r == days_in_month(year as int, month_number(month)),
        28 <= r <= 31,
{
    match month {
        Month::February => {
            if is_leap(year) {
                29
            } else {
                28
            }
        },
        Month::April | Month::June | Month::September | Month::November => 30,
        _ => 31,
    }
}

/// Days of the week.
#[derive(Debug, Clone, Copy, PartialEq, Eq, Structural, Hash)]
pub enum Weekday {
    Monday,
    Tuesday,
    Wednesday,
    Thursday,
    Friday,
    Saturday,
    Sunday,
}

/// The weekday `n` days after a Monday, for `n` in `0..7`.
pub open spec fn weekday_after_monday(n: int) -> Weekday {
    if n == 0 {
        Weekday::Monday
    } else if n == 1 {
        Weekday::Tuesday
    } else if n == 2 {
        Weekday::Wednesday
    } else if n == 3 {
        Weekday::Thursday
    } else if n == 4 {
        Weekday::Friday
    } else if n == 5 {
        Weekday::Saturday
    } else {
        Weekday::Sunday
    }
}

/// The number of days in the years before `year`, counted from year 1.
pub open spec fn days_before_year(year: int) -> int {
    let past = year - 1;
    365 * past + past / 4 - past / 100 + past / 400
}

/// The number of days in the months of `year` before month `month` (numbered from 1).
pub open spec fn days_before_month(year: int, month: int) -> int {
    let common: int = if month == 1 {
        0
    } else if month == 2 {
        31
    } else if month == 3 {
        59
    } else if month == 4 {
        90
    } else if month == 5 {
        120
    } else if month == 6 {
        151
    } else if month == 7 {
        181
    } else if month == 8 {
        212
    } else if month == 9 {
        243
    } else if month == 10 {
        273
    } else if month == 11 {
        304
    } else {
        334
    };
    if month > 2 && is_leap_year(year) {
        common + 1
    } else {
        common
    }
}

/// The number of the day in the proleptic Gregorian calendar, January 1 of year 1 being 1.
pub open spec fn day_number(year: int, month: int, day: int) -> int {
    days_before_year(year) + days_before_month(year, month) + day
}

/// The weekday of the given day; January 1 of year 1 was a Monday.
pub open spec fn weekday_of(year: int, month: int, day: int) -> Weekday {
    weekday_after_monday((day_number(year, month, day) - 1) % 7)
}

/// The date of the given year, month and day, or the error that names the component
/// out of range: the year when it is outside `MIN_YEAR..=MAX_YEAR`, else the day.
pub open spec fn date_result(year: i32, month: Month, day: u8) -> Result<Date, ComponentRange> {
    if !(MIN_YEAR <= year <= MAX_YEAR) {
        Err(ComponentRange::from_parts("year"))
    } else if !is_valid_date(year as int, month, day as int) {
        Err(ComponentRange::from_parts("day"))
    } else {
        Ok(Date::from_parts(year, month, day))
    }
}

/// A day of the proleptic Gregorian calendar.
#[derive(Debug, Clone, Copy, PartialEq, Eq, Structural, Hash)]
pub struct Date {
    year: i32,
    month: Month,
    day: u8,
}

impl Date {
    /// Every date is one of the calendar.
    #[verifier::type_invariant]
    closed spec fn inv(&self) -> bool {
        self.wf()
    }

    /// The year of the date.
    pub closed spec fn spec_year(&self) -> i32 {
        self.year
    }

    /// The month of the date.
    pub closed spec fn spec_month(&self) -> Month {
        self.month
    }

    /// The day of the month of the date.
    pub closed spec fn spec_day(&self) -> u8 {
        self.day
    }

    /// The date made of the given components.
    pub closed spec fn from_parts(year: i32, month: Month, day: u8) -> Date {
        Date { year, month, day }
    }

    /// Whether the date is one of the calendar.
    pub open spec fn wf(&self) -> bool {
        is_valid_date(self.spec_year() as int, self.spec_month(), self.spec_day() as int)
    }

    /// The components of a date built from parts are those parts.
    pub broadcast proof fn lemma_from_parts(year: i32, month: Month, day: u8)
        ensures
            #[trigger] Date::from_parts(year, month, day).spec_year() == year,
            Date::from_parts(year, month, day).spec_month() == month,
            Date::from_parts(year, month, day).spec_day() == day,
    {
    }

    /// A date is determined by its components.
    pub broadcast proof fn lemma_parts(d: Date)
        ensures
            #[trigger] Date::from_parts(d.spec_year(), d.spec_month(), d.spec_day()) == d,
    {
    }

    /// Attempts to create a date from the year, month and day.
    pub fn from_calendar_date(year: i32, month: Month, day: u8) -> (r: Result<Date, ComponentRange>)
        ensures
            r == date_result(year, month, day),
            r matches Ok(d) ==> d.wf(),
    {
        if year < MIN_YEAR || year > MAX_YEAR {
            return Err(ComponentRange::new("year"));
        }
        if day < 1 || day > days_in_year_month(year, month) {
            return Err(ComponentRange::new("day"));
        }
        Ok(Date { year, month, day })
    }

    /// The earliest date that can be represented, January 1 of `MIN_YEAR`.
    pub fn min_value() -> (r: Date)
        ensures
            r == Date::spec_min(),
            r.wf(),
    {
        Date { year: MIN_YEAR, month: Month::January, day: 1 }
    }

    /// The latest date that can be represented, December 31 of `MAX_YEAR`.
    pub fn max_value() -> (r: Date)
        ensures
            r == Date::spec_max(),
            r.wf(),
    {
        Date { year: MAX_YEAR, month: Month::December, day: 31 }
    }

    /// The earliest date.
    pub open spec fn spec_min() -> Date {
        Date::from_parts(MIN_YEAR, Month::January, 1)
    }

    /// The latest date.
    pub open spec fn spec_max() -> Date {
        Date::from_parts(MAX_YEAR, Month::December, 31)
    }

    /// The day of the week of the date.
    pub open spec fn spec_weekday(&self) -> Weekday {
        weekday_of(self.spec_year() as int, month_number(self.spec_month()), self.spec_day() as int)
    }

    /// Returns the day of the week.
    pub fn weekday(self) -> (r: Weekday)
        ensures
            r == self.spec_weekday(),
    {
        proof {
            use_type_invariant(&self);
        }
        let past = self.year as i64 - 1;
        let before_year = 365 * past + past.checked_div_euclid(4).unwrap() - past.checked_div_euclid(
            100,
        ).unwrap() + past.checked_div_euclid(400).unwrap();
        let common: i64 = match self.month {
            Month::January => 0,
            Month::February => 31,
            Month::March => 59,
            Month::April => 90,
            Month::May => 120,
            Month::June => 151,
            Month::July => 181,
            Month::August => 212,
            Month::September => 243,
            Month::October => 273,
            Month::November => 304,
            Month::December => 334,
        };
        let before_month = if self.month.number() > 2 && is_leap(self.year) {
            common + 1
        } else {
            common
        };
        let number = before_year + before_month + self.day as i64;
        match (number - 1).checked_rem_euclid(7).unwrap() {
            0 => Weekday::Monday,
            1 => Weekday::Tuesday,
            2 => Weekday::Wednesday,
            3 => Weekday::Thursday,
            4 => Weekday::Friday,
            5 => Weekday::Saturday,
            _ => Weekday::Sunday,
        }
    }

    /// Returns the year.
    pub fn year(self) -> (r: i32)
        ensures
            r == self.spec_year(),
            self.wf(),
    {
        proof {
            use_type_invariant(&self);
        }
        self.year
    }

    /// Returns the month.
    pub fn month(self) -> (r: Month)
        ensures
            r == self.spec_month(),
            self.wf(),
    {
        proof {
            use_type_invariant(&self);
        }
        self.month
    }

    /// Returns the day of the month.
    pub fn day(self) -> (r: u8)
        ensures
            r == self.spec_day(),
            self.wf(),
    {
        proof {
            use_type_invariant(&self);
        }
        self.day
    }
}

pub broadcast group group_date {
    Date::lemma_from_parts,
    Date::lemma_parts,
}

} // verus!
