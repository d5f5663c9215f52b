use timext::date::days_in_year_month;
use timext::{
    CalendarDuration, CalendarExtension, ComponentRange, Date, Month, NumericCalendarDuration,
    OffsetDateTime, PrimitiveDateTime, Time, UtcOffset, Weekday,
};

fn date(year: i32, month: Month, day: u8) -> Date {
    Date::from_calendar_date(year, month, day).unwrap()
}

fn months(n: i32) -> CalendarDuration {
    CalendarDuration::months(n)
}

#[test]
fn construction_counts_months() {
    let d = CalendarDuration::new(2, 24);
    assert_eq!(d.whole_years(), 4);
    assert_eq!(d.whole_months(), 48);
    let d = CalendarDuration::years(2);
    assert_eq!(d.whole_years(), 2);
    assert_eq!(d.whole_months(), 24);
    let d = CalendarDuration::months(24);
    assert_eq!(d.whole_years(), 2);
    assert_eq!(d.whole_months(), 24);
    assert_eq!(CalendarDuration::new(-1, 5).whole_months(), -7);
    assert_eq!(CalendarDuration::min_value().whole_months(), i32::MIN);
    assert_eq!(CalendarDuration::max_value().whole_months(), i32::MAX);
}

#[test]
fn projections_round_toward_zero() {
    assert_eq!(1.years().whole_years(), 1);
    assert_eq!((-1).years().whole_years(), -1);
    assert_eq!(6.months().whole_years(), 0);
    assert_eq!((-6).months().whole_years(), 0);
    assert_eq!(1.months().whole_months(), 1);
    assert_eq!((-1).months().whole_months(), -1);
    assert_eq!(13.months().subyear_months(), 1);
    assert_eq!((-13).months().subyear_months(), -1);
    assert_eq!((-25).months().whole_years(), -2);
}

#[test]
fn sign_predicates() {
    assert!(0.months().is_zero());
    assert!(!1.months().is_zero());
    assert!(1.months().is_positive());
    assert!(!0.months().is_positive());
    assert!(!(-1).months().is_positive());
    assert!((-1).months().is_negative());
    assert!(!0.months().is_negative());
    assert!(!1.months().is_negative());
}

#[test]
fn absolute_value() {
    assert_eq!(1.months().abs(), 1.months());
    assert_eq!(0.months().abs(), 0.months());
    assert_eq!((-1).months().abs(), 1.months());
    assert_eq!((-7).months().checked_abs(), Some(7.months()));
    assert_eq!(CalendarDuration::min_value().checked_abs(), None);
}

#[test]
fn numeric_literals() {
    assert_eq!(1.months(), CalendarDuration::months(1));
    assert_eq!(1.years(), CalendarDuration::years(1));
    assert_eq!((-1).months(), CalendarDuration::months(-1));
    assert_eq!((-1).years(), CalendarDuration::years(-1));
    assert_eq!(3.years().whole_months(), 36);
}

#[test]
fn checked_duration_arithmetic() {
    assert_eq!(5.months().checked_add(5.months()), Some(10.months()));
    assert_eq!(CalendarDuration::max_value().checked_add(1.months()), None);
    assert_eq!((-5).months().checked_add(5.months()), Some(0.months()));
    assert_eq!(5.months().checked_sub(5.months()), Some(0.months()));
    assert_eq!(CalendarDuration::min_value().checked_sub(1.months()), None);
    assert_eq!(5.months().checked_mul(2), Some(10.months()));
    assert_eq!(5.months().checked_mul(-2), Some((-10).months()));
    assert_eq!(5.months().checked_mul(0), Some(0.months()));
    assert_eq!(CalendarDuration::max_value().checked_mul(2), None);
    assert_eq!(CalendarDuration::min_value().checked_mul(2), None);
    assert_eq!(10.months().checked_div(2), Some(5.months()));
    assert_eq!(10.months().checked_div(-2), Some((-5).months()));
    assert_eq!(1.months().checked_div(0), None);
    assert_eq!(10.months().checked_div(0), None);
    assert_eq!((-7).months().checked_div(2), Some((-3).months()));
    assert_eq!(CalendarDuration::min_value().checked_div(-1), None);
    assert_eq!(10.months().checked_neg(), Some((-10).months()));
    assert_eq!(CalendarDuration::min_value().checked_neg(), None);
}

#[test]
fn duration_operators() {
    assert_eq!(months(5) + months(5), months(10));
    assert_eq!(months(5) - months(7), months(-2));
    assert_eq!(-months(5), months(-5));
    assert_eq!(months(5) * 3, months(15));
    assert_eq!(months(-9) / 2, months(-4));
    assert_eq!(months(5) * 3u8, months(15));
    assert_eq!(months(5) * -2i8, months(-10));
    assert_eq!(months(100) / 7u16, months(14));
    assert_eq!(months(-100) / 3i16, months(-33));
    assert_eq!(months(4) * 2u32, months(8));
}

#[test]
fn scaling_checks_the_factor() {
    assert_eq!(months(0).checked_mul(u32::MAX), None);
    assert_eq!(months(1).checked_mul(i32::MAX as u32), Some(months(i32::MAX)));
    assert_eq!(months(9).checked_div(u32::MAX), None);
    assert_eq!(months(9).checked_div(0u8), None);
    assert_eq!(months(9).checked_mul(-1i16), Some(months(-9)));
    assert_eq!(CalendarDuration::checked_new(1, -12), Some(months(0)));
    assert_eq!(CalendarDuration::checked_new(i32::MAX, 0), None);
    assert_eq!(CalendarDuration::checked_new(178_956_970, 7), Some(months(i32::MAX)));
    assert_eq!(CalendarDuration::checked_new(178_956_970, 8), None);
}

#[test]
fn associated_date_arithmetic() {
    let d0 = date(2018, Month::September, 1);
    let next = CalendarDuration::checked_date_add(d0, 1.months());
    assert_eq!(next, Some(date(2018, Month::October, 1)));
    let prev = CalendarDuration::checked_date_sub(d0, 1.months());
    assert_eq!(prev, Some(date(2018, Month::August, 1)));
    assert_eq!(CalendarDuration::checked_date_sub(d0, CalendarDuration::min_value()), None);
}

#[test]
fn end_of_month_clamping() {
    assert_eq!(date(2023, Month::January, 31) + months(1), date(2023, Month::February, 28));
    assert_eq!(date(2024, Month::January, 31) + months(1), date(2024, Month::February, 29));
    assert_eq!(date(2024, Month::March, 31) - months(1), date(2024, Month::February, 29));
    assert_eq!(date(2024, Month::May, 31) + months(1), date(2024, Month::June, 30));
}

#[test]
fn leap_day_by_years() {
    let leap = date(2024, Month::February, 29);
    assert_eq!(leap + CalendarDuration::years(1), date(2025, Month::February, 28));
    assert_eq!(leap - CalendarDuration::years(1), date(2023, Month::February, 28));
    assert_eq!(leap + CalendarDuration::years(4), date(2028, Month::February, 29));
}

#[test]
fn carry_across_years() {
    assert_eq!(date(2024, Month::December, 1) + months(13), date(2026, Month::January, 1));
    assert_eq!(date(2024, Month::January, 1) - months(13), date(2022, Month::December, 1));
    assert_eq!(date(2024, Month::February, 1) + months(11), date(2025, Month::January, 1));
    assert_eq!(date(2024, Month::June, 15) + months(6), date(2024, Month::December, 15));
    assert_eq!(date(2024, Month::December, 15) - months(12), date(2023, Month::December, 15));
}

#[test]
fn negative_years_use_floor_division() {
    assert_eq!(date(-1, Month::January, 1) - months(1), date(-2, Month::December, 1));
    assert_eq!(date(0, Month::January, 31) - months(11), date(-1, Month::February, 28));
    assert_eq!(date(-4, Month::March, 31) - months(1), date(-4, Month::February, 29));
}

#[test]
fn adding_nothing_keeps_the_date() {
    for d in [
        date(2024, Month::January, 31),
        date(-9999, Month::January, 1),
        date(9999, Month::December, 31),
        date(2023, Month::February, 28),
    ] {
        assert_eq!(d.saturating_calendar_add(months(0)), d);
        assert_eq!(d.saturating_calendar_sub(months(0)), d);
    }
}

#[test]
fn forward_and_back_restores_unclamped_dates() {
    let d = date(2021, Month::March, 15);
    for m in [1, -1, 13, -13, 120, -4000] {
        let there = d.checked_calendar_add(months(m)).unwrap();
        assert_eq!(there.checked_calendar_sub(months(m)), Some(d));
    }
    let clamped = date(2023, Month::January, 31).checked_calendar_add(months(1)).unwrap();
    assert_eq!(clamped.checked_calendar_sub(months(1)), Some(date(2023, Month::January, 28)));
}

#[test]
fn saturation_at_the_bounds() {
    for d in [date(2024, Month::January, 1), date(-9999, Month::January, 1), date(9999, Month::December, 31)] {
        assert_eq!(d.saturating_calendar_add(months(i32::MAX)), Date::max_value());
        assert_eq!(d.saturating_calendar_add(months(i32::MIN)), Date::min_value());
        assert_eq!(d.saturating_calendar_sub(months(i32::MAX)), Date::min_value());
        assert_eq!(d.saturating_calendar_sub(months(i32::MIN)), Date::max_value());
    }
    assert_eq!(Date::max_value().checked_calendar_add(months(1)), None);
    assert_eq!(Date::min_value().checked_calendar_sub(months(1)), None);
    assert_eq!(Date::max_value().saturating_calendar_add(months(1)), Date::max_value());
    assert_eq!(Date::min_value().saturating_calendar_add(months(-1)), Date::min_value());
}

#[test]
fn datetime_arithmetic_keeps_the_time() {
    let t = Time::from_hms_nano(13, 45, 10, 500).unwrap();
    let dt = PrimitiveDateTime::new(date(2023, Month::January, 31), t);
    let moved = dt.checked_calendar_add(months(1)).unwrap();
    assert_eq!(moved, PrimitiveDateTime::new(date(2023, Month::February, 28), t));
    assert_eq!(dt - months(2), PrimitiveDateTime::new(date(2022, Month::November, 30), t));
    assert_eq!(dt.saturating_calendar_add(months(i32::MAX)), PrimitiveDateTime::max_value());
    assert_eq!(dt.saturating_calendar_sub(months(i32::MAX)), PrimitiveDateTime::min_value());
    assert_eq!(dt.checked_calendar_sub(months(i32::MIN)), None);
}

#[test]
fn offset_datetime_arithmetic_keeps_the_offset() {
    let offset = UtcOffset::from_whole_seconds(-5 * 3600).unwrap();
    let t = Time::from_hms(8, 0, 0).unwrap();
    let odt = PrimitiveDateTime::new(date(2024, Month::February, 29), t).assume_offset(offset);
    let moved = odt + months(12);
    assert_eq!(moved.date(), date(2025, Month::February, 28));
    assert_eq!(moved.time(), t);
    assert_eq!(moved.offset(), offset);
    assert_eq!(odt.checked_calendar_sub(months(1)).unwrap().date(), date(2024, Month::January, 29));
    let high = odt.saturating_calendar_add(months(i32::MAX));
    assert_eq!(high, PrimitiveDateTime::max_value().assume_offset(offset));
    let low = odt.saturating_calendar_sub(months(i32::MAX));
    assert_eq!(low, PrimitiveDateTime::min_value().assume_offset(offset));
    assert_eq!(low.offset().whole_seconds(), -18000);
}

#[test]
fn date_validation() {
    assert_eq!(Date::from_calendar_date(2023, Month::February, 29), Err(ComponentRange::new("day")));
    assert_eq!(Date::from_calendar_date(2023, Month::April, 0).unwrap_err().name(), "day");
    assert_eq!(Date::from_calendar_date(10000, Month::January, 1).unwrap_err().name(), "year");
    assert_eq!(Date::from_calendar_date(-10000, Month::January, 1).unwrap_err().name(), "year");
    let d = date(2024, Month::February, 29);
    assert_eq!((d.year(), d.month(), d.day()), (2024, Month::February, 29));
}

#[test]
fn month_lengths() {
    assert_eq!(days_in_year_month(2023, Month::February), 28);
    assert_eq!(days_in_year_month(2024, Month::February), 29);
    assert_eq!(days_in_year_month(1900, Month::February), 28);
    assert_eq!(days_in_year_month(2000, Month::February), 29);
    assert_eq!(days_in_year_month(-4, Month::February), 29);
    assert_eq!(days_in_year_month(2023, Month::September), 30);
    assert_eq!(days_in_year_month(2023, Month::July), 31);
}

#[test]
fn month_numbers() {
    assert_eq!(Month::March.number(), 3);
    assert_eq!(Month::from_number(12), Some(Month::December));
    assert_eq!(Month::from_number(0), None);
    assert_eq!(Month::from_number(13), None);
}

#[test]
fn weekdays() {
    assert_eq!(date(2024, Month::January, 1).weekday(), Weekday::Monday);
    assert_eq!(date(2000, Month::February, 29).weekday(), Weekday::Tuesday);
    assert_eq!(date(1970, Month::January, 1).weekday(), Weekday::Thursday);
    assert_eq!(date(1, Month::January, 1).weekday(), Weekday::Monday);
    assert_eq!(date(0, Month::January, 1).weekday(), Weekday::Saturday);
    assert_eq!(date(2023, Month::December, 31).weekday(), Weekday::Sunday);
}

#[test]
fn time_validation() {
    assert_eq!(Time::from_hms(24, 0, 0).unwrap_err().name(), "hour");
    assert_eq!(Time::from_hms(23, 60, 0).unwrap_err().name(), "minute");
    assert_eq!(Time::from_hms(23, 59, 60).unwrap_err().name(), "second");
    assert_eq!(Time::from_hms_nano(0, 0, 0, 1_000_000_000).unwrap_err().name(), "nanosecond");
    let t = Time::from_hms_nano(23, 59, 59, 999_999_999).unwrap();
    assert_eq!(t, Time::max_value());
    assert_eq!(Time::from_hms(0, 0, 0), Ok(Time::midnight()));
}

#[test]
fn offsets() {
    assert_eq!(UtcOffset::from_whole_seconds(93_600).unwrap_err().name(), "seconds");
    assert_eq!(UtcOffset::from_whole_seconds(-93_600).unwrap_err().name(), "seconds");
    assert_eq!(UtcOffset::from_whole_seconds(3600).unwrap().whole_seconds(), 3600);
    assert_eq!(UtcOffset::utc().whole_seconds(), 0);
    let odt: OffsetDateTime = PrimitiveDateTime::min_value().assume_utc();
    assert_eq!(odt.offset(), UtcOffset::utc());
    assert_eq!(odt.datetime(), PrimitiveDateTime::min_value());
}
