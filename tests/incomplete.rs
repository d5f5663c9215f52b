use timext::{
    ComponentRange, Date, InComplete, InComponentRange, InCompleteError, InDate,
    InOffsetDateTime, InPrimitiveDateTime, InTime, Month, OffsetDateTime, PrimitiveDateTime, Time,
    UtcOffset, Weekday,
};

fn date(year: i32, month: Month, day: u8) -> Date {
    Date::from_calendar_date(year, month, day).unwrap()
}

fn missing(name: &'static str) -> InComponentRange {
    InComponentRange::InComplete(InCompleteError::new(name))
}

fn out_of_range(name: &'static str) -> InComponentRange {
    InComponentRange::ComponentRange(ComponentRange::new(name))
}

#[test]
fn complete_a_date_field_by_field() {
    let d1 = InDate::from_calendar_date(None, None, Some(28)).unwrap();
    let d1 = d1.replace_year(Some(2023)).unwrap();
    let d1 = d1.replace_month(Some(Month::January)).unwrap();
    assert_eq!(d1.into_complete(), Ok(date(2023, Month::January, 28)));
}

#[test]
fn missing_year_is_reported_first() {
    let p = InDate::from_calendar_date(None, Some(Month::January), Some(1)).unwrap();
    assert_eq!(p.into_complete(), Err(missing("year")));
    let e = p.into_complete().unwrap_err();
    assert!(matches!(e, InComponentRange::InComplete(x) if x.name() == "year"));
    let p = InDate::from_calendar_date(None, None, None).unwrap();
    assert_eq!(p.into_complete(), Err(missing("year")));
    let p = InDate::from_calendar_date(Some(2020), None, None).unwrap();
    assert_eq!(p.into_complete(), Err(missing("month")));
    let p = InDate::from_calendar_date(Some(2020), Some(Month::May), None).unwrap();
    assert_eq!(p.into_complete(), Err(missing("day")));
}

#[test]
fn date_fields_are_checked_one_by_one() {
    assert_eq!(InDate::from_calendar_date(Some(10_000), None, None), Err(out_of_range("year")));
    assert_eq!(InDate::from_calendar_date(None, None, Some(0)), Err(out_of_range("day")));
    assert_eq!(InDate::from_calendar_date(None, None, Some(32)), Err(out_of_range("day")));
    let feb31 = InDate::from_calendar_date(Some(2023), Some(Month::February), Some(31)).unwrap();
    assert_eq!(feb31.into_complete(), Err(out_of_range("day")));
    assert_eq!(feb31.weekday(), None);
    let p = InDate::from_calendar_date(Some(2023), None, Some(5)).unwrap();
    assert_eq!(p.replace_day(Some(40)), Err(out_of_range("day")));
    assert_eq!(p.replace_year(Some(-10_000)), Err(out_of_range("year")));
}

#[test]
fn date_getters() {
    let p = InDate::from_calendar_date(Some(2024), None, Some(3)).unwrap();
    assert_eq!(p.year(), Some(2024));
    assert_eq!(p.month(), None);
    assert_eq!(p.day(), Some(3));
    assert_eq!(p.weekday(), None);
    let p = p.replace_month(Some(Month::January)).unwrap();
    assert_eq!(p.weekday(), Some(Weekday::Wednesday));
}

#[test]
fn completion_round_trips() {
    let d = date(2024, Month::February, 29);
    assert_eq!(InDate::from_complete(d).into_complete(), Ok(d));
    let t = Time::from_hms_nano(1, 2, 3, 4).unwrap();
    assert_eq!(InTime::from_complete(t).into_complete(), Ok(t));
    let dt = PrimitiveDateTime::new(d, t);
    assert_eq!(InPrimitiveDateTime::from_complete(dt).into_complete(), Ok(dt));
    let odt = dt.assume_offset(UtcOffset::from_whole_seconds(7200).unwrap());
    assert_eq!(InOffsetDateTime::from_complete(odt).into_complete(), Ok(odt));
    let from: InDate = InDate::from_complete(Date::min_value());
    assert_eq!(from.into_complete(), Ok(Date::min_value()));
}

#[test]
fn fallback_fills_every_field() {
    let f = date(2020, Month::January, 15);
    let p = InDate::from_calendar_date(None, Some(Month::March), None).unwrap();
    let q = p.with_fallback(f).unwrap();
    assert_eq!((q.year(), q.month(), q.day()), (Some(2020), Some(Month::March), Some(15)));
    assert_eq!(p.fallback(f), Ok(date(2020, Month::March, 15)));

    let t = Time::from_hms_nano(10, 20, 30, 40).unwrap();
    let p = InTime::from_hms_nano(None, Some(5), None, None).unwrap();
    let q = p.with_fallback(t).unwrap();
    assert_eq!((q.hour(), q.minute(), q.second(), q.nanosecond()), (Some(10), Some(5), Some(30), Some(40)));
    assert_eq!(p.fallback(t), Ok(Time::from_hms_nano(10, 5, 30, 40).unwrap()));

    let empty = InPrimitiveDateTime::new(
        InDate::from_calendar_date(None, None, None).unwrap(),
        InTime::from_hms_nano(None, None, None, None).unwrap(),
    );
    let dt = PrimitiveDateTime::new(f, t);
    assert_eq!(empty.fallback(dt), Ok(dt));
    let odt = dt.assume_utc();
    let q = empty.assume_offset(None).with_fallback(odt).unwrap();
    assert_eq!(q.offset(), Some(UtcOffset::utc()));
    assert_eq!(q.year(), Some(2020));
    assert_eq!(q.nanosecond(), Some(40));
    assert_eq!(q.into_complete(), Ok(odt));
}

#[test]
fn fallback_may_still_fail_to_complete() {
    let p = InDate::from_calendar_date(None, Some(Month::February), Some(31)).unwrap();
    let f = date(2023, Month::January, 1);
    assert_eq!(p.with_fallback(f), Err(out_of_range("day")));
    assert_eq!(p.fallback(f), Err(out_of_range("day")));
    let leap = date(2024, Month::January, 1);
    let q = p.replace_day(Some(29)).unwrap().with_fallback(leap).unwrap();
    assert_eq!((q.year(), q.month(), q.day()), (Some(2024), Some(Month::February), Some(29)));
}

#[test]
fn time_constructors() {
    let t = InTime::from_hms(Some(1), None, Some(3)).unwrap();
    assert_eq!(t.nanosecond(), Some(0));
    let t = InTime::from_hms_milli(None, None, None, Some(845)).unwrap();
    assert_eq!(t.nanosecond(), Some(845_000_000));
    assert_eq!(t.millisecond(), Some(845));
    assert_eq!(t.microsecond(), Some(845_000));
    let t = InTime::from_hms_micro(Some(0), Some(24), None, Some(123_456)).unwrap();
    assert_eq!(t.nanosecond(), Some(123_456_000));
    assert_eq!(t.millisecond(), Some(123));
    assert_eq!(InTime::from_hms_milli(None, None, None, Some(1000)), Err(out_of_range("millisecond")));
    assert_eq!(InTime::from_hms_micro(None, None, None, Some(1_000_000)), Err(out_of_range("microsecond")));
    assert_eq!(InTime::from_hms_milli(Some(24), None, None, Some(1000)), Err(out_of_range("hour")));
    assert_eq!(InTime::from_hms(None, Some(60), None), Err(out_of_range("minute")));
    assert_eq!(InTime::from_hms(None, None, Some(60)), Err(out_of_range("second")));
    assert_eq!(InTime::from_hms_nano(None, None, None, Some(1_000_000_000)), Err(out_of_range("nanosecond")));
}

#[test]
fn time_replacements_touch_one_field() {
    let t = InTime::from_hms_nano(Some(1), Some(2), Some(3), Some(4)).unwrap();
    let r = t.replace_hour(Some(5)).unwrap();
    assert_eq!((r.hour(), r.minute(), r.second(), r.nanosecond()), (Some(5), Some(2), Some(3), Some(4)));
    let r = t.replace_minute(None).unwrap();
    assert_eq!((r.hour(), r.minute(), r.second(), r.nanosecond()), (Some(1), None, Some(3), Some(4)));
    let r = t.replace_second(Some(59)).unwrap();
    assert_eq!(r.second(), Some(59));
    assert_eq!(r.minute(), Some(2));
    let r = t.replace_millisecond(Some(7)).unwrap();
    assert_eq!((r.second(), r.nanosecond()), (Some(3), Some(7_000_000)));
    let r = t.replace_microsecond(Some(7)).unwrap();
    assert_eq!((r.second(), r.nanosecond()), (Some(3), Some(7_000)));
    let r = t.replace_nanosecond(None).unwrap();
    assert_eq!((r.second(), r.nanosecond()), (Some(3), None));
    assert_eq!(t.replace_hour(Some(24)), Err(out_of_range("hour")));
}

#[test]
fn time_completion_order() {
    let t = InTime::from_hms_nano(None, None, None, None).unwrap();
    assert_eq!(t.into_complete(), Err(missing("hour")));
    let t = InTime::from_hms_nano(Some(1), None, None, None).unwrap();
    assert_eq!(t.into_complete(), Err(missing("minute")));
    let t = InTime::from_hms_nano(Some(1), Some(1), None, None).unwrap();
    assert_eq!(t.into_complete(), Err(missing("second")));
    let t = InTime::from_hms_nano(Some(1), Some(1), Some(1), None).unwrap();
    assert_eq!(t.into_complete(), Err(missing("nanosecond")));
}

#[test]
fn primitive_accessors_and_replacements() {
    let d = InDate::from_calendar_date(Some(2024), Some(Month::January), Some(1)).unwrap();
    let t = InTime::from_hms_nano(Some(12), None, Some(30), Some(1_500_000)).unwrap();
    let dt = d.with_time(t);
    assert_eq!(dt, InPrimitiveDateTime::new(d, t));
    assert_eq!(dt.date(), d);
    assert_eq!(dt.time(), t);
    assert_eq!((dt.year(), dt.month(), dt.day()), (Some(2024), Some(Month::January), Some(1)));
    assert_eq!(dt.weekday(), Some(Weekday::Monday));
    assert_eq!((dt.hour(), dt.minute(), dt.second()), (Some(12), None, Some(30)));
    assert_eq!((dt.millisecond(), dt.microsecond(), dt.nanosecond()), (Some(1), Some(1500), Some(1_500_000)));
    assert_eq!(dt.into_complete(), Err(missing("minute")));
    let dt = dt.replace_minute(Some(15)).unwrap();
    let full = PrimitiveDateTime::new(date(2024, Month::January, 1), Time::from_hms_nano(12, 15, 30, 1_500_000).unwrap());
    assert_eq!(dt.into_complete(), Ok(full));
    assert_eq!(dt.replace_year(None).unwrap().into_complete(), Err(missing("year")));
    assert_eq!(dt.replace_month(Some(Month::March)).unwrap().month(), Some(Month::March));
    assert_eq!(dt.replace_day(Some(32)), Err(out_of_range("day")));
    assert_eq!(dt.replace_hour(Some(1)).unwrap().hour(), Some(1));
    assert_eq!(dt.replace_second(Some(2)).unwrap().second(), Some(2));
    assert_eq!(dt.replace_millisecond(Some(2)).unwrap().nanosecond(), Some(2_000_000));
    assert_eq!(dt.replace_microsecond(Some(2)).unwrap().nanosecond(), Some(2_000));
    assert_eq!(dt.replace_nanosecond(Some(2)).unwrap().nanosecond(), Some(2));
    assert_eq!(dt.replace_time(t).unwrap().minute(), None);
    let other = InDate::from_calendar_date(None, None, None).unwrap();
    assert_eq!(dt.replace_date(other).unwrap().into_complete(), Err(missing("year")));
}

#[test]
fn offset_completion_checks_offset_first() {
    let empty = InPrimitiveDateTime::new(
        InDate::from_calendar_date(None, None, None).unwrap(),
        InTime::from_hms_nano(None, None, None, None).unwrap(),
    );
    assert_eq!(empty.assume_offset(None).into_complete(), Err(missing("offset")));
    assert_eq!(empty.assume_utc().into_complete(), Err(missing("year")));
}

#[test]
fn offset_accessors_and_replacements() {
    let d = InDate::from_calendar_date(Some(2016), Some(Month::August), Some(14)).unwrap();
    let t = InTime::from_hms_nano(None, Some(24), None, Some(845_000_000)).unwrap();
    let o = UtcOffset::from_whole_seconds(3600).unwrap();
    let v = InOffsetDateTime::new(d.with_time(t), Some(o));
    assert_eq!(v.offset(), Some(o));
    assert_eq!(v.date(), d);
    assert_eq!(v.time(), t);
    assert_eq!((v.year(), v.month(), v.day()), (Some(2016), Some(Month::August), Some(14)));
    assert_eq!(v.weekday(), Some(Weekday::Sunday));
    assert_eq!((v.hour(), v.minute(), v.second()), (None, Some(24), None));
    assert_eq!((v.millisecond(), v.microsecond(), v.nanosecond()), (Some(845), Some(845_000), Some(845_000_000)));
    assert_eq!(v.replace_offset(None).unwrap().offset(), None);
    assert_eq!(v.replace_year(Some(2017)).unwrap().year(), Some(2017));
    assert_eq!(v.replace_month(None).unwrap().month(), None);
    assert_eq!(v.replace_day(Some(0)), Err(out_of_range("day")));
    assert_eq!(v.replace_hour(Some(9)).unwrap().hour(), Some(9));
    assert_eq!(v.replace_minute(Some(60)), Err(out_of_range("minute")));
    assert_eq!(v.replace_second(Some(1)).unwrap().second(), Some(1));
    assert_eq!(v.replace_millisecond(Some(1)).unwrap().nanosecond(), Some(1_000_000));
    assert_eq!(v.replace_microsecond(Some(1)).unwrap().nanosecond(), Some(1_000));
    assert_eq!(v.replace_nanosecond(Some(1)).unwrap().nanosecond(), Some(1));
    let filled = v.replace_hour(Some(9)).unwrap().replace_second(Some(0)).unwrap();
    let expected: OffsetDateTime = PrimitiveDateTime::new(
        date(2016, Month::August, 14),
        Time::from_hms_nano(9, 24, 0, 845_000_000).unwrap(),
    )
    .assume_offset(o);
    assert_eq!(filled.into_complete(), Ok(expected));
    let other = InDate::from_calendar_date(None, Some(Month::May), None).unwrap();
    assert_eq!(v.replace_date(other).unwrap().date(), other);
    assert_eq!(v.replace_time(InTime::from_complete(Time::midnight())).unwrap().hour(), Some(0));
    let whole = d.with_time(InTime::from_complete(Time::midnight()));
    assert_eq!(v.replace_date_time(whole).unwrap().offset(), Some(o));
}
