use libra::Date;
use libra::Month;
use libra::Period;
use libra::Weekday;
use libra::date::MAX_SERIAL;
use libra::date::MAX_YEAR;
use libra::date::MIN_SERIAL;
use libra::date::MIN_YEAR;

fn date(day: u8, month: Month, year: u16) -> Date {
    Date::from_parts(day, month, year).unwrap()
}

#[test]
fn bounds_are_the_supported_range() {
    assert_eq!(MIN_SERIAL, 0);
    assert_eq!(MAX_SERIAL, 109572);
    assert_eq!(MIN_YEAR, 1900);
    assert_eq!(MAX_YEAR, 2199);
    let last = Date::from_serial(MAX_SERIAL).unwrap();
    assert_eq!(last.day(), 31);
    assert_eq!(last.month(), Month::December);
    assert_eq!(last.year(), 2199);
    let first = Date::from_serial(MIN_SERIAL).unwrap();
    assert_eq!(first.day(), 1);
    assert_eq!(first.month(), Month::January);
    assert_eq!(first.year(), 1900);
}

#[test]
fn from_parts_round_trips() {
    let samples = [
        (1u8, Month::January, 1900u16),
        (26, Month::May, 2006),
        (29, Month::February, 2004),
        (31, Month::December, 2199),
        (15, Month::August, 1947),
        (28, Month::February, 1900),
    ];
    for (day, month, year) in samples {
        let d = date(day, month, year);
        assert_eq!(d.day(), day);
        assert_eq!(d.month(), month);
        assert_eq!(d.year(), year);
    }
}

#[test]
fn from_serial_round_trips() {
    for serial in [0u32, 1, 58, 59, 365, 366, 45284, 109572] {
        assert_eq!(Date::from_serial(serial).unwrap().to_serial(), serial);
    }
}

#[test]
fn consecutive_serials_have_consecutive_weekdays() {
    let mut previous = Date::from_serial(100).unwrap().weekday();
    for serial in 101u32..130 {
        let weekday = Date::from_serial(serial).unwrap().weekday();
        assert_eq!(weekday, previous.following());
        previous = weekday;
    }
}

#[test]
fn leap_year_rule() {
    assert_eq!(Date::is_leap_year(2000).unwrap(), true);
    assert_eq!(Date::is_leap_year(1900).unwrap(), false);
    assert_eq!(Date::is_leap_year(2004).unwrap(), true);
    assert_eq!(Date::is_leap_year(2023).unwrap(), false);
    assert_eq!(Date::is_leap_year(2100).unwrap(), false);
    assert!(date(1, Month::March, 2004).is_leap());
    assert!(!date(1, Month::March, 1900).is_leap());
}

#[test]
fn is_leap_year_rejects_out_of_range_years() {
    let err = Date::is_leap_year(1899).unwrap_err();
    assert_eq!(err.name, "year");
    assert_eq!(err.min, 1900);
    assert_eq!(err.max, 2199);
    assert_eq!(err.value, 1899);
    assert!(Date::is_leap_year(2200).is_err());
}

#[test]
fn known_weekdays() {
    assert_eq!(date(1, Month::January, 1900).weekday(), Weekday::Monday);
    assert_eq!(date(25, Month::December, 2023).weekday(), Weekday::Monday);
    assert_eq!(date(1, Month::May, 2023).weekday(), Weekday::Monday);
    assert_eq!(date(4, Month::July, 2023).weekday(), Weekday::Tuesday);
    assert_eq!(date(29, Month::March, 2024).weekday(), Weekday::Friday);
}

#[test]
fn day_of_year_counts_from_one() {
    assert_eq!(date(1, Month::January, 2023).day_of_year(), 1);
    assert_eq!(date(31, Month::December, 2023).day_of_year(), 365);
    assert_eq!(date(31, Month::December, 2024).day_of_year(), 366);
    assert_eq!(date(1, Month::March, 2024).day_of_year(), 61);
    assert_eq!(date(1, Month::March, 2023).day_of_year(), 60);
}

#[test]
fn day_of_year_round_trips_through_from_ordinal() {
    let samples = [
        date(1, Month::January, 1900),
        date(29, Month::February, 2004),
        date(1, Month::April, 2024),
        date(31, Month::December, 2023),
        date(31, Month::December, 2199),
    ];
    for d in samples {
        assert_eq!(Date::from_ordinal(d.year(), d.day_of_year()).unwrap(), d);
    }
}

#[test]
fn from_ordinal_is_one_based() {
    let d = Date::from_ordinal(2024, 92).unwrap();
    assert_eq!(d.day(), 1);
    assert_eq!(d.month(), Month::April);
    assert_eq!(d.year(), 2024);
    let first = Date::from_ordinal(1900, 1).unwrap();
    assert_eq!(first.to_serial(), 0);
}

#[test]
fn from_ordinal_rejects_bad_arguments() {
    let err = Date::from_ordinal(2300, 10).unwrap_err();
    assert_eq!(err.name, "year");
    let err = Date::from_ordinal(2024, 0).unwrap_err();
    assert_eq!(err.name, "day_of_year");
    assert_eq!(err.min, 1);
    assert_eq!(err.max, 366);
    let err = Date::from_ordinal(2024, 367).unwrap_err();
    assert_eq!(err.name, "day_of_year");
    // The last supported year is not a leap year, so its ordinal 366
    // would land one day past the supported range.
    let err = Date::from_ordinal(2199, 366).unwrap_err();
    assert_eq!(err.name, "serial_number");
}

#[test]
fn from_serial_rejects_past_the_range() {
    let err = Date::from_serial(MAX_SERIAL + 1).unwrap_err();
    assert_eq!(err.name, "serial_number");
    assert_eq!(err.min, 0);
    assert_eq!(err.max, 109572);
    assert_eq!(err.value, 109573);
}

#[test]
fn from_parts_rejects_day_outside_month() {
    let err = Date::from_parts(30, Month::February, 2005).unwrap_err();
    assert_eq!(err.name, "day");
    assert_eq!(err.min, 1);
    assert_eq!(err.max, 28);
    assert_eq!(err.value, 30);
    assert_eq!(
        err.conditional_message.as_deref(),
        Some("February 2005 has 28 days")
    );
    assert_eq!(
        err.message(),
        "day must be in the range 1..=28, but 30 was provided: February 2005 has 28 days"
    );
    assert!(Date::from_parts(0, Month::June, 2005).is_err());
    assert!(Date::from_parts(31, Month::June, 2005).is_err());
    assert!(Date::from_parts(29, Month::February, 2004).is_ok());
}

#[test]
fn from_parts_rejects_year_outside_range() {
    let err = Date::from_parts(1, Month::January, 1899).unwrap_err();
    assert_eq!(err.name, "year");
    assert_eq!(err.value, 1899);
    assert!(err.conditional_message.is_none());
    assert!(Date::from_parts(1, Month::January, 2200).is_err());
}

#[test]
fn increment_days_moves_the_serial() {
    let d = date(26, Month::May, 2006);
    let next = d.increment(&Period::Days(10)).unwrap();
    assert_eq!(next.to_serial(), d.to_serial() + 10);
    assert_eq!(next.day(), 5);
    assert_eq!(next.month(), Month::June);
}

#[test]
fn increment_months_clamps_to_the_landed_month() {
    let d = date(31, Month::March, 2024);
    let next = d.increment(&Period::Months(1)).unwrap();
    assert_eq!((next.day(), next.month(), next.year()), (30, Month::April, 2024));

    let d = date(31, Month::January, 2024);
    let next = d.increment(&Period::Months(1)).unwrap();
    assert_eq!((next.day(), next.month(), next.year()), (29, Month::February, 2024));

    let d = date(26, Month::May, 2006);
    let next = d.increment(&Period::Months(12)).unwrap();
    assert_eq!((next.day(), next.month(), next.year()), (26, Month::May, 2007));

    let d = date(15, Month::November, 2019);
    let next = d.increment(&Period::Months(3)).unwrap();
    assert_eq!((next.day(), next.month(), next.year()), (15, Month::February, 2020));
}

#[test]
fn increment_years_clamps_leap_day() {
    let d = date(29, Month::February, 2004);
    let next = d.increment(&Period::Years(1)).unwrap();
    assert_eq!((next.day(), next.month(), next.year()), (28, Month::February, 2005));
    let again = d.increment(&Period::Years(4)).unwrap();
    assert_eq!((again.day(), again.month(), again.year()), (29, Month::February, 2008));
}

#[test]
fn increment_rejects_steps_past_the_range() {
    let d = date(31, Month::December, 2199);
    let err = d.increment(&Period::Days(1)).unwrap_err();
    assert_eq!(err.name, "serial_number");
    let err = d.increment(&Period::Years(1)).unwrap_err();
    assert_eq!(err.name, "year");
    assert_eq!(err.value, 2200);
    let err = d.increment(&Period::Months(1)).unwrap_err();
    assert_eq!(err.name, "year");
}

#[test]
fn decrement_mirrors_increment() {
    let d = date(15, Month::January, 2020);
    let back = d.decrement(&Period::Months(2)).unwrap();
    assert_eq!((back.day(), back.month(), back.year()), (15, Month::November, 2019));

    let d = date(31, Month::March, 2024);
    let back = d.decrement(&Period::Months(1)).unwrap();
    assert_eq!((back.day(), back.month(), back.year()), (29, Month::February, 2024));

    let d = date(29, Month::February, 2004);
    let back = d.decrement(&Period::Years(1)).unwrap();
    assert_eq!((back.day(), back.month(), back.year()), (28, Month::February, 2003));

    let d = date(10, Month::June, 1950);
    let back = d.decrement(&Period::Days(9)).unwrap();
    assert_eq!((back.day(), back.month(), back.year()), (1, Month::June, 1950));
}

#[test]
fn decrement_rejects_steps_before_the_range() {
    let d = date(1, Month::January, 1900);
    let err = d.decrement(&Period::Days(1)).unwrap_err();
    assert_eq!(err.name, "serial_number");
    assert_eq!(err.value, -1);
    let err = d.decrement(&Period::Years(1)).unwrap_err();
    assert_eq!(err.name, "year");
    assert_eq!(err.value, 1899);
    let err = d.decrement(&Period::Months(1)).unwrap_err();
    assert_eq!(err.name, "year");
}

#[test]
fn single_step_helpers() {
    let d = date(28, Month::February, 2023);
    assert_eq!(d.next_day().unwrap(), date(1, Month::March, 2023));
    assert_eq!(d.previous_day().unwrap(), date(27, Month::February, 2023));
    assert_eq!(d.next_month().unwrap(), date(28, Month::March, 2023));
    assert_eq!(d.previous_month().unwrap(), date(28, Month::January, 2023));
    assert_eq!(d.next_year().unwrap(), date(28, Month::February, 2024));
    assert_eq!(d.previous_year().unwrap(), date(28, Month::February, 2022));

    let december = date(15, Month::December, 2023);
    assert_eq!(december.next_month().unwrap(), date(15, Month::January, 2024));
    let january = date(15, Month::January, 2024);
    assert_eq!(january.previous_month().unwrap(), december);
}

#[test]
fn difference_is_a_non_negative_day_count() {
    let a = date(1, Month::January, 2024);
    let b = date(1, Month::April, 2024);
    assert_eq!(b.difference(&a), Period::Days(91));
    assert_eq!(a.difference(&b), Period::Days(91));
    assert_eq!(a.difference(&a), Period::Days(0));
    assert_eq!(b.difference(&a).whole_days(), 91);
}

#[test]
fn year_offset_is_the_start_of_the_year() {
    let d = date(15, Month::June, 1901);
    assert_eq!(d.year_offset(), 365);
    assert_eq!(date(5, Month::March, 1900).year_offset(), 0);
}

#[test]
fn easter_mondays_from_the_table() {
    let western = Date::get_easter_monday(2024, false).unwrap();
    assert_eq!(western, date(1, Month::April, 2024));
    assert_eq!(western.weekday(), Weekday::Monday);

    let d = date(14, Month::July, 2024);
    assert_eq!(d.easter_monday(false), western);

    let orthodox = Date::get_easter_monday(2024, true).unwrap();
    assert_eq!(orthodox, date(6, Month::May, 2024));

    let err = Date::get_easter_monday(1800, false).unwrap_err();
    assert_eq!(err.name, "year");
}

#[test]
fn display_pads_day_and_month() {
    assert_eq!(date(26, Month::May, 2006).display_string(), "26-05-2006");
    assert_eq!(date(1, Month::January, 1900).display_string(), "01-01-1900");
    assert_eq!(date(9, Month::November, 2199).display_string(), "09-11-2199");
    assert_eq!(date(31, Month::December, 1999).display_string(), "31-12-1999");
}

#[test]
fn month_arithmetic() {
    assert_eq!(Month::January.following(), Month::February);
    assert_eq!(Month::December.following(), Month::January);
    assert_eq!(Month::December.next(), Month::January);
    assert_eq!(Month::January.previous(), Month::December);
    assert_eq!(Month::October.nth_following(5), Month::March);
    assert_eq!(Month::October.nth_following(17), Month::March);
    assert_eq!(Month::March.nth_previous(5), Month::October);
    assert_eq!(Month::March.nth_previous(29), Month::October);
    assert_eq!(Month::February.days(true), 29);
    assert_eq!(Month::February.days(false), 28);
    assert_eq!(Month::April.days(false), 30);
    assert_eq!(Month::July.days(false), 31);
    assert_eq!(Month::September.name(), "September");
}

#[test]
fn month_and_weekday_from_numbers() {
    assert_eq!(Month::try_from_number(1).unwrap(), Month::January);
    assert_eq!(Month::try_from_number(12).unwrap(), Month::December);
    let err = Month::try_from_number(13).unwrap_err();
    assert_eq!((err.name, err.min, err.max, err.value), ("month", 1, 12, 13));
    assert!(Month::try_from_number(0).is_err());

    assert_eq!(Weekday::try_from_number(1).unwrap(), Weekday::Monday);
    assert_eq!(Weekday::try_from_number(7).unwrap(), Weekday::Sunday);
    let err = Weekday::try_from_number(8).unwrap_err();
    assert_eq!((err.name, err.min, err.max, err.value), ("weekday", 1, 7, 8));
}

#[test]
fn weekday_arithmetic() {
    assert_eq!(Weekday::Sunday.following(), Weekday::Monday);
    assert_eq!(Weekday::Saturday.next(), Weekday::Sunday);
    assert_eq!(Weekday::Monday.previous(), Weekday::Sunday);
    assert!(Weekday::Saturday.is_weekend());
    assert!(Weekday::Sunday.is_weekend());
    assert!(!Weekday::Friday.is_weekend());
    assert!(Weekday::Wednesday.is_weekday());
    assert!(!Weekday::Sunday.is_weekday());
    assert_eq!(Weekday::Tuesday.name(), "Tuesday");
}
