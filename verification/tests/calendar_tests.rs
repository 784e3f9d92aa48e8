use libra::BasicCalendar;
use libra::Calendar;
use libra::CalendarInterface;
use libra::Date;
use libra::Month;
use libra::UnitedKingdom;

fn date(day: u8, month: Month, year: u16) -> Date {
    Date::from_parts(day, month, year).unwrap()
}

fn uk_holiday(day: u8, month: Month, year: u16) -> Option<String> {
    Calendar::UnitedKingdom.get_holiday(&date(day, month, year))
}

#[test]
fn calendar_names() {
    assert_eq!(Calendar::UnitedKingdom.name(), "United Kingdom");
    assert_eq!(Calendar::Basic.name(), "Basic Calendar");
    assert_eq!(UnitedKingdom.name(), "United Kingdom");
    assert_eq!(BasicCalendar.name(), "Basic Calendar");
}

#[test]
fn uk_christmas_day() {
    assert_eq!(uk_holiday(25, Month::December, 2023).as_deref(), Some("Christmas Day"));
    assert_eq!(uk_holiday(26, Month::December, 2023).as_deref(), Some("Boxing Day"));
}

#[test]
fn uk_early_may_bank_holiday() {
    assert_eq!(uk_holiday(1, Month::May, 2023).as_deref(), Some("Early May Bank Holiday"));
    // Moved to 8 May in 1995 and 2020 for V.E. day.
    assert_eq!(uk_holiday(8, Month::May, 1995).as_deref(), Some("Early May Bank Holiday"));
    assert_eq!(uk_holiday(8, Month::May, 2020).as_deref(), Some("Early May Bank Holiday"));
    assert_eq!(uk_holiday(1, Month::May, 1995), None);
}

#[test]
fn uk_coronation_bank_holiday() {
    assert_eq!(
        uk_holiday(8, Month::May, 2023).as_deref(),
        Some("King Charles III Coronation Bank Holiday")
    );
}

#[test]
fn uk_ordinary_weekday_is_no_holiday() {
    assert_eq!(uk_holiday(4, Month::July, 2023), None);
}

#[test]
fn uk_weekends() {
    assert_eq!(uk_holiday(6, Month::May, 2023).as_deref(), Some("Weekend"));
    assert_eq!(uk_holiday(25, Month::December, 2021).as_deref(), Some("Weekend"));
}

#[test]
fn uk_easter_days() {
    assert_eq!(uk_holiday(29, Month::March, 2024).as_deref(), Some("Good Friday"));
    assert_eq!(uk_holiday(1, Month::April, 2024).as_deref(), Some("Easter Monday"));
    assert_eq!(uk_holiday(7, Month::April, 2023).as_deref(), Some("Good Friday"));
    assert_eq!(uk_holiday(10, Month::April, 2023).as_deref(), Some("Easter Monday"));
}

#[test]
fn uk_spring_and_summer_bank_holidays() {
    assert_eq!(uk_holiday(29, Month::May, 2023).as_deref(), Some("Spring Bank Holiday"));
    // Platinum Jubilee days replace the last Monday of May in 2022.
    assert_eq!(uk_holiday(2, Month::June, 2022).as_deref(), Some("Spring Bank Holiday"));
    assert_eq!(uk_holiday(3, Month::June, 2022).as_deref(), Some("Spring Bank Holiday"));
    assert_eq!(uk_holiday(30, Month::May, 2022), None);
    assert_eq!(uk_holiday(28, Month::August, 2023).as_deref(), Some("Summer Bank Holiday"));
}

#[test]
fn uk_one_off_holidays() {
    assert_eq!(uk_holiday(29, Month::April, 2011).as_deref(), Some("Royal Wedding Bank Holiday"));
    assert_eq!(
        uk_holiday(19, Month::September, 2022).as_deref(),
        Some("The Queen's Funeral Bank Holiday")
    );
    assert_eq!(uk_holiday(31, Month::December, 1999).as_deref(), Some("Millenium Celebrations"));
}

#[test]
fn uk_new_year_observance_shifts() {
    // 1 January 2022 fell on a Saturday; the holiday moved to Monday the 3rd.
    assert_eq!(uk_holiday(1, Month::January, 2022).as_deref(), Some("Weekend"));
    assert_eq!(uk_holiday(3, Month::January, 2022).as_deref(), Some("New Year's Day"));
    assert_eq!(uk_holiday(1, Month::January, 2024).as_deref(), Some("New Year's Day"));
}

#[test]
fn uk_christmas_observance_shifts() {
    // 25 and 26 December 2021 fell on the weekend; the holidays moved to
    // Monday the 27th and Tuesday the 28th.
    assert_eq!(uk_holiday(27, Month::December, 2021).as_deref(), Some("Christmas Day"));
    assert_eq!(uk_holiday(28, Month::December, 2021).as_deref(), Some("Boxing Day"));
    assert_eq!(uk_holiday(27, Month::December, 2023), None);
}

#[test]
fn basic_calendar_recognises_three_rules() {
    let basic = Calendar::Basic;
    assert_eq!(
        basic.get_holiday(&date(1, Month::January, 2024)).as_deref(),
        Some("New Year's Day")
    );
    assert_eq!(
        basic.get_holiday(&date(25, Month::December, 2023)).as_deref(),
        Some("Christmas Day")
    );
    assert_eq!(basic.get_holiday(&date(6, Month::January, 2024)).as_deref(), Some("Weekend"));
    assert_eq!(basic.get_holiday(&date(4, Month::July, 2023)), None);
    // The basic calendar knows no UK bank holidays.
    assert_eq!(basic.get_holiday(&date(1, Month::May, 2023)), None);
}

#[test]
fn business_days() {
    assert!(Calendar::UnitedKingdom.is_buisness_day(&date(4, Month::July, 2023)));
    assert!(!Calendar::UnitedKingdom.is_buisness_day(&date(25, Month::December, 2023)));
    assert!(!Calendar::Basic.is_buisness_day(&date(6, Month::January, 2024)));
}

#[test]
fn holiday_vec_over_christmas_week() {
    let holidays = Calendar::UnitedKingdom.construct_holiday_vec(
        date(22, Month::December, 2023),
        date(29, Month::December, 2023),
    );
    assert_eq!(
        holidays,
        vec![
            date(23, Month::December, 2023),
            date(24, Month::December, 2023),
            date(25, Month::December, 2023),
            date(26, Month::December, 2023),
        ]
    );
}

#[test]
fn holiday_vec_is_inclusive_and_ordered() {
    let holidays = Calendar::Basic.construct_holiday_vec(
        date(25, Month::December, 2023),
        date(25, Month::December, 2023),
    );
    assert_eq!(holidays, vec![date(25, Month::December, 2023)]);

    let empty = Calendar::Basic.construct_holiday_vec(
        date(27, Month::December, 2023),
        date(26, Month::December, 2023),
    );
    assert!(empty.is_empty());
}

#[test]
fn calendar_interface_dispatch() {
    let d = date(25, Month::December, 2023);
    assert_eq!(UnitedKingdom.get_holiday(&d).as_deref(), Some("Christmas Day"));
    assert_eq!(BasicCalendar.get_holiday(&d).as_deref(), Some("Christmas Day"));
    let may_day = date(1, Month::May, 2023);
    assert_eq!(UnitedKingdom.get_holiday(&may_day).as_deref(), Some("Early May Bank Holiday"));
    assert_eq!(BasicCalendar.get_holiday(&may_day), None);
}
