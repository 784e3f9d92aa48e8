use libra::Date;
use libra::DateAdjustment;
use libra::DayCountConvention;
use libra::Month;
use libra::YearFraction;

fn date(day: u8, month: Month, year: u16) -> Date {
    Date::from_parts(day, month, year).unwrap()
}

const ALL_CONVENTIONS: [DayCountConvention; 4] = [
    DayCountConvention::Actual360,
    DayCountConvention::Actual365Fixed,
    DayCountConvention::ActualActual,
    DayCountConvention::Thirty360,
];

#[test]
fn thirty360_one_month() {
    let from = date(15, Month::January, 2020);
    let to = date(15, Month::February, 2020);
    let frac = DayCountConvention::Thirty360.year_frac(&from, &to).unwrap();
    assert_eq!(frac, YearFraction { numerator: 30, denominator: 360 });
    let value = frac.numerator as f64 / frac.denominator as f64;
    assert!((value - 30.0 / 360.0).abs() < 1e-12);
}

#[test]
fn thirty360_normalises_day_31() {
    // From the 31st: the start day counts as 30.
    let frac = DayCountConvention::Thirty360
        .year_frac(&date(31, Month::January, 2020), &date(1, Month::February, 2020))
        .unwrap();
    assert_eq!(frac.numerator, 1);

    // To the 31st from the 30th: the end day counts as 30.
    let frac = DayCountConvention::Thirty360
        .year_frac(&date(30, Month::March, 2020), &date(31, Month::May, 2020))
        .unwrap();
    assert_eq!(frac.numerator, 60);

    // To the 31st from mid-month: the end day keeps its value.
    let frac = DayCountConvention::Thirty360
        .year_frac(&date(15, Month::March, 2020), &date(31, Month::May, 2020))
        .unwrap();
    assert_eq!(frac.numerator, 76);
}

#[test]
fn actual360_ninety_one_days() {
    let from = date(1, Month::January, 2024);
    let to = date(1, Month::April, 2024);
    let frac = DayCountConvention::Actual360.year_frac(&from, &to).unwrap();
    assert_eq!(frac, YearFraction { numerator: 91, denominator: 360 });
    let value = frac.numerator as f64 / frac.denominator as f64;
    assert!((value - 91.0 / 360.0).abs() < 1e-12);
}

#[test]
fn actual365_fixed() {
    let from = date(1, Month::January, 2024);
    let to = date(1, Month::April, 2024);
    let frac = DayCountConvention::Actual365Fixed.year_frac(&from, &to).unwrap();
    assert_eq!(frac, YearFraction { numerator: 91, denominator: 365 });
}

#[test]
fn actual_actual_uses_the_start_years_length() {
    let frac = DayCountConvention::ActualActual
        .year_frac(&date(1, Month::January, 2024), &date(1, Month::April, 2024))
        .unwrap();
    assert_eq!(frac, YearFraction { numerator: 91, denominator: 366 });

    let frac = DayCountConvention::ActualActual
        .year_frac(&date(1, Month::January, 2023), &date(1, Month::April, 2023))
        .unwrap();
    assert_eq!(frac, YearFraction { numerator: 90, denominator: 365 });
}

#[test]
fn year_frac_rejects_reversed_dates_under_every_convention() {
    let from = date(2, Month::January, 2024);
    let to = date(1, Month::January, 2024);
    for convention in ALL_CONVENTIONS {
        assert!(convention.year_frac(&from, &to).is_err());
        assert!(convention.year_frac(&to, &from).is_ok());
    }
}

#[test]
fn year_frac_of_a_zero_width_span_is_zero() {
    let d = date(26, Month::May, 2007);
    for convention in ALL_CONVENTIONS {
        let frac = convention.year_frac(&d, &d).unwrap();
        assert_eq!(frac.numerator, 0);
    }
}

#[test]
fn convention_names() {
    assert_eq!(DayCountConvention::Actual360.name(), "Actual / 360");
    assert_eq!(DayCountConvention::Actual365Fixed.name(), "Actual / 365F");
    assert_eq!(DayCountConvention::ActualActual.name(), "Actual / Actual");
    assert_eq!(DayCountConvention::Thirty360.name(), "30 / 360");
}

#[test]
fn date_adjustment_names() {
    assert_eq!(DateAdjustment::Following.name(), "Following");
    assert_eq!(DateAdjustment::Preceding.name(), "Preceding");
    assert_eq!(DateAdjustment::ModifiedFollowing.name(), "Modified Following");
    assert_eq!(DateAdjustment::ModifiedPreceding.name(), "Modified Preceding");
}
