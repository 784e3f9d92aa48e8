use libra::Date;
use libra::Month;
use libra::Period;
use libra::cashflows::accrual_flow_index;
use libra::cashflows::coupon_dates;
use libra::cashflows::first_flow_after;

fn date(day: u8, month: Month, year: u16) -> Date {
    Date::from_parts(day, month, year).unwrap()
}

#[test]
fn yearly_coupons_over_three_years() {
    let issued = date(26, Month::May, 2006);
    let maturity = date(26, Month::May, 2009);
    let dates = coupon_dates(issued, maturity, &Period::Months(12)).unwrap();
    assert_eq!(
        dates,
        vec![
            date(26, Month::May, 2006),
            date(26, Month::May, 2007),
            date(26, Month::May, 2008),
            date(26, Month::May, 2009),
        ]
    );
}

#[test]
fn the_maturity_date_itself_carries_a_coupon() {
    let issued = date(1, Month::January, 2020);
    let maturity = date(1, Month::January, 2021);
    let dates = coupon_dates(issued, maturity, &Period::Months(6)).unwrap();
    assert_eq!(
        dates,
        vec![date(1, Month::January, 2020), date(1, Month::July, 2020), date(1, Month::January, 2021)]
    );
}

#[test]
fn a_short_stub_stops_before_maturity() {
    let issued = date(1, Month::January, 2020);
    let maturity = date(15, Month::April, 2020);
    let dates = coupon_dates(issued, maturity, &Period::Months(3)).unwrap();
    assert_eq!(dates, vec![date(1, Month::January, 2020), date(1, Month::April, 2020)]);
}

#[test]
fn daily_steps() {
    let issued = date(28, Month::February, 2020);
    let maturity = date(2, Month::March, 2020);
    let dates = coupon_dates(issued, maturity, &Period::Days(1)).unwrap();
    assert_eq!(dates.len(), 4);
    assert_eq!(dates[1], date(29, Month::February, 2020));
    assert_eq!(dates[3], date(2, Month::March, 2020));
}

#[test]
fn issue_after_maturity_is_rejected() {
    let issued = date(2, Month::January, 2020);
    let maturity = date(1, Month::January, 2020);
    assert!(coupon_dates(issued, maturity, &Period::Months(12)).is_err());
}

#[test]
fn a_walk_past_the_supported_range_is_rejected() {
    let issued = date(31, Month::December, 2198);
    let maturity = date(31, Month::December, 2199);
    // The coupon on the maturity date itself is fine, but the step taken
    // from it leaves the supported range.
    assert!(coupon_dates(issued, maturity, &Period::Years(1)).is_err());
}

#[test]
fn first_flow_strictly_after_today() {
    let dates = vec![
        date(26, Month::May, 2006),
        date(26, Month::May, 2007),
        date(26, Month::May, 2008),
    ];
    assert_eq!(first_flow_after(&dates, &date(14, Month::July, 2006)), Some(1));
    assert_eq!(first_flow_after(&dates, &date(1, Month::January, 2006)), Some(0));
    assert_eq!(first_flow_after(&dates, &date(26, Month::May, 2007)), Some(2));
    assert_eq!(first_flow_after(&dates, &date(26, Month::May, 2008)), None);
    assert_eq!(first_flow_after(&vec![], &date(1, Month::January, 2020)), None);
}

#[test]
fn accrual_starts_at_the_flow_before_the_next_one() {
    let dates = vec![
        date(26, Month::May, 2006),
        date(26, Month::May, 2007),
        date(26, Month::May, 2008),
    ];
    let maturity = date(26, Month::May, 2008);

    // Between the first and second coupon, interest accrues from the first.
    assert_eq!(accrual_flow_index(&dates, &date(14, Month::July, 2006), &maturity).unwrap(), Some(0));
    // Before any coupon, nothing has accrued yet.
    assert_eq!(accrual_flow_index(&dates, &date(1, Month::January, 2006), &maturity).unwrap(), None);
    // Exactly on a coupon date, accrual starts at that very coupon.
    assert_eq!(
        accrual_flow_index(&dates, &date(26, Month::May, 2007), &maturity).unwrap(),
        Some(1)
    );
    // Past maturity there is nothing to price.
    assert!(accrual_flow_index(&dates, &date(27, Month::May, 2008), &maturity).is_err());
    // On the last date no flow lies strictly after today.
    assert!(accrual_flow_index(&dates, &date(26, Month::May, 2008), &maturity).is_err());
}
