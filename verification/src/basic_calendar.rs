use vstd::prelude::*;

use crate::calendar::CalendarInterface;
use crate::date::Date;
use crate::date::spec_day_of;
use crate::date::spec_is_weekend_serial;
use crate::date::spec_month_of;
use crate::month::Month;

verus! {

/// Basic calendar implementation for demonstration purposes.
/// Holidays are weekends, New Year's Day, and Christmas Day.
pub struct BasicCalendar;

/// The holiday, if any, that the basic calendar recognises on the day
/// with the given serial number: weekends, New Year's Day and Christmas
/// Day, the first applicable rule naming the day.
pub open spec fn spec_basic_holiday(serial: int) -> Option<Seq<char>> {
    if spec_is_weekend_serial(serial) {
        Some("Weekend"@)
    } else if spec_day_of(serial) == 1 && spec_month_of(serial) == 0 {
        Some("New Year's Day"@)
    } else if spec_day_of(serial) == 25 && spec_month_of(serial) == 11 {
        Some("Christmas Day"@)
    } else {
        None
    }
}

impl CalendarInterface for BasicCalendar {
    open spec fn spec_name(&self) -> Seq<char> {
        "Basic Calendar"@
    }

    open spec fn spec_holiday(&self, serial: int) -> Option<Seq<char>> {
        spec_basic_holiday(serial)
    }

    fn name(&self) -> (r: &'static str) {
        "Basic Calendar"
    }

    fn get_holiday(&self, date: &Date) -> (r: Option<String>) {
        if date.weekday().is_weekend() {
            return Some(String::from_str("Weekend"));
        }
        if date.day() == 1 && date.month() == Month::January {
            return Some(String::from_str("New Year's Day"));
        }
        if date.day() == 25 && date.month() == Month::December {
            return Some(String::from_str("Christmas Day"));
        }
        None
    }
}

} // verus!
