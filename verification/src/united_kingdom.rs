use vstd::prelude::*;

use crate::calendar::CalendarInterface;
use crate::date::Date;
use crate::date::spec_day_of;
use crate::date::spec_doy0_of;
use crate::date::spec_is_weekend_serial;
use crate::date::spec_month_of;
use crate::date::spec_weekday_of;
use crate::date::spec_year_of;
use crate::easter::spec_western_easter_ordinal;
use crate::easter::western_easter_ordinal;
use crate::month::Month;
use crate::month::Weekday;

verus! {

/// The `UnitedKingdom` struct represents the United Kingdom calendar.
pub struct UnitedKingdom;

/// The bank holiday, if any, on the day with the given serial number:
/// Early May (first Monday of May, moved to 8 May in 1995 and 2020 for
/// V.E. day), Spring (last Monday of May, moved to June dates in the
/// Golden, Diamond and Platinum Jubilee years 2002, 2012 and 2022),
/// Summer (last Monday of August), and the one-off Royal Wedding,
/// Queen's funeral and King's coronation days.
pub open spec fn spec_uk_bank_holiday(serial: int) -> Option<Seq<char>> {
    let year = spec_year_of(serial);
    let month = spec_month_of(serial);
    let day = spec_day_of(serial);
    let weekday = spec_weekday_of(serial);
    if (day <= 7 && weekday == 0 && month == 4 && year != 1995 && year != 2020) || (day == 8
        && month == 4 && (year == 1995 || year == 2020)) {
        Some("Early May Bank Holiday"@)
    } else if (day >= 25 && weekday == 0 && month == 4 && year != 2002 && year != 2012 && year
        != 2022) || ((day == 3 || day == 4) && month == 5 && year == 2002) || ((day == 4 || day
        == 5) && month == 5 && year == 2012) || ((day == 2 || day == 3) && month == 5 && year
        == 2022) {
        Some("Spring Bank Holiday"@)
    } else if day >= 25 && weekday == 0 && month == 7 {
        Some("Summer Bank Holiday"@)
    } else if day == 29 && month == 3 && year == 2011 {
        Some("Royal Wedding Bank Holiday"@)
    } else if day == 19 && month == 8 && year == 2022 {
        Some("The Queen's Funeral Bank Holiday"@)
    } else if day == 8 && month == 4 && year == 2023 {
        Some("King Charles III Coronation Bank Holiday"@)
    } else {
        None
    }
}

/// The holiday, if any, that the United Kingdom calendar recognises on
/// the day with the given serial number, the first applicable rule
/// naming the day: weekend; the bank holidays; Good Friday and Easter
/// Monday from the bundled Western table; New Year's Day, Christmas Day
/// and Boxing Day with their weekend-observance shifts; and the one-off
/// Millennium celebration on 31 December 1999.
pub open spec fn spec_uk_holiday(serial: int) -> Option<Seq<char>> {
    let year = spec_year_of(serial);
    let month = spec_month_of(serial);
    let day = spec_day_of(serial);
    let weekday = spec_weekday_of(serial);
    let easter_ordinal = spec_western_easter_ordinal(year);
    if spec_is_weekend_serial(serial) {
        Some("Weekend"@)
    } else if spec_uk_bank_holiday(serial) is Some {
        spec_uk_bank_holiday(serial)
    } else if spec_doy0_of(serial) + 1 == easter_ordinal - 3 {
        Some("Good Friday"@)
    } else if spec_doy0_of(serial) + 1 == easter_ordinal {
        Some("Easter Monday"@)
    } else if (day == 1 || ((day == 2 || day == 3) && weekday == 0)) && month == 0 {
        Some("New Year's Day"@)
    } else if (day == 25 || (day == 27 && (weekday == 0 || weekday == 1))) && month == 11 {
        Some("Christmas Day"@)
    } else if (day == 26 || (day == 28 && (weekday == 0 || weekday == 1))) && month == 11 {
        Some("Boxing Day"@)
    } else if day == 31 && month == 11 && year == 1999 {
        Some("Millenium Celebrations"@)
    } else {
        None
    }
}

impl UnitedKingdom {
    /// Checks if a given date is a bank holiday in the United Kingdom.
    fn get_bank_holiday(&self, date: &Date) -> (r: Option<String>)
        ensures
            r is Some <==> spec_uk_bank_holiday(date.spec_serial()) is Some,
            r matches Some(t) ==> spec_uk_bank_holiday(date.spec_serial()) == Some(t@),
    {
        let weekday = date.weekday();
        let day = date.day();
        let month = date.month();
        let year = date.year();

        // First Monday of May (Early May Bank Holiday)
        // Moved to May 8th in 1995 and 2020 for V.E. day
        if (day <= 7 && weekday == Weekday::Monday && month == Month::May && year != 1995 && year
            != 2020) || (day == 8 && month == Month::May && (year == 1995 || year == 2020)) {
            return Some(String::from_str("Early May Bank Holiday"));
        }
        // Last Monday of May (Spring Bank Holiday)
        // 2002: 3rd and 4th June for the Golden Jubilee
        // 2012: 4th and 5th June for the Diamond Jubilee
        // 2022: 2nd and 3rd June for the Platinum Jubilee
        if (day >= 25 && weekday == Weekday::Monday && month == Month::May && year != 2002 && year
            != 2012 && year != 2022) || ((day == 3 || day == 4) && month == Month::June && year
            == 2002) || ((day == 4 || day == 5) && month == Month::June && year == 2012) || ((day
            == 2 || day == 3) && month == Month::June && year == 2022) {
            return Some(String::from_str("Spring Bank Holiday"));
        }
        // Last Monday of August (Summer Bank Holiday)
        if day >= 25 && weekday == Weekday::Monday && month == Month::August {
            return Some(String::from_str("Summer Bank Holiday"));
        }
        // April 29th, 2011 only (Royal Wedding Bank Holiday)
        if day == 29 && month == Month::April && year == 2011 {
            return Some(String::from_str("Royal Wedding Bank Holiday"));
        }
        // September 19th, 2022 only (The Queen's Funeral Bank Holiday)
        if day == 19 && month == Month::September && year == 2022 {
            return Some(String::from_str("The Queen's Funeral Bank Holiday"));
        }
        // May 8th, 2023 (King Charles III Coronation Bank Holiday)
        if day == 8 && month == Month::May && year == 2023 {
            return Some(String::from_str("King Charles III Coronation Bank Holiday"));
        }
        None
    }
}

impl CalendarInterface for UnitedKingdom {
    open spec fn spec_name(&self) -> Seq<char> {
        "United Kingdom"@
    }

    open spec fn spec_holiday(&self, serial: int) -> Option<Seq<char>> {
        spec_uk_holiday(serial)
    }

    fn name(&self) -> (r: &'static str) {
        "United Kingdom"
    }

    fn get_holiday(&self, date: &Date) -> (r: Option<String>) {
        if date.weekday().is_weekend() {
            return Some(String::from_str("Weekend"));
        }
        if let Some(holiday) = self.get_bank_holiday(date) {
            return Some(holiday);
        }
        let day = date.day();
        let month = date.month();
        let weekday = date.weekday();
        let easter_ordinal = western_easter_ordinal(date.year());
        let ordinal = date.day_of_year();

        // Good Friday
        if ordinal == easter_ordinal - 3 {
            return Some(String::from_str("Good Friday"));
        }
        // Easter Monday
        if ordinal == easter_ordinal {
            return Some(String::from_str("Easter Monday"));
        }
        // New Year's Day (possibly moved to Monday)
        if (day == 1 || ((day == 2 || day == 3) && weekday == Weekday::Monday)) && month
            == Month::January {
            return Some(String::from_str("New Year's Day"));
        }
        // Christmas (possibly moved to Monday or Tuesday)
        if (day == 25 || (day == 27 && (weekday == Weekday::Monday || weekday == Weekday::Tuesday)))
            && month == Month::December {
            return Some(String::from_str("Christmas Day"));
        }
        // Boxing Day (possibly moved to Monday or Tuesday)
        if (day == 26 || (day == 28 && (weekday == Weekday::Monday || weekday == Weekday::Tuesday)))
            && month == Month::December {
            return Some(String::from_str("Boxing Day"));
        }
        // Millenium Celebrations
        if day == 31 && month == Month::December && date.year() == 1999 {
            return Some(String::from_str("Millenium Celebrations"));
        }
        None
    }
}

} // verus!
