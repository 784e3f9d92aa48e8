use vstd::prelude::*;

use crate::error::ArgumentRange;

verus! {

/// A month of the civil calendar.
#[derive(Debug, Clone, Copy, PartialEq, Eq, Structural)]
pub enum Month {
    January,
    February,
    March,
    April,
    May,
    June,
    July,
    August,
    September,
    October,
    November,
    December,
}

/// The position of `month` within the year, with January as 0.
pub open spec fn month_index(month: Month) -> int {
    match month {
        Month::January => 0,
        Month::February => 1,
        Month::March => 2,
        Month::April => 3,
        Month::May => 4,
        Month::June => 5,
        Month::July => 6,
        Month::August => 7,
        Month::September => 8,
        Month::October => 9,
        Month::November => 10,
        Month::December => 11,
    }
}

/// The month at position `index` within the year, with January as 0.
pub open spec fn month_from_index(index: int) -> Month {
    if index == 0 {
        Month::January
    } else if index == 1 {
        Month::February
    } else if index == 2 {
        Month::March
    } else if index == 3 {
        Month::April
    } else if index == 4 {
        Month::May
    } else if index == 5 {
        Month::June
    } else if index == 6 {
        Month::July
    } else if index == 7 {
        Month::August
    } else if index == 8 {
        Month::September
    } else if index == 9 {
        Month::October
    } else if index == 10 {
        Month::November
    } else {
        Month::December
    }
}

/// The number of days in the month at position `index` (January as 0),
/// in a leap year when `leap` is true.
pub open spec fn spec_days_in_month(index: int, leap: bool) -> int {
    if index == 1 {
        if leap {
            29
        } else {
            28
        }
    } else if index == 3 || index == 5 || index == 8 || index == 10 {
        30
    } else {
        31
    }
}

impl Month {
    /// The position of this month within the year, with January as 0.
    pub fn index(&self) -> (r: u8)
        ensures
            r as int == month_index(*self),
            r < 12,
    {
        match self {
            Month::January => 0,
            Month::February => 1,
            Month::March => 2,
            Month::April => 3,
            Month::May => 4,
            Month::June => 5,
            Month::July => 6,
            Month::August => 7,
            Month::September => 8,
            Month::October => 9,
            Month::November => 10,
            Month::December => 11,
        }
    }

    /// The month at position `index` within the year, with January as 0.
    pub fn from_index(index: u8) -> (r: Month)
        requires
            index < 12,
        ensures
            r == month_from_index(index as int),
            month_index(r) == index as int,
    {
        if index == 0 {
            Month::January
        } else if index == 1 {
            Month::February
        } else if index == 2 {
            Month::March
        } else if index == 3 {
            Month::April
        } else if index == 4 {
            Month::May
        } else if index == 5 {
            Month::June
        } else if index == 6 {
            Month::July
        } else if index == 7 {
            Month::August
        } else if index == 8 {
            Month::September
        } else if index == 9 {
            Month::October
        } else if index == 10 {
            Month::November
        } else {
            Month::December
        }
    }

    /// How many days this month has, in a leap year when `is_leap` is true.
    pub fn days(&self, is_leap: bool) -> (r: u8)
        ensures
            r as int == spec_days_in_month(month_index(*self), is_leap),
            28 <= r <= 31,
    {
        match self {
            Month::January => 31,
            Month::February => {
                if is_leap {
                    29
                } else {
                    28
                }
            },
            Month::March => 31,
            Month::April => 30,
            Month::May => 31,
            Month::June => 30,
            Month::July => 31,
            Month::August => 31,
            Month::September => 30,
            Month::October => 31,
            Month::November => 30,
            Month::December => 31,
        }
    }

    /// The month after this one, wrapping December around to January.
    pub fn following(&self) -> (r: Month)
        ensures
            month_index(r) == (month_index(*self) + 1) % 12,
    {
        match self {
            Month::January => Month::February,
            Month::February => Month::March,
            Month::March => Month::April,
            Month::April => Month::May,
            Month::May => Month::June,
            Month::June => Month::July,
            Month::July => Month::August,
            Month::August => Month::September,
            Month::September => Month::October,
            Month::October => Month::November,
            Month::November => Month::December,
            Month::December => Month::January,
        }
    }

    /// The month after this one, wrapping December around to January.
    pub fn next(self) -> (r: Month)
        ensures
            month_index(r) == (month_index(self) + 1) % 12,
    {
        self.following()
    }

    /// The month before this one, wrapping January around to December.
    pub fn previous(&self) -> (r: Month)
        ensures
            month_index(r) == (month_index(*self) + 11) % 12,
    {
        match self {
            Month::January => Month::December,
            Month::February => Month::January,
            Month::March => Month::February,
            Month::April => Month::March,
            Month::May => Month::April,
            Month::June => Month::May,
            Month::July => Month::June,
            Month::August => Month::July,
            Month::September => Month::August,
            Month::October => Month::September,
            Month::November => Month::October,
            Month::December => Month::November,
        }
    }

    /// The month `n` places after this one, wrapping around year ends.
    pub fn nth_following(&self, n: u16) -> (r: Month)
        ensures
            month_index(r) == (month_index(*self) + n) % 12,
    {
        Month::from_index(((self.index() as u16 + n % 12) % 12) as u8)
    }

    /// The month `n` places before this one, wrapping around year ends.
    pub fn nth_previous(&self, n: u16) -> (r: Month)
        ensures
            month_index(r) == (month_index(*self) + 12 - (n % 12)) % 12,
    {
        Month::from_index(((self.index() as u16 + 12 - n % 12) % 12) as u8)
    }

    /// The month with the given one-based number, January as 1; numbers
    /// outside 1 through 12 are rejected with a range error.
    pub fn try_from_number(value: u8) -> (r: Result<Month, ArgumentRange>)
        ensures
            match r {
                Ok(m) => 1 <= value <= 12 && month_index(m) == value - 1,
                Err(e) => {
                    &&& !(1 <= value <= 12)
                    &&& e.name@ == "month"@
                    &&& e.min == 1
                    &&& e.max == 12
                    &&& e.value == value as i64
                    &&& e.conditional_message is None
                },
            },
    {
        if 1 <= value && value <= 12 {
            Ok(Month::from_index(value - 1))
        } else {
            Err(
                ArgumentRange {
                    name: "month",
                    min: 1,
                    max: 12,
                    value: value as i64,
                    conditional_message: None,
                },
            )
        }
    }

    /// The English name of this month.
    pub fn name(&self) -> (r: &'static str)
        ensures
            r@ == spec_month_name(*self),
    {
        match self {
            Month::January => "January",
            Month::February => "February",
            Month::March => "March",
            Month::April => "April",
            Month::May => "May",
            Month::June => "June",
            Month::July => "July",
            Month::August => "August",
            Month::September => "September",
            Month::October => "October",
            Month::November => "November",
            Month::December => "December",
        }
    }
}

/// The English name of `month`.
pub open spec fn spec_month_name(month: Month) -> Seq<char> {
    match month {
        Month::January => "January"@,
        Month::February => "February"@,
        Month::March => "March"@,
        Month::April => "April"@,
        Month::May => "May"@,
        Month::June => "June"@,
        Month::July => "July"@,
        Month::August => "August"@,
        Month::September => "September"@,
        Month::October => "October"@,
        Month::November => "November"@,
        Month::December => "December"@,
    }
}

/// A day of the week.
#[derive(Debug, Clone, Copy, PartialEq, Eq, Structural)]
pub enum Weekday {
    Monday,
    Tuesday,
    Wednesday,
    Thursday,
    Friday,
    Saturday,
    Sunday,
}

/// The position of `weekday` within the week, with Monday as 0.
pub open spec fn weekday_index(weekday: Weekday) -> int {
    match weekday {
        Weekday::Monday => 0,
        Weekday::Tuesday => 1,
        Weekday::Wednesday => 2,
        Weekday::Thursday => 3,
        Weekday::Friday => 4,
        Weekday::Saturday => 5,
        Weekday::Sunday => 6,
    }
}

/// The weekday at position `index` within the week, with Monday as 0.
pub open spec fn weekday_from_index(index: int) -> Weekday {
    if index == 0 {
        Weekday::Monday
    } else if index == 1 {
        Weekday::Tuesday
    } else if index == 2 {
        Weekday::Wednesday
    } else if index == 3 {
        Weekday::Thursday
    } else if index == 4 {
        Weekday::Friday
    } else if index == 5 {
        Weekday::Saturday
    } else {
        Weekday::Sunday
    }
}

impl Weekday {
    /// The weekday at position `index` within the week, with Monday as 0.
    pub fn from_index(index: u8) -> (r: Weekday)
        requires
            index < 7,
        ensures
            r == weekday_from_index(index as int),
            weekday_index(r) == index as int,
    {
        if index == 0 {
            Weekday::Monday
        } else if index == 1 {
            Weekday::Tuesday
        } else if index == 2 {
            Weekday::Wednesday
        } else if index == 3 {
            Weekday::Thursday
        } else if index == 4 {
            Weekday::Friday
        } else if index == 5 {
            Weekday::Saturday
        } else {
            Weekday::Sunday
        }
    }

    /// The weekday after this one, wrapping Sunday around to Monday.
    pub fn following(&self) -> (r: Weekday)
        ensures
            weekday_index(r) == (weekday_index(*self) + 1) % 7,
    {
        match self {
            Weekday::Monday => Weekday::Tuesday,
            Weekday::Tuesday => Weekday::Wednesday,
            Weekday::Wednesday => Weekday::Thursday,
            Weekday::Thursday => Weekday::Friday,
            Weekday::Friday => Weekday::Saturday,
            Weekday::Saturday => Weekday::Sunday,
            Weekday::Sunday => Weekday::Monday,
        }
    }

    /// The weekday after this one, wrapping Sunday around to Monday.
    pub fn next(&self) -> (r: Weekday)
        ensures
            weekday_index(r) == (weekday_index(*self) + 1) % 7,
    {
        self.following()
    }

    /// The weekday before this one, wrapping Monday around to Sunday.
    pub fn previous(&self) -> (r: Weekday)
        ensures
            weekday_index(r) == (weekday_index(*self) + 6) % 7,
    {
        match self {
            Weekday::Monday => Weekday::Sunday,
            Weekday::Tuesday => Weekday::Monday,
            Weekday::Wednesday => Weekday::Tuesday,
            Weekday::Thursday => Weekday::Wednesday,
            Weekday::Friday => Weekday::Thursday,
            Weekday::Saturday => Weekday::Friday,
            Weekday::Sunday => Weekday::Saturday,
        }
    }

    /// Whether this weekday falls on the weekend.
    pub fn is_weekend(&self) -> (r: bool)
        ensures
            r == spec_is_weekend(*self),
    {
        match self {
            Weekday::Saturday | Weekday::Sunday => true,
            _ => false,
        }
    }

    /// Whether this weekday is a working day, the opposite of a weekend day.
    pub fn is_weekday(&self) -> (r: bool)
        ensures
            r == !spec_is_weekend(*self),
    {
        !self.is_weekend()
    }

    /// The weekday with the given one-based number, Monday as 1; numbers
    /// outside 1 through 7 are rejected with a range error.
    pub fn try_from_number(value: u8) -> (r: Result<Weekday, ArgumentRange>)
        ensures
            match r {
                Ok(w) => 1 <= value <= 7 && weekday_index(w) == value - 1,
                Err(e) => {
                    &&& !(1 <= value <= 7)
                    &&& e.name@ == "weekday"@
                    &&& e.min == 1
                    &&& e.max == 7
                    &&& e.value == value as i64
                    &&& e.conditional_message is None
                },
            },
    {
        if 1 <= value && value <= 7 {
            Ok(Weekday::from_index(value - 1))
        } else {
            Err(
                ArgumentRange {
                    name: "weekday",
                    min: 1,
                    max: 7,
                    value: value as i64,
                    conditional_message: None,
                },
            )
        }
    }

    /// The English name of this weekday.
    pub fn name(&self) -> (r: &'static str)
        ensures
            r@ == spec_weekday_name(*self),
    {
        match self {
            Weekday::Monday => "Monday",
            Weekday::Tuesday => "Tuesday",
            Weekday::Wednesday => "Wednesday",
            Weekday::Thursday => "Thursday",
            Weekday::Friday => "Friday",
            Weekday::Saturday => "Saturday",
            Weekday::Sunday => "Sunday",
        }
    }
}

/// Whether `weekday` falls on the weekend: Saturday or Sunday.
pub open spec fn spec_is_weekend(weekday: Weekday) -> bool {
    weekday == Weekday::Saturday || weekday == Weekday::Sunday
}

/// The English name of `weekday`.
pub open spec fn spec_weekday_name(weekday: Weekday) -> Seq<char> {
    match weekday {
        Weekday::Monday => "Monday"@,
        Weekday::Tuesday => "Tuesday"@,
        Weekday::Wednesday => "Wednesday"@,
        Weekday::Thursday => "Thursday"@,
        Weekday::Friday => "Friday"@,
        Weekday::Saturday => "Saturday"@,
        Weekday::Sunday => "Sunday"@,
    }
}

} // verus!
