use vstd::prelude::*;

use vstd::arithmetic::div_mod::lemma_fundamental_div_mod;
use vstd::arithmetic::div_mod::lemma_fundamental_div_mod_converse;

use crate::easter::orthodox_easter_ordinal;
use crate::easter::spec_orthodox_easter_ordinal;
use crate::easter::spec_western_easter_ordinal;
use crate::easter::western_easter_ordinal;
use crate::error::ArgumentRange;
use crate::error::spec_decimal;
use crate::error::to_decimal;
use crate::month::Month;
use crate::period::Period;
use crate::period::spec_period_positive;
use crate::month::Weekday;
use crate::month::spec_month_name;
use crate::month::month_from_index;
use crate::month::month_index;
use crate::month::spec_days_in_month;
use crate::month::weekday_from_index;
use crate::month::weekday_index;

verus! {

/// Smallest valid serial number, the day 1 January 1900.
pub const MIN_SERIAL: u32 = 0;

/// Largest valid serial number, the day 31 December 2199.
pub const MAX_SERIAL: u32 = 109572;

/// Smallest valid year.
pub const MIN_YEAR: u16 = 1900;

/// Largest valid year.
pub const MAX_YEAR: u16 = 2199;

/// Whether `year` is a leap year: divisible by 4, unless it is also
/// divisible by 100 but not by 400.
pub open spec fn spec_is_leap_year(year: int) -> bool {
    year % 4 == 0 && (year % 100 != 0 || year % 400 == 0)
}

/// How many days `year` has.
pub open spec fn spec_days_in_year(year: int) -> int {
    if spec_is_leap_year(year) {
        366
    } else {
        365
    }
}

/// The serial number of 1 January of `year`: the count of days from the
/// start of 1900 to the start of `year`.
pub open spec fn spec_year_offset(year: int) -> int
    decreases year - 1900,
{
    if year <= 1900 {
        0
    } else {
        spec_year_offset(year - 1) + spec_days_in_year(year - 1)
    }
}

/// How many days of the year precede the month at position `index`
/// (January as 0), in a leap year when `leap` is true.
pub open spec fn spec_month_offset(index: int, leap: bool) -> int
    decreases index,
{
    if index <= 0 {
        0
    } else {
        spec_month_offset(index - 1, leap) + spec_days_in_month(index - 1, leap)
    }
}

/// The year that holds `serial`, searched upward from `year`.
pub open spec fn spec_year_of_from(serial: int, year: int) -> int
    decreases 2199 - year,
{
    if year >= 2199 {
        2199
    } else if serial < spec_year_offset(year + 1) {
        year
    } else {
        spec_year_of_from(serial, year + 1)
    }
}

/// The year that holds `serial`.
pub open spec fn spec_year_of(serial: int) -> int {
    spec_year_of_from(serial, 1900)
}

/// The zero-based day of the year that holds `serial`.
pub open spec fn spec_doy0_of(serial: int) -> int {
    serial - spec_year_offset(spec_year_of(serial))
}

/// The position of the month that holds the zero-based day `doy0` of a
/// year, searched upward from month position `index`.
pub open spec fn spec_month_of_from(doy0: int, leap: bool, index: int) -> int
    decreases 11 - index,
{
    if index >= 11 {
        11
    } else if doy0 < spec_month_offset(index + 1, leap) {
        index
    } else {
        spec_month_of_from(doy0, leap, index + 1)
    }
}

/// The position of the month that holds `serial` (January as 0).
pub open spec fn spec_month_of(serial: int) -> int {
    spec_month_of_from(
        spec_doy0_of(serial),
        spec_is_leap_year(spec_year_of(serial)),
        0,
    )
}

/// The day of the month that holds `serial`, with the month's first day
/// as 1.
pub open spec fn spec_day_of(serial: int) -> int {
    spec_doy0_of(serial) - spec_month_offset(
        spec_month_of(serial),
        spec_is_leap_year(spec_year_of(serial)),
    ) + 1
}

/// The serial number of the date with the given parts: `month` is a month
/// position (January as 0) and `day` counts from 1.
pub open spec fn spec_serial_of(year: int, month: int, day: int) -> int {
    spec_year_offset(year) + spec_month_offset(month, spec_is_leap_year(year)) + day - 1
}

/// Whether `(year, month, day)` is a date of the supported range:
/// `month` is a month position (January as 0) and `day` counts from 1.
pub open spec fn spec_valid_parts(year: int, month: int, day: int) -> bool {
    &&& 1900 <= year <= 2199
    &&& 0 <= month < 12
    &&& 1 <= day <= spec_days_in_month(month, spec_is_leap_year(year))
}

/// The weekday position of `serial` (Monday as 0): 1 January 1900, the
/// day of serial 0, was a Monday.
pub open spec fn spec_weekday_of(serial: int) -> int {
    serial % 7
}

/// Whether the day with the given serial number falls on a weekend.
pub open spec fn spec_is_weekend_serial(serial: int) -> bool {
    spec_weekday_of(serial) == 5 || spec_weekday_of(serial) == 6
}

proof fn lemma_div_step(a: int, d: int)
    requires
        d > 0,
    ensures
        a / d == (a - 1) / d + (if a % d == 0 {
            1int
        } else {
            0int
        }),
{
    lemma_fundamental_div_mod(a, d);
    let q = a / d;
    let r = a % d;
    if r == 0 {
        assert(a - 1 == (q - 1) * d + (d - 1)) by (nonlinear_arith)
            requires
                a == d * q + r,
                r == 0,
        ;
        lemma_fundamental_div_mod_converse(a - 1, d, q - 1, d - 1);
    } else {
        assert(a - 1 == q * d + (r - 1)) by (nonlinear_arith)
            requires
                a == d * q + r,
        ;
        lemma_fundamental_div_mod_converse(a - 1, d, q, r - 1);
    }
}

proof fn lemma_divisible_chain(a: int)
    ensures
        a % 400 == 0 ==> a % 100 == 0,
        a % 100 == 0 ==> a % 4 == 0,
{
    if a % 400 == 0 {
        lemma_fundamental_div_mod(a, 400);
        lemma_fundamental_div_mod_converse(a, 100, 4 * (a / 400), 0);
    }
    if a % 100 == 0 {
        lemma_fundamental_div_mod(a, 100);
        lemma_fundamental_div_mod_converse(a, 4, 25 * (a / 100), 0);
    }
}

/// The year-start offsets admit a closed form: 365 days per elapsed year
/// plus one per elapsed leap year, counted by the divisibility rules.
pub proof fn lemma_year_offset_closed(year: int)
    requires
        1900 <= year <= 2200,
    ensures
        spec_year_offset(year) == 365 * (year - 1900) + (year - 1) / 4 - (year - 1) / 100 + (year
            - 1) / 400 - 460,
    decreases year - 1900,
{
    if year > 1900 {
        lemma_year_offset_closed(year - 1);
        let a = year - 1;
        lemma_div_step(a, 4);
        lemma_div_step(a, 100);
        lemma_div_step(a, 400);
        lemma_divisible_chain(a);
    }
}

/// Year-start offsets grow by at least 365 and at most 366 days per year.
pub proof fn lemma_year_offset_bounds(a: int, b: int)
    requires
        1900 <= a <= b,
    ensures
        365 * (b - a) <= spec_year_offset(b) - spec_year_offset(a) <= 366 * (b - a),
    decreases b - a,
{
    if a < b {
        lemma_year_offset_bounds(a, b - 1);
    }
}

/// The serial count of 1 January 2200, one past the last supported day.
pub proof fn lemma_serial_count()
    ensures
        spec_year_offset(2200) == MAX_SERIAL as int + 1,
{
    lemma_year_offset_closed(2200);
}

proof fn lemma_year_of_from_props(serial: int, year: int)
    requires
        1900 <= year <= 2199,
        spec_year_offset(year) <= serial < spec_year_offset(2200),
    ensures
        year <= spec_year_of_from(serial, year) <= 2199,
        spec_year_offset(spec_year_of_from(serial, year)) <= serial,
        serial < spec_year_offset(spec_year_of_from(serial, year) + 1),
    decreases 2199 - year,
{
    if year < 2199 && serial >= spec_year_offset(year + 1) {
        lemma_year_of_from_props(serial, year + 1);
    }
}

/// For every serial in the supported range, the year found for it starts
/// at or before that serial and ends after it.
pub proof fn lemma_year_of_props(serial: int)
    requires
        0 <= serial <= MAX_SERIAL as int,
    ensures
        1900 <= spec_year_of(serial) <= 2199,
        spec_year_offset(spec_year_of(serial)) <= serial,
        serial < spec_year_offset(spec_year_of(serial) + 1),
        spec_year_offset(spec_year_of(serial) + 1) - spec_year_offset(spec_year_of(serial))
            == spec_days_in_year(spec_year_of(serial)),
{
    lemma_serial_count();
    lemma_year_of_from_props(serial, 1900);
}

/// A serial that falls within a year's span is found to be of that year.
pub proof fn lemma_year_of_unique(serial: int, year: int)
    requires
        1900 <= year <= 2199,
        spec_year_offset(year) <= serial,
        serial < spec_year_offset(year + 1),
    ensures
        spec_year_of(serial) == year,
{
    lemma_year_offset_bounds(year + 1, 2200);
    lemma_serial_count();
    lemma_year_of_props(serial);
    let y = spec_year_of(serial);
    if y < year {
        lemma_year_offset_bounds(y + 1, year);
    }
    if y > year {
        lemma_year_offset_bounds(year + 1, y);
    }
}

/// Month-start offsets grow by at least 28 and at most 31 days per month.
pub proof fn lemma_month_offset_bounds(a: int, b: int, leap: bool)
    requires
        0 <= a <= b,
    ensures
        28 * (b - a) <= spec_month_offset(b, leap) - spec_month_offset(a, leap) <= 31 * (b - a),
    decreases b - a,
{
    if a < b {
        lemma_month_offset_bounds(a, b - 1, leap);
    }
}

/// The twelve months of a year together cover exactly its day count.
pub proof fn lemma_month_offset_total(leap: bool)
    ensures
        spec_month_offset(12, leap) == if leap {
            366int
        } else {
            365int
        },
{
    reveal_with_fuel(spec_month_offset, 13);
}

proof fn lemma_month_of_from_props(doy0: int, leap: bool, index: int)
    requires
        0 <= index <= 11,
        spec_month_offset(index, leap) <= doy0,
        doy0 < spec_month_offset(12, leap),
    ensures
        index <= spec_month_of_from(doy0, leap, index) <= 11,
        spec_month_offset(spec_month_of_from(doy0, leap, index), leap) <= doy0,
        doy0 < spec_month_offset(spec_month_of_from(doy0, leap, index) + 1, leap),
    decreases 11 - index,
{
    if index < 11 && doy0 >= spec_month_offset(index + 1, leap) {
        lemma_month_of_from_props(doy0, leap, index + 1);
    }
}

/// For every day of a year, the month found for it starts at or before
/// that day and ends after it.
pub proof fn lemma_month_of_props(doy0: int, leap: bool)
    requires
        0 <= doy0,
        doy0 < if leap {
            366int
        } else {
            365int
        },
    ensures
        ({
            let m = spec_month_of_from(doy0, leap, 0);
            &&& 0 <= m <= 11
            &&& spec_month_offset(m, leap) <= doy0
            &&& doy0 < spec_month_offset(m + 1, leap)
            &&& spec_month_offset(m + 1, leap) - spec_month_offset(m, leap)
                == spec_days_in_month(m, leap)
        }),
{
    lemma_month_offset_total(leap);
    lemma_month_of_from_props(doy0, leap, 0);
}

/// A day that falls within a month's span is found to be of that month.
pub proof fn lemma_month_of_unique(doy0: int, leap: bool, index: int)
    requires
        0 <= index <= 11,
        spec_month_offset(index, leap) <= doy0,
        doy0 < spec_month_offset(index + 1, leap),
    ensures
        spec_month_of_from(doy0, leap, 0) == index,
{
    lemma_month_offset_bounds(0, index, leap);
    lemma_month_offset_bounds(index + 1, 12, leap);
    lemma_month_offset_total(leap);
    lemma_month_of_props(doy0, leap);
    let m = spec_month_of_from(doy0, leap, 0);
    if m < index {
        lemma_month_offset_bounds(m + 1, index, leap);
    }
    if m > index {
        lemma_month_offset_bounds(index + 1, m, leap);
    }
}

/// Valid date parts round-trip: the serial built from them lies in the
/// supported range and decomposes back into the same year, month position
/// and day of the month.
pub proof fn lemma_parts_round_trip(year: int, month: int, day: int)
    requires
        spec_valid_parts(year, month, day),
    ensures
        ({
            let s = spec_serial_of(year, month, day);
            &&& 0 <= s <= MAX_SERIAL as int
            &&& spec_year_of(s) == year
            &&& spec_month_of(s) == month
            &&& spec_day_of(s) == day
        }),
{
    let leap = spec_is_leap_year(year);
    let s = spec_serial_of(year, month, day);
    let doy0 = spec_month_offset(month, leap) + day - 1;
    lemma_month_offset_bounds(0, month, leap);
    lemma_month_offset_bounds(month + 1, 12, leap);
    lemma_month_offset_total(leap);
    assert(0 <= doy0 < spec_days_in_year(year));
    assert(spec_year_offset(year + 1) == spec_year_offset(year) + spec_days_in_year(year));
    lemma_year_offset_bounds(year + 1, 2200);
    lemma_serial_count();
    lemma_year_offset_bounds(1900, year);
    lemma_year_of_unique(s, year);
    lemma_month_of_unique(doy0, leap, month);
}

/// Every serial in the supported range decomposes into valid date parts,
/// and those parts rebuild the same serial.
pub proof fn lemma_serial_round_trip(serial: int)
    requires
        0 <= serial <= MAX_SERIAL as int,
    ensures
        spec_valid_parts(spec_year_of(serial), spec_month_of(serial), spec_day_of(serial)),
        spec_serial_of(spec_year_of(serial), spec_month_of(serial), spec_day_of(serial)) == serial,
{
    lemma_year_of_props(serial);
    lemma_month_of_props(spec_doy0_of(serial), spec_is_leap_year(spec_year_of(serial)));
}

/// Two dates with the same serial number are the same date.
pub proof fn lemma_serial_injective(a: Date, b: Date)
    requires
        a.spec_serial() == b.spec_serial(),
    ensures
        a == b,
{
}

/// A date's year and one-based day of the year rebuild its serial: the
/// day number lies in 1 through 366, and placing it back into the year
/// lands on the same day.
pub proof fn lemma_ordinal_round_trip(serial: int)
    requires
        0 <= serial <= MAX_SERIAL as int,
    ensures
        1 <= spec_doy0_of(serial) + 1 <= 366,
        spec_year_offset(spec_year_of(serial)) + (spec_doy0_of(serial) + 1) - 1 == serial,
{
    lemma_year_of_props(serial);
}

/// The order of serial numbers is the order of civil dates: an earlier
/// serial never decomposes to a later year, month and day.
pub proof fn lemma_serial_order(s1: int, s2: int)
    requires
        0 <= s1 <= s2 <= MAX_SERIAL as int,
    ensures
        spec_year_of(s1) <= spec_year_of(s2),
        spec_year_of(s1) == spec_year_of(s2) ==> spec_month_of(s1) <= spec_month_of(s2),
        spec_year_of(s1) == spec_year_of(s2) && spec_month_of(s1) == spec_month_of(s2)
            ==> spec_day_of(s1) <= spec_day_of(s2),
{
    lemma_year_of_props(s1);
    lemma_year_of_props(s2);
    let y1 = spec_year_of(s1);
    let y2 = spec_year_of(s2);
    if y2 < y1 {
        lemma_year_offset_bounds(y2 + 1, y1);
        assert(false);
    }
    if y1 == y2 {
        let leap = spec_is_leap_year(y1);
        let doy1 = spec_doy0_of(s1);
        let doy2 = spec_doy0_of(s2);
        lemma_month_of_props(doy1, leap);
        lemma_month_of_props(doy2, leap);
        let m1 = spec_month_of(s1);
        let m2 = spec_month_of(s2);
        if m2 < m1 {
            lemma_month_offset_bounds(m2 + 1, m1, leap);
            assert(false);
        }
    }
}

/// Consecutive serial numbers fall on consecutive weekdays, wrapping
/// around after Sunday.
pub proof fn lemma_weekday_succession(serial: int)
    ensures
        spec_weekday_of(serial + 1) == (spec_weekday_of(serial) + 1) % 7,
{
    lemma_fundamental_div_mod(serial, 7);
    if serial % 7 == 6 {
        lemma_fundamental_div_mod_converse(serial + 1, 7, serial / 7 + 1, 0);
    } else {
        lemma_fundamental_div_mod_converse(serial + 1, 7, serial / 7, serial % 7 + 1);
    }
}

/// A civil date, stored as the count of days since 1 January 1900.
#[derive(Debug, Clone, Copy, PartialEq, Eq, Structural, PartialOrd, Ord, Hash)]
pub struct Date {
    serial: u32,
}

impl Date {
    #[verifier::type_invariant]
    pub closed spec fn inv(self) -> bool {
        self.serial <= MAX_SERIAL
    }

    /// The serial number behind this date.
    pub closed spec fn spec_serial(self) -> int {
        self.serial as int
    }

    /// The year this date falls in.
    pub open spec fn spec_year(self) -> int {
        spec_year_of(self.spec_serial())
    }

    /// The position of this date's month within its year (January as 0).
    pub open spec fn spec_month_index(self) -> int {
        spec_month_of(self.spec_serial())
    }

    /// The day of the month of this date, counting from 1.
    pub open spec fn spec_day(self) -> int {
        spec_day_of(self.spec_serial())
    }

    /// The position of this date's weekday within the week (Monday as 0).
    pub open spec fn spec_weekday_index(self) -> int {
        spec_weekday_of(self.spec_serial())
    }

    /// The serial number behind this date: the count of days since
    /// 1 January 1900.
    pub fn to_serial(&self) -> (r: u32)
        ensures
            r == self.spec_serial(),
            r <= MAX_SERIAL,
    {
        proof {
            use_type_invariant(self);
        }
        self.serial
    }

    /// The number of days from the start of 1900 to the start of `year`.
    /// The year one past the supported maximum is allowed so that a year
    /// guess one too high can still be checked.
    fn get_year_offset(year: u16) -> (r: u32)
        requires
            1900 <= year <= 2200,
        ensures
            r == spec_year_offset(year as int),
            r <= MAX_SERIAL as int + 1,
    {
        proof {
            lemma_year_offset_closed(year as int);
            lemma_year_offset_bounds(year as int, 2200);
            lemma_serial_count();
        }
        let y = year as u32;
        365 * (y - 1900) + (y - 1) / 4 + (y - 1) / 400 - (y - 1) / 100 - 460
    }

    /// The number of days of the year that precede the month at position
    /// `index` (January as 0), in a leap year when `is_leap` is true.
    fn get_month_offset_at(index: u8, is_leap: bool) -> (r: u32)
        requires
            index <= 12,
        ensures
            r == spec_month_offset(index as int, is_leap),
            r <= 366,
    {
        proof {
            reveal_with_fuel(spec_month_offset, 13);
        }
        let offsets: [u32; 13] = if is_leap {
            [0, 31, 60, 91, 121, 152, 182, 213, 244, 274, 305, 335, 366]
        } else {
            [0, 31, 59, 90, 120, 151, 181, 212, 243, 273, 304, 334, 365]
        };
        offsets[index as usize]
    }

    /// The number of days of the year that precede the 1st of `month`, in
    /// a leap year when `is_leap` is true.
    fn get_month_offset(month: Month, is_leap: bool) -> (r: u32)
        ensures
            r == spec_month_offset(month_index(month), is_leap),
            r <= 366,
    {
        Self::get_month_offset_at(month.index(), is_leap)
    }

    /// Whether `year` is a leap year, for a year already known to be in
    /// the supported range.
    fn leap_of(year: u16) -> (r: bool)
        requires
            1900 <= year <= 2199,
        ensures
            r == spec_is_leap_year(year as int),
    {
        if year % 4 != 0 {
            false
        } else if year % 100 == 0 {
            year % 400 == 0
        } else {
            true
        }
    }

    /// Whether `year` is a leap year: divisible by 4, unless it is also
    /// divisible by 100 but not by 400. Years outside the supported range
    /// are rejected with a range error.
    pub fn is_leap_year(year: u16) -> (r: Result<bool, ArgumentRange>)
        ensures
            match r {
                Ok(b) => MIN_YEAR <= year <= MAX_YEAR && b == spec_is_leap_year(year as int),
                Err(e) => {
                    &&& !(MIN_YEAR <= year <= MAX_YEAR)
                    &&& e.name@ == "year"@
                    &&& e.min == MIN_YEAR as i64
                    &&& e.max == MAX_YEAR as i64
                    &&& e.value == year as i64
                    &&& e.conditional_message is None
                },
            },
    {
        if year > MAX_YEAR || year < MIN_YEAR {
            return Err(
                ArgumentRange {
                    name: "year",
                    min: MIN_YEAR as i64,
                    max: MAX_YEAR as i64,
                    value: year as i64,
                    conditional_message: None,
                },
            );
        }
        Ok(Self::leap_of(year))
    }

    /// Builds the date with the given serial number, rejecting serials
    /// past the supported range.
    pub fn from_serial(serial_number: u32) -> (r: Result<Self, ArgumentRange>)
        ensures
            match r {
                Ok(d) => serial_number <= MAX_SERIAL && d.spec_serial() == serial_number as int,
                Err(e) => {
                    &&& serial_number > MAX_SERIAL
                    &&& e.name@ == "serial_number"@
                    &&& e.min == MIN_SERIAL as i64
                    &&& e.max == MAX_SERIAL as i64
                    &&& e.value == serial_number as i64
                    &&& e.conditional_message is None
                },
            },
    {
        if serial_number > MAX_SERIAL {
            return Err(
                ArgumentRange {
                    name: "serial_number",
                    min: MIN_SERIAL as i64,
                    max: MAX_SERIAL as i64,
                    value: serial_number as i64,
                    conditional_message: None,
                },
            );
        }
        Ok(Date { serial: serial_number })
    }

    /// Builds the date with the given day of the month, month and year,
    /// rejecting years outside the supported range and days outside the
    /// month, and never silently clamping.
    pub fn from_parts(day: u8, month: Month, year: u16) -> (r: Result<Self, ArgumentRange>)
        ensures
            r is Ok <==> spec_valid_parts(year as int, month_index(month), day as int),
            match r {
                Ok(d) => {
                    &&& spec_valid_parts(year as int, month_index(month), day as int)
                    &&& d.spec_serial() == spec_serial_of(
                        year as int,
                        month_index(month),
                        day as int,
                    )
                },
                Err(e) => if !(MIN_YEAR <= year <= MAX_YEAR) {
                    &&& e.name@ == "year"@
                    &&& e.min == MIN_YEAR as i64
                    &&& e.max == MAX_YEAR as i64
                    &&& e.value == year as i64
                    &&& e.conditional_message is None
                } else {
                    &&& !(1 <= day <= spec_days_in_month(
                        month_index(month),
                        spec_is_leap_year(year as int),
                    ))
                    &&& e.name@ == "day"@
                    &&& e.min == 1
                    &&& e.max == spec_days_in_month(
                        month_index(month),
                        spec_is_leap_year(year as int),
                    )
                    &&& e.value == day as i64
                    &&& e.conditional_message matches Some(m) && m@ == spec_month_name(month)
                        + " "@ + spec_decimal(year as int) + " has "@ + spec_decimal(
                        spec_days_in_month(month_index(month), spec_is_leap_year(year as int)),
                    ) + " days"@
                },
            },
    {
        if year > MAX_YEAR || year < MIN_YEAR {
            return Err(
                ArgumentRange {
                    name: "year",
                    min: MIN_YEAR as i64,
                    max: MAX_YEAR as i64,
                    value: year as i64,
                    conditional_message: None,
                },
            );
        }
        let leap = Self::leap_of(year);
        let month_days = month.days(leap);

        if day > month_days || day < 1 {
            let mut msg = String::from_str(month.name());
            msg.append(" ");
            msg.append(to_decimal(year as i64).as_str());
            msg.append(" has ");
            msg.append(to_decimal(month_days as i64).as_str());
            msg.append(" days");
            proof {
                reveal_strlit(" ");
                reveal_strlit(" has ");
                reveal_strlit(" days");
            }
            return Err(
                ArgumentRange {
                    name: "day",
                    min: 1,
                    max: month_days as i64,
                    value: day as i64,
                    conditional_message: Some(msg),
                },
            );
        }
        proof {
            lemma_parts_round_trip(year as int, month_index(month), day as int);
        }
        Ok(
            Date {
                serial: day as u32 + Self::get_month_offset(month, leap) + Self::get_year_offset(
                    year,
                ) - 1,
            },
        )
    }

    /// Builds the date with the given year and one-based day of the year,
    /// rejecting years outside the supported range and day numbers outside
    /// 1 through 366.
    pub fn from_ordinal(year: u16, day_of_year: u16) -> (r: Result<Self, ArgumentRange>)
        ensures
            match r {
                Ok(d) => {
                    &&& MIN_YEAR <= year <= MAX_YEAR
                    &&& 1 <= day_of_year <= 366
                    &&& d.spec_serial() == spec_year_offset(year as int) + day_of_year - 1
                },
                Err(e) => if !(MIN_YEAR <= year <= MAX_YEAR) {
                    &&& e.name@ == "year"@
                    &&& e.min == MIN_YEAR as i64
                    &&& e.max == MAX_YEAR as i64
                    &&& e.value == year as i64
                } else if !(1 <= day_of_year <= 366) {
                    &&& e.name@ == "day_of_year"@
                    &&& e.min == 1
                    &&& e.max == 366
                    &&& e.value == day_of_year as i64
                } else {
                    &&& spec_year_offset(year as int) + day_of_year - 1 > MAX_SERIAL as int
                    &&& e.name@ == "serial_number"@
                },
            },
    {
        if year > MAX_YEAR || year < MIN_YEAR {
            return Err(
                ArgumentRange {
                    name: "year",
                    min: MIN_YEAR as i64,
                    max: MAX_YEAR as i64,
                    value: year as i64,
                    conditional_message: None,
                },
            );
        }
        if day_of_year > 366 || day_of_year < 1 {
            return Err(
                ArgumentRange {
                    name: "day_of_year",
                    min: 1,
                    max: 366,
                    value: day_of_year as i64,
                    conditional_message: None,
                },
            );
        }
        Self::from_serial(Self::get_year_offset(year) + day_of_year as u32 - 1)
    }

    /// The year contained in this date.
    pub fn year(&self) -> (r: u16)
        ensures
            r as int == self.spec_year(),
            MIN_YEAR <= r <= MAX_YEAR,
    {
        proof {
            use_type_invariant(self);
            lemma_fundamental_div_mod(self.serial as int, 365);
            lemma_year_offset_bounds(1900, (self.serial / 365 + 1900) as int);
            lemma_serial_count();
        }
        let guess: u16 = (self.serial / 365) as u16 + 1900;
        let year: u16 = if self.serial < Self::get_year_offset(guess) {
            proof {
                lemma_year_offset_bounds(1900, guess as int - 1);
            }
            guess - 1
        } else {
            proof {
                if guess < 2200 {
                    lemma_year_offset_bounds(1900, guess as int + 1);
                }
            }
            guess
        };
        proof {
            lemma_year_of_unique(self.serial as int, year as int);
        }
        year
    }

    /// The number of days from the start of 1900 to the start of the year
    /// this date falls in.
    pub fn year_offset(&self) -> (r: u32)
        ensures
            r == spec_year_offset(self.spec_year()),
            r <= self.spec_serial(),
    {
        proof {
            use_type_invariant(self);
            lemma_year_of_props(self.spec_serial());
        }
        Self::get_year_offset(self.year())
    }

    /// Whether this date falls in a leap year.
    pub fn is_leap(&self) -> (r: bool)
        ensures
            r == spec_is_leap_year(self.spec_year()),
    {
        proof {
            use_type_invariant(self);
            lemma_year_of_props(self.spec_serial());
        }
        Self::leap_of(self.year())
    }

    /// How many days of the year precede this date.
    fn elapsed_days_of_year(&self) -> (r: u16)
        ensures
            r as int == spec_doy0_of(self.spec_serial()),
            r < 366,
    {
        proof {
            use_type_invariant(self);
            lemma_year_of_props(self.spec_serial());
        }
        (self.serial - self.year_offset()) as u16
    }

    /// The day of the year that this date refers to, with 1 January as 1.
    pub fn day_of_year(&self) -> (r: u16)
        ensures
            r as int == spec_doy0_of(self.spec_serial()) + 1,
            1 <= r <= 366,
    {
        self.elapsed_days_of_year() + 1
    }

    /// The month contained in this date.
    pub fn month(&self) -> (r: Month)
        ensures
            month_index(r) == self.spec_month_index(),
            r == month_from_index(self.spec_month_index()),
    {
        proof {
            use_type_invariant(self);
            lemma_year_of_props(self.spec_serial());
        }
        let doy0 = self.elapsed_days_of_year() as u32;
        let leap = self.is_leap();
        let ghost s = self.spec_serial();

        let mut index: u8 = 0;
        while index < 11 && doy0 >= Self::get_month_offset_at(index + 1, leap)
            invariant
                0 <= index <= 11,
                spec_month_offset(index as int, leap) <= doy0,
                doy0 == spec_doy0_of(s),
                leap == spec_is_leap_year(spec_year_of(s)),
                0 <= s <= MAX_SERIAL as int,
                doy0 < spec_days_in_year(spec_year_of(s)),
            decreases 11 - index,
        {
            index += 1;
        }
        proof {
            if index == 11 {
                lemma_month_offset_total(leap);
            }
            lemma_month_of_unique(doy0 as int, leap, index as int);
        }
        Month::from_index(index)
    }

    /// The day of the month that this date refers to, counting from 1.
    pub fn day(&self) -> (r: u8)
        ensures
            r as int == self.spec_day(),
            1 <= r <= 31,
    {
        proof {
            use_type_invariant(self);
            lemma_year_of_props(self.spec_serial());
            lemma_month_of_props(
                spec_doy0_of(self.spec_serial()),
                spec_is_leap_year(self.spec_year()),
            );
        }
        let doy0 = self.elapsed_days_of_year() as u32;
        let month_offset = Self::get_month_offset(self.month(), self.is_leap());
        (doy0 - month_offset) as u8 + 1
    }

    /// The weekday this date falls on: the epoch day, 1 January 1900, was
    /// a Monday, and weekdays advance with the serial number modulo 7.
    pub fn weekday(&self) -> (r: Weekday)
        ensures
            weekday_index(r) == self.spec_weekday_index(),
            r == weekday_from_index(self.spec_weekday_index()),
    {
        proof {
            use_type_invariant(self);
        }
        Weekday::from_index((self.serial % 7) as u8)
    }

    /// The Easter Monday of `year`, Western or Orthodox, looked up in the
    /// bundled tables; years outside the supported range are rejected.
    pub fn get_easter_monday(year: u16, orthodox: bool) -> (r: Result<Self, ArgumentRange>)
        ensures
            match r {
                Ok(d) => {
                    &&& MIN_YEAR <= year <= MAX_YEAR
                    &&& d.spec_year() == year as int
                    &&& spec_doy0_of(d.spec_serial()) + 1 == spec_easter_ordinal(
                        year as int,
                        orthodox,
                    )
                },
                Err(e) => {
                    &&& !(MIN_YEAR <= year <= MAX_YEAR)
                    &&& e.name@ == "year"@
                    &&& e.min == MIN_YEAR as i64
                    &&& e.max == MAX_YEAR as i64
                    &&& e.value == year as i64
                    &&& e.conditional_message is None
                },
            },
    {
        if year > MAX_YEAR || year < MIN_YEAR {
            return Err(
                ArgumentRange {
                    name: "year",
                    min: MIN_YEAR as i64,
                    max: MAX_YEAR as i64,
                    value: year as i64,
                    conditional_message: None,
                },
            );
        }
        let ordinal = if orthodox {
            orthodox_easter_ordinal(year)
        } else {
            western_easter_ordinal(year)
        };
        proof {
            lemma_year_offset_bounds(year as int, year as int + 1);
            lemma_year_offset_bounds(year as int + 1, 2200);
            lemma_serial_count();
        }
        match Self::from_ordinal(year, ordinal) {
            Ok(d) => {
                proof {
                    lemma_year_of_unique(d.spec_serial(), year as int);
                }
                Ok(d)
            },
            Err(_) => unreached(),
        }
    }

    /// The Easter Monday, Western or Orthodox, of the year this date
    /// falls in.
    pub fn easter_monday(&self, orthodox: bool) -> (r: Self)
        ensures
            r.spec_year() == self.spec_year(),
            spec_doy0_of(r.spec_serial()) + 1 == spec_easter_ordinal(self.spec_year(), orthodox),
    {
        proof {
            use_type_invariant(self);
            lemma_year_of_props(self.spec_serial());
        }
        match Self::get_easter_monday(self.year(), orthodox) {
            Ok(d) => d,
            Err(_) => unreached(),
        }
    }

    /// Increments this date by `period`. Days move the serial number
    /// directly; months and years land on the same day of the month,
    /// clamped to the landed month's length, with month steps past
    /// December carrying into the year first. A step past the supported
    /// range is rejected.
    pub fn increment(&self, period: &Period) -> (r: Result<Self, ArgumentRange>)
        ensures
            r is Ok <==> spec_increment_ok(self.spec_serial(), *period),
            r matches Ok(d) ==> d.spec_serial() == spec_increment_serial(self.spec_serial(), *period),
            r matches Ok(d) ==> 0 <= d.spec_serial() <= MAX_SERIAL as int,
            match *period {
                Period::Days(n) => match r {
                    Ok(d) => {
                        &&& self.spec_serial() + n <= MAX_SERIAL as int
                        &&& d.spec_serial() == self.spec_serial() + n
                    },
                    Err(e) => {
                        &&& self.spec_serial() + n > MAX_SERIAL as int
                        &&& e.name@ == "serial_number"@
                        &&& e.value == self.spec_serial() + n
                    },
                },
                Period::Years(n) => {
                    let landed = self.spec_year() + n;
                    match r {
                        Ok(d) => {
                            &&& landed <= MAX_YEAR as int
                            &&& d.spec_serial() == spec_serial_of(
                                landed,
                                self.spec_month_index(),
                                spec_clamped_day(landed, self.spec_month_index(), self.spec_day()),
                            )
                        },
                        Err(e) => {
                            &&& landed > MAX_YEAR as int
                            &&& e.name@ == "year"@
                            &&& e.value == landed
                        },
                    }
                },
                Period::Months(n) => {
                    let landed_year = self.spec_year() + (self.spec_month_index() + n) / 12;
                    let landed_month = (self.spec_month_index() + n) % 12;
                    match r {
                        Ok(d) => {
                            &&& landed_year <= MAX_YEAR as int
                            &&& d.spec_serial() == spec_serial_of(
                                landed_year,
                                landed_month,
                                spec_clamped_day(landed_year, landed_month, self.spec_day()),
                            )
                        },
                        Err(e) => {
                            &&& landed_year > MAX_YEAR as int
                            &&& e.name@ == "year"@
                            &&& e.value == landed_year
                        },
                    }
                },
            },
    {
        proof {
            use_type_invariant(self);
        }
        match period {
            Period::Days(days) => {
                let s = self.to_serial();
                if *days > MAX_SERIAL - s {
                    Err(
                        ArgumentRange {
                            name: "serial_number",
                            min: MIN_SERIAL as i64,
                            max: MAX_SERIAL as i64,
                            value: s as i64 + *days as i64,
                            conditional_message: None,
                        },
                    )
                } else {
                    Ok(Date { serial: s + *days })
                }
            },
            Period::Years(years) => {
                let landed = self.year() as u32 + *years as u32;
                if landed > MAX_YEAR as u32 {
                    return Err(
                        ArgumentRange {
                            name: "year",
                            min: MIN_YEAR as i64,
                            max: MAX_YEAR as i64,
                            value: landed as i64,
                            conditional_message: None,
                        },
                    );
                }
                Ok(self.landing(landed as u16, self.month()))
            },
            Period::Months(months) => {
                let total = self.month().index() as u32 + *months as u32;
                let landed = self.year() as u32 + total / 12;
                if landed > MAX_YEAR as u32 {
                    return Err(
                        ArgumentRange {
                            name: "year",
                            min: MIN_YEAR as i64,
                            max: MAX_YEAR as i64,
                            value: landed as i64,
                            conditional_message: None,
                        },
                    );
                }
                Ok(self.landing(landed as u16, Month::from_index((total % 12) as u8)))
            },
        }
    }

    /// Decrements this date by `period`, the mirror of `increment`: days
    /// move the serial number directly, months and years land on the same
    /// day of the month clamped to the landed month's length, and a step
    /// before the supported range is rejected.
    pub fn decrement(&self, period: &Period) -> (r: Result<Self, ArgumentRange>)
        ensures
            r matches Ok(d) ==> 0 <= d.spec_serial() <= MAX_SERIAL as int,
            match *period {
                Period::Days(n) => match r {
                    Ok(d) => {
                        &&& self.spec_serial() - n >= 0
                        &&& d.spec_serial() == self.spec_serial() - n
                    },
                    Err(e) => {
                        &&& self.spec_serial() - n < 0
                        &&& e.name@ == "serial_number"@
                        &&& e.value == self.spec_serial() - n
                    },
                },
                Period::Years(n) => {
                    let landed = self.spec_year() - n;
                    match r {
                        Ok(d) => {
                            &&& landed >= MIN_YEAR as int
                            &&& d.spec_serial() == spec_serial_of(
                                landed,
                                self.spec_month_index(),
                                spec_clamped_day(landed, self.spec_month_index(), self.spec_day()),
                            )
                        },
                        Err(e) => {
                            &&& landed < MIN_YEAR as int
                            &&& e.name@ == "year"@
                            &&& e.value == landed
                        },
                    }
                },
                Period::Months(n) => {
                    let landed_year = self.spec_year() + (self.spec_month_index() - n) / 12;
                    let landed_month = (self.spec_month_index() - n) % 12;
                    match r {
                        Ok(d) => {
                            &&& landed_year >= MIN_YEAR as int
                            &&& d.spec_serial() == spec_serial_of(
                                landed_year,
                                landed_month,
                                spec_clamped_day(landed_year, landed_month, self.spec_day()),
                            )
                        },
                        Err(e) => {
                            &&& landed_year < MIN_YEAR as int
                            &&& e.name@ == "year"@
                            &&& e.value == landed_year
                        },
                    }
                },
            },
    {
        proof {
            use_type_invariant(self);
        }
        match period {
            Period::Days(days) => {
                let s = self.to_serial();
                if *days > s {
                    Err(
                        ArgumentRange {
                            name: "serial_number",
                            min: MIN_SERIAL as i64,
                            max: MAX_SERIAL as i64,
                            value: s as i64 - *days as i64,
                            conditional_message: None,
                        },
                    )
                } else {
                    Ok(Date { serial: s - *days })
                }
            },
            Period::Years(years) => {
                let landed = self.year() as i64 - *years as i64;
                if landed < MIN_YEAR as i64 {
                    return Err(
                        ArgumentRange {
                            name: "year",
                            min: MIN_YEAR as i64,
                            max: MAX_YEAR as i64,
                            value: landed,
                            conditional_message: None,
                        },
                    );
                }
                Ok(self.landing(landed as u16, self.month()))
            },
            Period::Months(months) => {
                let month_index = self.month().index() as u16;
                let remainder = *months % 12;
                let borrow = (*months / 12) as u32 + (if remainder > month_index {
                    1u32
                } else {
                    0u32
                });
                let landed_index = ((month_index + 12 - remainder) % 12) as u8;
                let landed = self.year() as i64 - borrow as i64;
                proof {
                    lemma_fundamental_div_mod((*months) as int, 12);
                    lemma_fundamental_div_mod_converse(
                        self.spec_month_index() - (*months) as int,
                        12,
                        -(borrow as int),
                        landed_index as int,
                    );
                }
                if landed < MIN_YEAR as i64 {
                    return Err(
                        ArgumentRange {
                            name: "year",
                            min: MIN_YEAR as i64,
                            max: MAX_YEAR as i64,
                            value: landed,
                            conditional_message: None,
                        },
                    );
                }
                Ok(self.landing(landed as u16, Month::from_index(landed_index)))
            },
        }
    }

    /// The date in `year` and `month` with this date's day of the month,
    /// clamped to the landed month's length.
    fn landing(&self, year: u16, month: Month) -> (r: Self)
        requires
            MIN_YEAR <= year <= MAX_YEAR,
        ensures
            r.spec_serial() == spec_serial_of(
                year as int,
                month_index(month),
                spec_clamped_day(year as int, month_index(month), self.spec_day()),
            ),
            0 <= r.spec_serial() <= MAX_SERIAL as int,
    {
        proof {
            use_type_invariant(self);
            lemma_year_of_props(self.spec_serial());
            lemma_month_of_props(
                spec_doy0_of(self.spec_serial()),
                spec_is_leap_year(self.spec_year()),
            );
        }
        let leap = Self::leap_of(year);
        let landed_days = month.days(leap);
        let day = self.day();
        let day = if day < landed_days {
            day
        } else {
            landed_days
        };
        match Self::from_parts(day, month, year) {
            Ok(d) => {
                proof {
                    use_type_invariant(&d);
                }
                d
            },
            Err(_) => unreached(),
        }
    }

    /// The day after this one.
    pub fn next_day(&self) -> (r: Result<Self, ArgumentRange>)
        ensures
            match r {
                Ok(d) => self.spec_serial() + 1 <= MAX_SERIAL as int && d.spec_serial()
                    == self.spec_serial() + 1,
                Err(_) => self.spec_serial() == MAX_SERIAL as int,
            },
    {
        proof {
            use_type_invariant(self);
            lemma_year_of_props(self.spec_serial());
            lemma_month_of_props(
                spec_doy0_of(self.spec_serial()),
                spec_is_leap_year(self.spec_year()),
            );
        }
        self.increment(&Period::Days(1))
    }

    /// The day before this one.
    pub fn previous_day(&self) -> (r: Result<Self, ArgumentRange>)
        ensures
            match r {
                Ok(d) => self.spec_serial() >= 1 && d.spec_serial() == self.spec_serial() - 1,
                Err(_) => self.spec_serial() == 0,
            },
    {
        proof {
            use_type_invariant(self);
        }
        self.decrement(&Period::Days(1))
    }

    /// The date one month after this one, day of the month clamped.
    pub fn next_month(&self) -> (r: Result<Self, ArgumentRange>)
        ensures
            match r {
                Ok(d) => {
                    let landed_year = self.spec_year() + (self.spec_month_index() + 1) / 12;
                    let landed_month = (self.spec_month_index() + 1) % 12;
                    &&& landed_year <= MAX_YEAR as int
                    &&& d.spec_serial() == spec_serial_of(
                        landed_year,
                        landed_month,
                        spec_clamped_day(landed_year, landed_month, self.spec_day()),
                    )
                },
                Err(_) => self.spec_year() == MAX_YEAR as int && self.spec_month_index() == 11,
            },
    {
        proof {
            use_type_invariant(self);
            lemma_year_of_props(self.spec_serial());
            lemma_month_of_props(
                spec_doy0_of(self.spec_serial()),
                spec_is_leap_year(self.spec_year()),
            );
        }
        self.increment(&Period::Months(1))
    }

    /// The date one month before this one, day of the month clamped.
    pub fn previous_month(&self) -> (r: Result<Self, ArgumentRange>)
        ensures
            match r {
                Ok(d) => {
                    let landed_year = self.spec_year() + (self.spec_month_index() - 1) / 12;
                    let landed_month = (self.spec_month_index() - 1) % 12;
                    &&& landed_year >= MIN_YEAR as int
                    &&& d.spec_serial() == spec_serial_of(
                        landed_year,
                        landed_month,
                        spec_clamped_day(landed_year, landed_month, self.spec_day()),
                    )
                },
                Err(_) => self.spec_year() == MIN_YEAR as int && self.spec_month_index() == 0,
            },
    {
        proof {
            use_type_invariant(self);
            lemma_year_of_props(self.spec_serial());
            lemma_month_of_props(
                spec_doy0_of(self.spec_serial()),
                spec_is_leap_year(self.spec_year()),
            );
        }
        self.decrement(&Period::Months(1))
    }

    /// The date one year after this one, day of the month clamped.
    pub fn next_year(&self) -> (r: Result<Self, ArgumentRange>)
        ensures
            match r {
                Ok(d) => self.spec_year() + 1 <= MAX_YEAR as int && d.spec_serial()
                    == spec_serial_of(
                    self.spec_year() + 1,
                    self.spec_month_index(),
                    spec_clamped_day(self.spec_year() + 1, self.spec_month_index(), self.spec_day()),
                ),
                Err(_) => self.spec_year() == MAX_YEAR as int,
            },
    {
        proof {
            use_type_invariant(self);
            lemma_year_of_props(self.spec_serial());
            lemma_month_of_props(
                spec_doy0_of(self.spec_serial()),
                spec_is_leap_year(self.spec_year()),
            );
        }
        self.increment(&Period::Years(1))
    }

    /// The date one year before this one, day of the month clamped.
    pub fn previous_year(&self) -> (r: Result<Self, ArgumentRange>)
        ensures
            match r {
                Ok(d) => self.spec_year() - 1 >= MIN_YEAR as int && d.spec_serial()
                    == spec_serial_of(
                    self.spec_year() - 1,
                    self.spec_month_index(),
                    spec_clamped_day(self.spec_year() - 1, self.spec_month_index(), self.spec_day()),
                ),
                Err(_) => self.spec_year() == MIN_YEAR as int,
            },
    {
        proof {
            use_type_invariant(self);
            lemma_year_of_props(self.spec_serial());
            lemma_month_of_props(
                spec_doy0_of(self.spec_serial()),
                spec_is_leap_year(self.spec_year()),
            );
        }
        self.decrement(&Period::Years(1))
    }

    /// This date rendered as `day-month-year`, the day and the one-based
    /// month number zero-padded to two digits.
    pub fn display_string(&self) -> (r: String)
        ensures
            r@ == spec_date_display(*self),
    {
        proof {
            use_type_invariant(self);
            lemma_year_of_props(self.spec_serial());
            lemma_month_of_props(
                spec_doy0_of(self.spec_serial()),
                spec_is_leap_year(self.spec_year()),
            );
        }
        let mut s = String::new();
        if self.day() < 10 {
            s.append("0");
        }
        s.append(to_decimal(self.day() as i64).as_str());
        s.append("-");
        let month_number = self.month().index() + 1;
        if month_number < 10 {
            s.append("0");
        }
        s.append(to_decimal(month_number as i64).as_str());
        s.append("-");
        s.append(to_decimal(self.year() as i64).as_str());
        s
    }

    /// The distance between this date and `other`, as a non-negative
    /// number of whole days.
    pub fn difference(&self, other: &Self) -> (r: Period)
        ensures
            r == Period::Days(
                (if self.spec_serial() >= other.spec_serial() {
                    self.spec_serial() - other.spec_serial()
                } else {
                    other.spec_serial() - self.spec_serial()
                }) as u32,
            ),
    {
        let a = self.to_serial();
        let b = other.to_serial();
        if a >= b {
            Period::Days(a - b)
        } else {
            Period::Days(b - a)
        }
    }
}

/// The day of the month actually landed on when a month or year step
/// carries `day` into the month at position `month` of `year`: the day
/// itself when the landed month is long enough, and the landed month's
/// last day otherwise.
pub open spec fn spec_clamped_day(year: int, month: int, day: int) -> int {
    let month_days = spec_days_in_month(month, spec_is_leap_year(year));
    if day <= month_days {
        day
    } else {
        month_days
    }
}

/// Whether stepping the day with the given serial number forward by
/// `period` stays within the supported range.
pub open spec fn spec_increment_ok(serial: int, period: Period) -> bool {
    match period {
        Period::Days(n) => serial + n <= MAX_SERIAL as int,
        Period::Years(n) => spec_year_of(serial) + n <= MAX_YEAR as int,
        Period::Months(n) => spec_year_of(serial) + (spec_month_of(serial) + n) / 12
            <= MAX_YEAR as int,
    }
}

/// The serial number landed on when the day with the given serial
/// number steps forward by `period`: days move the serial directly,
/// months and years land on the same day of the month clamped to the
/// landed month's length.
pub open spec fn spec_increment_serial(serial: int, period: Period) -> int {
    match period {
        Period::Days(n) => serial + n,
        Period::Years(n) => {
            let landed = spec_year_of(serial) + n;
            spec_serial_of(
                landed,
                spec_month_of(serial),
                spec_clamped_day(landed, spec_month_of(serial), spec_day_of(serial)),
            )
        },
        Period::Months(n) => {
            let landed_year = spec_year_of(serial) + (spec_month_of(serial) + n) / 12;
            let landed_month = (spec_month_of(serial) + n) % 12;
            spec_serial_of(
                landed_year,
                landed_month,
                spec_clamped_day(landed_year, landed_month, spec_day_of(serial)),
            )
        },
    }
}

proof fn lemma_month_offset_leap_diff(index: int)
    requires
        0 <= index <= 12,
    ensures
        spec_month_offset(index, true) - spec_month_offset(index, false) == (if index >= 2 {
            1int
        } else {
            0int
        }),
    decreases index,
{
    if index > 0 {
        lemma_month_offset_leap_diff(index - 1);
    }
}

/// Stepping a date forward by a positive period lands strictly later.
pub proof fn lemma_increment_grows(serial: int, period: Period)
    requires
        0 <= serial <= MAX_SERIAL as int,
        spec_period_positive(period),
        spec_increment_ok(serial, period),
    ensures
        spec_increment_serial(serial, period) > serial,
{
    lemma_year_of_props(serial);
    let year = spec_year_of(serial);
    let leap = spec_is_leap_year(year);
    lemma_month_of_props(spec_doy0_of(serial), leap);
    let month = spec_month_of(serial);
    let day = spec_day_of(serial);
    match period {
        Period::Days(_) => {},
        Period::Years(n) => {
            let landed = year + n;
            lemma_year_offset_bounds(year + 1, landed);
            lemma_month_offset_bounds(0, month, spec_is_leap_year(landed));
        },
        Period::Months(n) => {
            let total = month + n;
            lemma_fundamental_div_mod(total, 12);
            let landed_year = year + total / 12;
            let landed_month = total % 12;
            if total / 12 == 0 {
                assert(landed_month == total);
                lemma_month_offset_bounds(month + 1, landed_month, leap);
                lemma_month_offset_leap_diff(month + 1);
                lemma_month_offset_leap_diff(landed_month as int);
            } else {
                assert(total / 12 >= 1) by {
                    if total / 12 < 0 {
                        vstd::arithmetic::div_mod::lemma_div_pos_is_pos(total, 12);
                    }
                };
                lemma_year_offset_bounds(year + 1, landed_year);
                lemma_month_offset_bounds(0, landed_month, spec_is_leap_year(landed_year));
            }
        },
    }
}

/// A number rendered in decimal and zero-padded to at least two digits.
pub open spec fn spec_padded2(n: int) -> Seq<char> {
    if 0 <= n < 10 {
        "0"@ + spec_decimal(n)
    } else {
        spec_decimal(n)
    }
}

/// A date rendered as `day-month-year`: the day of the month and the
/// one-based month number zero-padded to two digits, then the year.
pub open spec fn spec_date_display(date: Date) -> Seq<char> {
    spec_padded2(date.spec_day()) + "-"@ + spec_padded2(date.spec_month_index() + 1) + "-"@
        + spec_decimal(date.spec_year())
}

/// The day-of-year position (1 January as 1) of the Easter Monday of
/// `year`, per the bundled Western or Orthodox table.
pub open spec fn spec_easter_ordinal(year: int, orthodox: bool) -> int {
    if orthodox {
        spec_orthodox_easter_ordinal(year)
    } else {
        spec_western_easter_ordinal(year)
    }
}

} // verus!
