use vstd::prelude::*;

use crate::date::Date;
use crate::date::lemma_serial_order;
use crate::date::spec_days_in_year;
use crate::error::InvalidDate;

verus! {

/// A day count convention.
#[derive(Debug, Clone, Copy, PartialEq, Eq, Structural)]
pub enum DayCountConvention {
    Actual360,
    Actual365Fixed,
    ActualActual,
    Thirty360,
}

/// A year fraction as an exact ratio: the day count mandated by a
/// convention over that convention's divisor. The fractional value is
/// `numerator / denominator`.
#[derive(Debug, Clone, Copy, PartialEq, Eq, Structural)]
pub struct YearFraction {
    /// The convention's day count between the two dates.
    pub numerator: i64,
    /// The convention's divisor: days per year.
    pub denominator: u64,
}

/// The 30/360 day count (ISDA 2006, section 4.16(f)): both dates'
/// day-of-month values are normalised from 31 to 30 — the end date's
/// only when the start date's is 30 or 31 — and every month counts as
/// 30 days.
pub open spec fn spec_thirty360_days(
    y1: int,
    m1: int,
    d1: int,
    y2: int,
    m2: int,
    d2: int,
) -> int {
    let d2n = if d2 == 31 && (d1 == 30 || d1 == 31) {
        30int
    } else {
        d2
    };
    let d1n = if d1 == 31 {
        30int
    } else {
        d1
    };
    360 * (y2 - y1) + 30 * (m2 - m1) + (d2n - d1n)
}

/// The day count `convention` puts between `from` and `to`: the raw
/// serial difference for the actual-day conventions, and the normalised
/// 30-day-month count for 30/360.
pub open spec fn spec_year_frac_numerator(
    convention: DayCountConvention,
    from: Date,
    to: Date,
) -> int {
    match convention {
        DayCountConvention::Thirty360 => spec_thirty360_days(
            from.spec_year(),
            from.spec_month_index(),
            from.spec_day(),
            to.spec_year(),
            to.spec_month_index(),
            to.spec_day(),
        ),
        _ => to.spec_serial() - from.spec_serial(),
    }
}

/// The divisor `convention` measures a year with: 360 or 365 days, or,
/// for Actual/Actual, the actual length of `from`'s civil year. The
/// single-year divisor is only exact for spans within one year; the
/// full ISDA Actual/Actual rule for longer spans is a known limitation.
pub open spec fn spec_year_frac_denominator(convention: DayCountConvention, from: Date) -> int {
    match convention {
        DayCountConvention::Actual360 => 360,
        DayCountConvention::Actual365Fixed => 365,
        DayCountConvention::ActualActual => spec_days_in_year(from.spec_year()),
        DayCountConvention::Thirty360 => 360,
    }
}

/// A zero-width span accrues nothing: under every convention, the year
/// fraction from a date to itself has day count zero.
pub proof fn lemma_zero_width_accrues_nothing(convention: DayCountConvention, date: Date)
    ensures
        spec_year_frac_numerator(convention, date, date) == 0,
{
}

impl DayCountConvention {
    /// Returns the year fraction between `from` and `to` under this
    /// convention, as an exact ratio; the ordering error is signalled
    /// exactly when `from` comes after `to`.
    pub fn year_frac(&self, from: &Date, to: &Date) -> (r: Result<YearFraction, InvalidDate>)
        ensures
            r is Err <==> from.spec_serial() > to.spec_serial(),
            r matches Ok(f) ==> {
                &&& f.numerator == spec_year_frac_numerator(*self, *from, *to)
                &&& f.denominator == spec_year_frac_denominator(*self, *from)
                &&& f.numerator >= 0
                &&& f.denominator >= 360
            },
    {
        proof {
            use_type_invariant(from);
            use_type_invariant(to);
        }
        if from.to_serial() > to.to_serial() {
            return Err(InvalidDate);
        }
        match self {
            DayCountConvention::Actual360 => {
                let days = to.to_serial() - from.to_serial();
                Ok(YearFraction { numerator: days as i64, denominator: 360 })
            },
            DayCountConvention::Actual365Fixed => {
                let days = to.to_serial() - from.to_serial();
                Ok(YearFraction { numerator: days as i64, denominator: 365 })
            },
            DayCountConvention::ActualActual => {
                let days = to.to_serial() - from.to_serial();
                let year_days: u64 = if from.is_leap() {
                    366
                } else {
                    365
                };
                Ok(YearFraction { numerator: days as i64, denominator: year_days })
            },
            DayCountConvention::Thirty360 => {
                // 30/360 US algorithm from ISDA 2006 Section 4.16(f)
                let mut d1 = from.day() as i64;
                let m1 = from.month().index() as i64;
                let y1 = from.year() as i64;

                let mut d2 = to.day() as i64;
                let m2 = to.month().index() as i64;
                let y2 = to.year() as i64;

                if d2 == 31 && (d1 == 30 || d1 == 31) {
                    d2 = 30;
                }
                if d1 == 31 {
                    d1 = 30;
                }
                proof {
                    lemma_serial_order(from.spec_serial(), to.spec_serial());
                }
                let total_days_360 = (y2 - y1) * 360 + (m2 - m1) * 30 + (d2 - d1);
                Ok(YearFraction { numerator: total_days_360, denominator: 360 })
            },
        }
    }

    /// The conventional rendering of this convention's name.
    pub fn name(&self) -> (r: &'static str)
        ensures
            match self {
                DayCountConvention::Actual360 => r@ == "Actual / 360"@,
                DayCountConvention::Actual365Fixed => r@ == "Actual / 365F"@,
                DayCountConvention::ActualActual => r@ == "Actual / Actual"@,
                DayCountConvention::Thirty360 => r@ == "30 / 360"@,
            },
    {
        match self {
            DayCountConvention::Actual360 => "Actual / 360",
            DayCountConvention::Actual365Fixed => "Actual / 365F",
            DayCountConvention::ActualActual => "Actual / Actual",
            DayCountConvention::Thirty360 => "30 / 360",
        }
    }
}

/// A business-day adjustment policy. It is part of a bond's declared
/// configuration, and reserved: the pricing path never moves a
/// scheduled date by it.
#[derive(Debug, Clone, Copy, PartialEq, Eq, Structural)]
pub enum DateAdjustment {
    Following,
    Preceding,
    ModifiedFollowing,
    ModifiedPreceding,
}

impl DateAdjustment {
    /// The conventional rendering of this policy's name.
    pub fn name(&self) -> (r: &'static str)
        ensures
            match self {
                DateAdjustment::Following => r@ == "Following"@,
                DateAdjustment::Preceding => r@ == "Preceding"@,
                DateAdjustment::ModifiedFollowing => r@ == "Modified Following"@,
                DateAdjustment::ModifiedPreceding => r@ == "Modified Preceding"@,
            },
    {
        match self {
            DateAdjustment::Following => "Following",
            DateAdjustment::Preceding => "Preceding",
            DateAdjustment::ModifiedFollowing => "Modified Following",
            DateAdjustment::ModifiedPreceding => "Modified Preceding",
        }
    }
}

} // verus!
