use vstd::prelude::*;

verus! {

/// Whether `period` moves a date at all: its amount is not zero.
pub open spec fn spec_period_positive(period: Period) -> bool {
    match period {
        Period::Years(n) => n > 0,
        Period::Months(n) => n > 0,
        Period::Days(n) => n > 0,
    }
}

/// A calendar offset: a whole number of years, months or days. It
/// carries no sign of its own; a date moves by it through `increment`
/// or `decrement`.
#[derive(Debug, Clone, Copy, PartialEq, Eq, Structural)]
pub enum Period {
    Years(u16),
    Months(u16),
    Days(u32),
}

impl Period {
    /// The number of whole days this period spans. Only a period given
    /// in days spans a fixed number of them: how long a month or a year
    /// is depends on where it starts.
    pub fn whole_days(&self) -> (r: u32)
        requires
            self is Days,
        ensures
            *self == Period::Days(r),
    {
        match self {
            Period::Days(d) => *d,
            _ => 0,
        }
    }
}

} // verus!
