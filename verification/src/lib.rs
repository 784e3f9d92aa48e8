//! A fixed-income date and calendar toolkit: a serial-number-backed civil
//! date type with leap-year rules and movable feasts, business-day holiday
//! calendars, day-count conventions, and the cash-flow schedule logic that
//! bond pricing builds on.

pub mod basic_calendar;
pub mod calendar;
pub mod cashflows;
pub mod convention;
pub mod date;
pub mod easter;
pub mod period;
pub mod error;
pub mod month;
pub mod united_kingdom;

pub use basic_calendar::BasicCalendar;
pub use calendar::Calendar;
pub use calendar::CalendarInterface;
pub use cashflows::InterestType;
pub use convention::DateAdjustment;
pub use convention::DayCountConvention;
pub use convention::YearFraction;
pub use date::Date;
pub use error::ArgumentRange;
pub use error::ConditionalArgumentRange;
pub use error::DifferentVariant;
pub use error::InvalidDate;
pub use error::LibraError;
pub use month::Month;
pub use period::Period;
pub use month::Weekday;
pub use united_kingdom::UnitedKingdom;
