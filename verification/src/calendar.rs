use vstd::prelude::*;

use crate::basic_calendar::BasicCalendar;
use crate::basic_calendar::spec_basic_holiday;
use crate::date::Date;
use crate::date::MAX_SERIAL;
use crate::united_kingdom::UnitedKingdom;
use crate::united_kingdom::spec_uk_holiday;

verus! {

/// One holiday-rule implementation: it names itself and says, for any
/// date, which holiday falls on it, if any.
pub trait CalendarInterface: Sized {
    /// The name of this calendar.
    spec fn spec_name(&self) -> Seq<char>;

    /// The holiday, if any, on the day with the given serial number.
    spec fn spec_holiday(&self, serial: int) -> Option<Seq<char>>;

    /// The name of this calendar.
    fn name(&self) -> (r: &'static str)
        ensures
            r@ == self.spec_name(),
    ;

    /// The holiday on `date`: `Some(reason)` when the day is a holiday,
    /// `None` when it is not.
    fn get_holiday(&self, date: &Date) -> (r: Option<String>)
        ensures
            r is Some <==> self.spec_holiday(date.spec_serial()) is Some,
            r matches Some(t) ==> self.spec_holiday(date.spec_serial()) == Some(t@),
    ;
}

/// The closed set of holiday calendars.
#[derive(Debug, Clone, Copy, PartialEq, Eq, Structural)]
pub enum Calendar {
    UnitedKingdom,
    Basic,
}

/// The holiday, if any, that `calendar` recognises on the day with the
/// given serial number.
pub open spec fn spec_calendar_holiday(calendar: Calendar, serial: int) -> Option<Seq<char>> {
    match calendar {
        Calendar::UnitedKingdom => spec_uk_holiday(serial),
        Calendar::Basic => spec_basic_holiday(serial),
    }
}

/// A weekend day is a holiday under every calendar variant.
pub proof fn lemma_weekend_is_always_a_holiday(calendar: Calendar, serial: int)
    requires
        crate::date::spec_is_weekend_serial(serial),
    ensures
        spec_calendar_holiday(calendar, serial) is Some,
{
}

/// The serial numbers in `[lo, hi]` whose days `calendar` counts as
/// holidays, in ascending order.
pub open spec fn spec_holiday_serials(calendar: Calendar, lo: int, hi: int) -> Seq<int>
    decreases hi - lo + 1,
{
    if lo > hi {
        Seq::empty()
    } else if spec_calendar_holiday(calendar, lo) is Some {
        seq![lo] + spec_holiday_serials(calendar, lo + 1, hi)
    } else {
        spec_holiday_serials(calendar, lo + 1, hi)
    }
}

/// What the holiday range holds: exactly the serial numbers of `[lo, hi]`
/// whose days the calendar counts as holidays, each of them in strictly
/// ascending order.
pub proof fn lemma_holiday_serials_props(calendar: Calendar, lo: int, hi: int)
    ensures
        forall|x: int| #[trigger]
            spec_holiday_serials(calendar, lo, hi).contains(x) <==> (lo <= x <= hi
                && spec_calendar_holiday(calendar, x) is Some),
        forall|i: int|
            0 <= i < spec_holiday_serials(calendar, lo, hi).len() - 1 ==> #[trigger] spec_holiday_serials(
                calendar,
                lo,
                hi,
            )[i] < spec_holiday_serials(calendar, lo, hi)[i + 1],
    decreases hi - lo + 1,
{
    let s = spec_holiday_serials(calendar, lo, hi);
    if lo <= hi {
        lemma_holiday_serials_props(calendar, lo + 1, hi);
        let rest = spec_holiday_serials(calendar, lo + 1, hi);
        if spec_calendar_holiday(calendar, lo) is Some {
            assert forall|i: int| 1 <= i < s.len() implies s[i] == rest[i - 1] by {}
            assert forall|x: int| #[trigger]
                s.contains(x) implies (lo <= x <= hi && spec_calendar_holiday(
                calendar,
                x,
            ) is Some) by {
                let i = choose|i: int| 0 <= i < s.len() && s[i] == x;
                if i >= 1 {
                    assert(rest.contains(x));
                }
            }
            assert forall|x: int|
                (lo <= x <= hi && spec_calendar_holiday(calendar, x) is Some) implies #[trigger] s.contains(
                x,
            ) by {
                if x == lo {
                    assert(s[0] == lo);
                } else {
                    assert(rest.contains(x));
                    let i = choose|i: int| 0 <= i < rest.len() && rest[i] == x;
                    assert(s[i + 1] == x);
                }
            }
            assert forall|i: int| 0 <= i < s.len() implies lo <= #[trigger] s[i] by {
                if i >= 1 {
                    assert(rest.contains(s[i]));
                }
            }
            assert forall|i: int| 0 <= i < s.len() - 1 implies #[trigger] s[i] < s[i + 1] by {
                if i == 0 {
                    assert(rest.contains(rest[0]));
                    assert(s[1] == rest[0]);
                } else {
                    assert(s[i] == rest[i - 1]);
                    assert(s[i + 1] == rest[i]);
                }
            }
        } else {
            assert forall|x: int| #[trigger]
                s.contains(x) implies (lo <= x <= hi && spec_calendar_holiday(
                calendar,
                x,
            ) is Some) by {
                assert(rest.contains(x));
            }
            assert forall|x: int|
                (lo <= x <= hi && spec_calendar_holiday(calendar, x) is Some) implies #[trigger] s.contains(
                x,
            ) by {
                assert(rest.contains(x));
            }
            assert forall|i: int| 0 <= i < s.len() - 1 implies #[trigger] s[i] < s[i + 1] by {
                assert(s[i] == rest[i]);
                assert(s[i + 1] == rest[i + 1]);
            }
        }
    }
}

/// Splitting the holiday range at its last day: the holidays of
/// `[lo, hi]` are those of `[lo, hi - 1]`, with `hi` appended when it is
/// itself a holiday.
pub proof fn lemma_holiday_serials_snoc(calendar: Calendar, lo: int, hi: int)
    requires
        lo <= hi,
    ensures
        spec_holiday_serials(calendar, lo, hi) == spec_holiday_serials(calendar, lo, hi - 1) + (
        if spec_calendar_holiday(calendar, hi) is Some {
            seq![hi]
        } else {
            Seq::<int>::empty()
        }),
    decreases hi - lo,
{
    reveal_with_fuel(spec_holiday_serials, 3);
    let tail = if spec_calendar_holiday(calendar, hi) is Some {
        seq![hi]
    } else {
        Seq::<int>::empty()
    };
    if lo == hi {
        assert(spec_holiday_serials(calendar, lo, hi - 1) =~= Seq::<int>::empty());
        assert(spec_holiday_serials(calendar, lo, hi) =~= tail);
        assert(spec_holiday_serials(calendar, lo, hi - 1) + tail =~= tail);
    } else {
        lemma_holiday_serials_snoc(calendar, lo + 1, hi);
        if spec_calendar_holiday(calendar, lo) is Some {
            assert(seq![lo] + (spec_holiday_serials(calendar, lo + 1, hi - 1) + tail) =~= (
            seq![lo] + spec_holiday_serials(calendar, lo + 1, hi - 1)) + tail);
        }
    }
}

impl Calendar {
    /// The name of the calendar.
    pub fn name(&self) -> (r: &'static str)
        ensures
            match self {
                Calendar::UnitedKingdom => r@ == "United Kingdom"@,
                Calendar::Basic => r@ == "Basic Calendar"@,
            },
    {
        match self {
            Calendar::UnitedKingdom => (UnitedKingdom).name(),
            Calendar::Basic => (BasicCalendar).name(),
        }
    }

    /// Gets the holiday on `date`: `Some(reason)` when the day is a
    /// holiday, `None` when it is not.
    pub fn get_holiday(&self, date: &Date) -> (r: Option<String>)
        ensures
            r is Some <==> spec_calendar_holiday(*self, date.spec_serial()) is Some,
            r matches Some(t) ==> spec_calendar_holiday(*self, date.spec_serial()) == Some(t@),
    {
        match self {
            Calendar::UnitedKingdom => (UnitedKingdom).get_holiday(date),
            Calendar::Basic => (BasicCalendar).get_holiday(date),
        }
    }

    /// Returns `true` if `date` is a business day, `false` otherwise.
    pub fn is_buisness_day(&self, date: &Date) -> (r: bool)
        ensures
            r == (spec_calendar_holiday(*self, date.spec_serial()) is None),
    {
        let holiday = self.get_holiday(date);
        holiday.is_none()
    }

    /// Constructs a `Vec` of the dates in `[from, to]` (inclusive) that
    /// are holidays, in ascending order.
    pub fn construct_holiday_vec(&self, from: Date, to: Date) -> (r: Vec<Date>)
        ensures
            r@.map_values(|d: Date| d.spec_serial()) == spec_holiday_serials(
                *self,
                from.spec_serial(),
                to.spec_serial(),
            ),
    {
        proof {
            use_type_invariant(&from);
            use_type_invariant(&to);
        }
        let ghost from_serial = from.spec_serial();
        let ghost to_serial = to.spec_serial();
        let mut holiday_dates: Vec<Date> = Vec::new();
        let last = to.to_serial();
        let mut serial = from.to_serial();

        if serial > last {
            return holiday_dates;
        }
        while serial <= last
            invariant
                0 <= from_serial <= serial,
                serial <= last + 1,
                last <= MAX_SERIAL,
                last == to_serial,
                holiday_dates@.map_values(|d: Date| d.spec_serial()) == spec_holiday_serials(
                    *self,
                    from_serial,
                    serial - 1,
                ),
            decreases last + 1 - serial,
        {
            let date = match Date::from_serial(serial) {
                Ok(d) => d,
                Err(_) => unreached(),
            };
            let ghost previous = holiday_dates@.map_values(|d: Date| d.spec_serial());
            proof {
                lemma_holiday_serials_snoc(*self, from_serial, serial as int);
            }
            if self.get_holiday(&date).is_some() {
                holiday_dates.push(date);
                proof {
                    assert(holiday_dates@.map_values(|d: Date| d.spec_serial()) =~= previous
                        + seq![serial as int]);
                    assert(previous + seq![serial as int] =~= spec_holiday_serials(
                        *self,
                        from_serial,
                        serial as int,
                    ));
                }
            } else {
                proof {
                    assert(previous + Seq::<int>::empty() =~= previous);
                }
            }
            serial += 1;
        }
        holiday_dates
    }
}

} // verus!
