use vstd::prelude::*;

use crate::date::Date;
use crate::date::MAX_SERIAL;
use crate::date::lemma_increment_grows;
use crate::date::spec_increment_ok;
use crate::date::spec_increment_serial;
use crate::error::InvalidDate;
use crate::period::Period;
use crate::period::spec_period_positive;

verus! {

/// Represents a type of interest.
#[derive(Debug, Clone, Copy, PartialEq, Eq, Structural)]
pub enum InterestType {
    /// Simple interest.
    Simple,
    /// Compound interest.
    Compound,
    /// Continuously compounding interest.
    Continuous,
}

/// The serial numbers behind a sequence of dates.
pub open spec fn spec_serials_of(dates: Seq<Date>) -> Seq<int> {
    dates.map_values(|d: Date| d.spec_serial())
}

/// Whether the walk from `current` to `maturity` in steps of `interval`
/// stays within the supported date range: the step taken from the last
/// day at or before `maturity` must land in range too.
pub open spec fn spec_schedule_ok(current: int, maturity: int, interval: Period) -> bool
    decreases (if current > maturity { 0int } else { maturity - current + 1 })
        when 0 <= current && maturity <= MAX_SERIAL as int && spec_period_positive(interval)
        via spec_schedule_ok_decreases
{
    if current > maturity {
        true
    } else if !spec_increment_ok(current, interval) {
        false
    } else {
        spec_schedule_ok(spec_increment_serial(current, interval), maturity, interval)
    }
}

#[via_fn]
proof fn spec_schedule_ok_decreases(current: int, maturity: int, interval: Period) {
    if current <= maturity && spec_increment_ok(current, interval) {
        lemma_increment_grows(current, interval);
    }
}

/// The serial numbers visited when walking from `current` to `maturity`
/// in steps of `interval`: every day at or before `maturity`, starting
/// at `current` itself, in ascending order.
pub open spec fn spec_schedule_serials(current: int, maturity: int, interval: Period) -> Seq<int>
    decreases (if current > maturity { 0int } else { maturity - current + 1 })
        when 0 <= current && maturity <= MAX_SERIAL as int && spec_period_positive(interval)
        via spec_schedule_serials_decreases
{
    if current > maturity {
        Seq::empty()
    } else if !spec_increment_ok(current, interval) {
        seq![current]
    } else {
        seq![current] + spec_schedule_serials(
            spec_increment_serial(current, interval),
            maturity,
            interval,
        )
    }
}

#[via_fn]
proof fn spec_schedule_serials_decreases(current: int, maturity: int, interval: Period) {
    if current <= maturity && spec_increment_ok(current, interval) {
        lemma_increment_grows(current, interval);
    }
}

/// What the schedule walk guarantees of its days: a walk that starts at
/// or before maturity begins with its own first day, every visited day
/// lies between that first day and maturity, and the days strictly
/// ascend.
pub proof fn lemma_schedule_serials_props(current: int, maturity: int, interval: Period)
    requires
        0 <= current,
        maturity <= MAX_SERIAL as int,
        spec_period_positive(interval),
    ensures
        ({
            let s = spec_schedule_serials(current, maturity, interval);
            &&& (current > maturity ==> s.len() == 0)
            &&& (current <= maturity ==> s.len() >= 1 && s[0] == current)
            &&& forall|i: int| 0 <= i < s.len() ==> current <= #[trigger] s[i] <= maturity
            &&& forall|i: int| 0 <= i < s.len() - 1 ==> #[trigger] s[i] < s[i + 1]
        }),
    decreases (if current > maturity {
        0int
    } else {
        maturity - current + 1
    }),
{
    let s = spec_schedule_serials(current, maturity, interval);
    if current <= maturity && spec_increment_ok(current, interval) {
        lemma_increment_grows(current, interval);
        let next = spec_increment_serial(current, interval);
        lemma_schedule_serials_props(next, maturity, interval);
        let rest = spec_schedule_serials(next, maturity, interval);
        assert forall|i: int| 1 <= i < s.len() implies s[i] == rest[i - 1] by {}
    }
}

/// The scheduled coupon dates of a fixed-coupon instrument: one date
/// per step of `interval` from `issued` up to and including `maturity`.
/// An issue date after maturity is rejected, as is a walk whose next
/// step would leave the supported date range.
pub fn coupon_dates(issued: Date, maturity: Date, interval: &Period) -> (r: Result<
    Vec<Date>,
    InvalidDate,
>)
    requires
        spec_period_positive(*interval),
    ensures
        r is Err <==> (issued.spec_serial() > maturity.spec_serial() || !spec_schedule_ok(
            issued.spec_serial(),
            maturity.spec_serial(),
            *interval,
        )),
        r matches Ok(v) ==> spec_serials_of(v@) == spec_schedule_serials(
            issued.spec_serial(),
            maturity.spec_serial(),
            *interval,
        ),
{
    proof {
        use_type_invariant(&issued);
        use_type_invariant(&maturity);
    }
    let ghost issued_serial = issued.spec_serial();
    let ghost maturity_serial = maturity.spec_serial();

    if issued.to_serial() > maturity.to_serial() {
        return Err(InvalidDate);
    }
    let mut dates: Vec<Date> = Vec::new();
    let mut current = issued;

    while current.to_serial() <= maturity.to_serial()
        invariant
            spec_period_positive(*interval),
            issued_serial == issued.spec_serial(),
            0 <= issued_serial,
            0 <= current.spec_serial() <= MAX_SERIAL,
            maturity_serial == maturity.spec_serial() <= MAX_SERIAL,
            spec_schedule_ok(issued_serial, maturity_serial, *interval) == spec_schedule_ok(
                current.spec_serial(),
                maturity_serial,
                *interval,
            ),
            current.spec_serial() <= maturity_serial ==> spec_serials_of(dates@)
                + spec_schedule_serials(current.spec_serial(), maturity_serial, *interval)
                == spec_schedule_serials(issued_serial, maturity_serial, *interval),
            current.spec_serial() > maturity_serial ==> spec_serials_of(dates@)
                == spec_schedule_serials(issued_serial, maturity_serial, *interval),
        decreases
                (if current.spec_serial() > maturity_serial {
                    0int
                } else {
                    maturity_serial + 1 - current.spec_serial()
                }),
    {
        proof {
            use_type_invariant(&current);
        }
        let ghost previous = spec_serials_of(dates@);
        let ghost current_serial = current.spec_serial();
        dates.push(current);
        proof {
            assert(spec_serials_of(dates@) =~= previous + seq![current_serial]);
        }
        match current.increment(interval) {
            Ok(next) => {
                proof {
                    use_type_invariant(&next);
                    lemma_increment_grows(current_serial, *interval);
                    assert((previous + seq![current_serial]) + spec_schedule_serials(
                        next.spec_serial(),
                        maturity_serial,
                        *interval,
                    ) =~= previous + (seq![current_serial] + spec_schedule_serials(
                        next.spec_serial(),
                        maturity_serial,
                        *interval,
                    )));
                    if next.spec_serial() > maturity_serial {
                        assert(spec_schedule_serials(
                            next.spec_serial(),
                            maturity_serial,
                            *interval,
                        ) =~= Seq::<int>::empty());
                        assert((previous + seq![current_serial]) + Seq::<int>::empty() =~= previous
                            + seq![current_serial]);
                    }
                }
                current = next;
            },
            Err(_) => {
                proof {
                    assert(!spec_schedule_ok(current_serial, maturity_serial, *interval));
                }
                return Err(InvalidDate);
            },
        }
    }
    Ok(dates)
}

/// The position of the first entry of `dates` strictly greater than
/// `today`, if any.
pub open spec fn spec_first_index_after(dates: Seq<int>, today: int) -> Option<int>
    decreases dates.len(),
{
    if dates.len() == 0 {
        None
    } else if dates[0] > today {
        Some(0int)
    } else {
        match spec_first_index_after(dates.drop_first(), today) {
            Some(i) => Some(i + 1),
            None => None,
        }
    }
}

/// What the found position means: the entry there is strictly after
/// `today` and every earlier entry is not, and when nothing is found no
/// entry is strictly after `today`.
pub proof fn lemma_first_index_after_props(dates: Seq<int>, today: int)
    ensures
        match spec_first_index_after(dates, today) {
            Some(i) => {
                &&& 0 <= i < dates.len()
                &&& dates[i] > today
                &&& forall|j: int| 0 <= j < i ==> dates[j] <= today
            },
            None => forall|j: int| 0 <= j < dates.len() ==> dates[j] <= today,
        },
    decreases dates.len(),
{
    if dates.len() > 0 && !(dates[0] > today) {
        let rest = dates.drop_first();
        lemma_first_index_after_props(rest, today);
        assert forall|j: int| 1 <= j < dates.len() implies dates[j] == rest[j - 1] by {}
        match spec_first_index_after(rest, today) {
            Some(i) => {
                assert(dates[i + 1] == rest[i]);
                assert forall|j: int| 0 <= j < i + 1 implies dates[j] <= today by {
                    if j >= 1 {
                        assert(dates[j] == rest[j - 1]);
                    }
                }
            },
            None => {
                assert forall|j: int| 0 <= j < dates.len() implies dates[j] <= today by {
                    if j >= 1 {
                        assert(dates[j] == rest[j - 1]);
                    }
                }
            },
        }
    }
}

/// The position of the first cash-flow date strictly after `today`, if
/// any: cash flows at or before `today` do not count as future flows.
pub fn first_flow_after(dates: &Vec<Date>, today: &Date) -> (r: Option<usize>)
    ensures
        match r {
            Some(i) => spec_first_index_after(spec_serials_of(dates@), today.spec_serial())
                == Some(i as int),
            None => spec_first_index_after(spec_serials_of(dates@), today.spec_serial()) is None,
        },
{
    let ghost serials = spec_serials_of(dates@);
    let ghost today_serial = today.spec_serial();
    let mut i: usize = 0;
    while i < dates.len()
        invariant
            0 <= i <= dates.len(),
            serials == spec_serials_of(dates@),
            today_serial == today.spec_serial(),
            forall|j: int| 0 <= j < i ==> serials[j] <= today_serial,
        decreases dates.len() - i,
    {
        if dates[i].to_serial() > today.to_serial() {
            proof {
                lemma_first_index_after_props(serials, today_serial);
                assert(serials[i as int] == dates@[i as int].spec_serial());
                match spec_first_index_after(serials, today_serial) {
                    Some(k) => {
                        if k < i as int {
                            assert(serials[k] <= today_serial);
                        } else if k > i as int {
                            assert(serials[i as int] <= today_serial);
                        }
                    },
                    None => {
                        assert(serials[i as int] <= today_serial);
                    },
                }
            }
            return Some(i);
        }
        proof {
            assert(serials[i as int] == dates@[i as int].spec_serial());
        }
        i += 1;
    }
    proof {
        lemma_first_index_after_props(serials, today_serial);
        match spec_first_index_after(serials, today_serial) {
            Some(k) => {
                assert(serials[k] <= today_serial);
            },
            None => {},
        }
    }
    None
}

/// Locates the cash flow from which interest accrues at `today`: the
/// flow immediately before the first flow strictly after `today`, or
/// nothing when that first future flow is the very first flow. Errors
/// when `today` is past `maturity`, and when no flow at all lies after
/// `today`.
pub fn accrual_flow_index(dates: &Vec<Date>, today: &Date, maturity: &Date) -> (r: Result<
    Option<usize>,
    InvalidDate,
>)
    ensures
        r is Err <==> (today.spec_serial() > maturity.spec_serial() || spec_first_index_after(
            spec_serials_of(dates@),
            today.spec_serial(),
        ) is None),
        match r {
            Err(_) => true,
            Ok(previous) => {
                &&& today.spec_serial() <= maturity.spec_serial()
                &&& match previous {
                    Some(k) => spec_first_index_after(
                        spec_serials_of(dates@),
                        today.spec_serial(),
                    ) == Some(k + 1),
                    None => spec_first_index_after(spec_serials_of(dates@), today.spec_serial())
                        == Some(0int),
                }
            },
        },
{
    if today.to_serial() > maturity.to_serial() {
        return Err(InvalidDate);
    }
    match first_flow_after(dates, today) {
        None => Err(InvalidDate),
        Some(i) => {
            if i > 0 {
                Ok(Some(i - 1))
            } else {
                Ok(None)
            }
        },
    }
}

} // verus!
