use vstd::prelude::*;

verus! {

/// Day number of -262143-01-01, the earliest date of the proleptic Gregorian
/// calendar that chrono represents (day 1 is 0001-01-01).
pub const FIRST_DAY: i32 = -95_746_129;

/// Day number of +262142-12-31, the latest date that chrono represents.
pub const LAST_DAY: i32 = 95_745_399;

pub open spec fn is_calendar_day(day: int) -> bool {
    FIRST_DAY <= day <= LAST_DAY
}

/// A calendar date, held as its day number counted from 0001-01-01 (day 1).
#[derive(Debug, Clone, Copy, PartialEq, Eq, Structural)]
pub struct Date {
    day: i32,
}

impl View for Date {
    type V = int;

    closed spec fn view(&self) -> int {
        self.day as int
    }
}

/// A span of whole days. It is never negative, so a date only ever moves forward by one.
#[derive(Debug, Clone, Copy, PartialEq, Eq, Structural)]
pub struct Duration {
    days: u32,
}

impl View for Duration {
    type V = nat;

    closed spec fn view(&self) -> nat {
        self.days as nat
    }
}

impl Duration {
    pub fn days(days: u32) -> (r: Duration)
        ensures
            r@ == days,
    {
        Duration { days }
    }

    pub fn num_days(&self) -> (r: u32)
        ensures
            r == self@,
    {
        self.days
    }
}

impl Date {
    #[verifier::type_invariant]
    spec fn in_calendar(&self) -> bool {
        is_calendar_day(self.day as int)
    }

    /// The date with day number `day`, if the calendar holds it.
    pub fn from_days_from_ce(day: i32) -> (r: Option<Date>)
        ensures
            r is Some <==> is_calendar_day(day as int),
            r is Some ==> r->Some_0@ == day,
    {
        if FIRST_DAY <= day && day <= LAST_DAY {
            Some(Date { day })
        } else {
            None
        }
    }

    pub fn days_from_ce(&self) -> (r: i32)
        ensures
            r == self@,
            is_calendar_day(r as int),
    {
        proof {
            use_type_invariant(self);
        }
        self.day
    }

    /// The date `by` later, or `None` where that passes the last calendar date.
    pub fn checked_add(&self, by: Duration) -> (r: Option<Date>)
        ensures
            r is Some <==> self@ + by@ <= LAST_DAY,
            r is Some ==> r->Some_0@ == self@ + by@,
    {
        proof {
            use_type_invariant(self);
        }
        if by.days <= (LAST_DAY - self.day) as u32 {
            Some(Date { day: self.day + by.days as i32 })
        } else {
            None
        }
    }

    /// The local calendar date at the time of the call.
    pub fn today() -> (r: Date)
        ensures
            is_calendar_day(r@),
    {
        Date { day: local_day_from_ce() }
    }
}

/// Relies on chrono's `Local::now`, `DateTime::date_naive` and `Datelike::num_days_from_ce`:
/// the day number of today's local date. Every `NaiveDate` lies between `NaiveDate::MIN`
/// and `NaiveDate::MAX`, whose day numbers are `FIRST_DAY` and `LAST_DAY`.
#[verifier::external_body]
fn local_day_from_ce() -> (r: i32)
    ensures
        is_calendar_day(r as int),
{
    let today = chrono::Local::now().date_naive();
    <chrono::NaiveDate as chrono::Datelike>::num_days_from_ce(&today)
}

} // verus!
