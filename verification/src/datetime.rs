//! Civil-calendar model: conversion between an absolute 32-bit
//! seconds-since-epoch counter and a civil date/time with day of week.
//!
//! Day 0 of the epoch is 1970-01-01, a Thursday. The conversion follows the
//! Gregorian leap rule (divisible by 4 and either not by 100 or by 400).

use vstd::prelude::*;

verus! {

/// Gregorian leap-year rule.
pub open spec fn spec_is_leap(year: int) -> bool {
    year % 4 == 0 && (year % 100 != 0 || year % 400 == 0)
}

/// Length in days of a month (1 through 12) of a year with the given leapness.
pub open spec fn spec_days_in_month(leap: bool, month: int) -> int {
    if month == 2 {
        if leap {
            29
        } else {
            28
        }
    } else if month == 4 || month == 6 || month == 9 || month == 11 {
        30
    } else {
        31
    }
}

/// Length in days of the given year.
pub open spec fn spec_days_in_year(year: int) -> int {
    if spec_is_leap(year) {
        366
    } else {
        365
    }
}

/// Days elapsed from 1970-01-01 to January 1st of the given year.
pub open spec fn days_before_year(year: int) -> int
    decreases year,
{
    if year <= 1970 {
        0
    } else {
        days_before_year(year - 1) + spec_days_in_year(year - 1)
    }
}

/// Days elapsed from January 1st to the first day of the given month,
/// within one year of the given leapness.
pub open spec fn days_before_month(leap: bool, month: int) -> int
    decreases month,
{
    if month <= 1 {
        0
    } else {
        days_before_month(leap, month - 1) + spec_days_in_month(leap, month - 1)
    }
}

pub fn is_leap(year: u16) -> (r: bool)
    ensures
        r == spec_is_leap(year as int),
{
    if year % 4 != 0 {
        false
    } else if year % 100 != 0 {
        true
    } else {
        year % 400 == 0
    }
}

pub fn days_in_month(is_leap_year: bool, month: u8) -> (n: u8)
    requires
        1 <= month <= 12,
    ensures
        n == spec_days_in_month(is_leap_year, month as int),
{
    if month == 2 {
        if is_leap_year {
            29
        } else {
            28
        }
    } else if month == 4 || month == 6 || month == 9 || month == 11 {
        30
    } else {
        31
    }
}

#[derive(Debug, Copy, Clone, PartialEq, Eq, Hash, Structural)]
pub enum DayOfWeek {
    Monday,
    Tuesday,
    Wednesday,
    Thursday,
    Friday,
    Saturday,
    Sunday,
}

/// Position of a day in the Monday-first week, 0 through 6.
pub open spec fn dow_index(d: DayOfWeek) -> int {
    match d {
        DayOfWeek::Monday => 0,
        DayOfWeek::Tuesday => 1,
        DayOfWeek::Wednesday => 2,
        DayOfWeek::Thursday => 3,
        DayOfWeek::Friday => 4,
        DayOfWeek::Saturday => 5,
        DayOfWeek::Sunday => 6,
    }
}

/// Day of week of a day counted from the epoch (day 0 is a Thursday).
pub open spec fn dow_of_days(days: int) -> DayOfWeek {
    if days % 7 == 4 {
        DayOfWeek::Monday
    } else if days % 7 == 5 {
        DayOfWeek::Tuesday
    } else if days % 7 == 6 {
        DayOfWeek::Wednesday
    } else if days % 7 == 0 {
        DayOfWeek::Thursday
    } else if days % 7 == 1 {
        DayOfWeek::Friday
    } else if days % 7 == 2 {
        DayOfWeek::Saturday
    } else {
        DayOfWeek::Sunday
    }
}

/// Cyclic successor in the Monday-first week.
pub open spec fn spec_next_dow(d: DayOfWeek) -> DayOfWeek {
    match d {
        DayOfWeek::Monday => DayOfWeek::Tuesday,
        DayOfWeek::Tuesday => DayOfWeek::Wednesday,
        DayOfWeek::Wednesday => DayOfWeek::Thursday,
        DayOfWeek::Thursday => DayOfWeek::Friday,
        DayOfWeek::Friday => DayOfWeek::Saturday,
        DayOfWeek::Saturday => DayOfWeek::Sunday,
        DayOfWeek::Sunday => DayOfWeek::Monday,
    }
}

impl DayOfWeek {
    pub fn from_days_since_epoch(days: u32) -> (d: DayOfWeek)
        ensures
            d == dow_of_days(days as int),
    {
        match days % 7 {
            4 => DayOfWeek::Monday,
            5 => DayOfWeek::Tuesday,
            6 => DayOfWeek::Wednesday,
            0 => DayOfWeek::Thursday,
            1 => DayOfWeek::Friday,
            2 => DayOfWeek::Saturday,
            _ => DayOfWeek::Sunday,
        }
    }

    pub fn next(self) -> (d: DayOfWeek)
        ensures
            d == spec_next_dow(self),
            dow_index(d) == (dow_index(self) + 1) % 7,
    {
        match self {
            DayOfWeek::Monday => DayOfWeek::Tuesday,
            DayOfWeek::Tuesday => DayOfWeek::Wednesday,
            DayOfWeek::Wednesday => DayOfWeek::Thursday,
            DayOfWeek::Thursday => DayOfWeek::Friday,
            DayOfWeek::Friday => DayOfWeek::Saturday,
            DayOfWeek::Saturday => DayOfWeek::Sunday,
            DayOfWeek::Sunday => DayOfWeek::Monday,
        }
    }
}

/// The day count from 1970 to January 1st of a year grows between 365 and
/// 366 days per elapsed year.
pub proof fn lemma_days_before_year_bounds(year: int)
    requires
        1970 <= year,
    ensures
        365 * (year - 1970) <= days_before_year(year) <= 366 * (year - 1970),
    decreases year,
{
    if year > 1970 {
        lemma_days_before_year_bounds(year - 1);
    }
}

/// The twelve months of a year sum to the length of that year.
pub proof fn lemma_days_in_months_total(leap: bool)
    ensures
        days_before_month(leap, 13) == if leap { 366int } else { 365int },
{
    reveal_with_fuel(days_before_month, 13);
}

/// No month exceeds 31 days.
pub proof fn lemma_days_before_month_bound(leap: bool, month: int)
    requires
        1 <= month <= 13,
    ensures
        days_before_month(leap, month) <= 31 * (month - 1),
    decreases month,
{
    if month > 1 {
        lemma_days_before_month_bound(leap, month - 1);
    }
}

/// Round trip of the conversions: every well-formed date/time whose
/// second count fits the 32-bit counter lies in `to_epoch`'s domain, so
/// `to_epoch` recovers exactly the counter value `new` decomposed.
pub proof fn lemma_epoch_round_trip(dt: DateTime)
    requires
        dt.wf(),
        dt.spec_epoch() <= u32::MAX,
    ensures
        dt.in_epoch_domain(),
{
}

#[derive(Debug, Copy, Clone, PartialEq, Eq, Hash, Structural)]
pub struct DateTime {
    pub year: u16,
    pub month: u8,
    pub day: u8,
    pub hour: u8,
    pub min: u8,
    pub sec: u8,
    pub day_of_week: DayOfWeek,
}

impl DateTime {
    /// The absolute second this date/time denotes, counted from
    /// 1970-01-01 00:00:00, as an unbounded integer.
    pub open spec fn spec_epoch(self) -> int {
        86400 * (days_before_year(self.year as int) + days_before_month(
            spec_is_leap(self.year as int),
            self.month as int,
        ) + self.day - 1) + 3600 * self.hour + 60 * self.min + self.sec
    }

    /// Field ranges that every date/time produced or edited by this library
    /// satisfies. The day is only bounded by 31, not by the month's true
    /// length, because the clock editor steps it freely through 1..=31.
    pub open spec fn wf(self) -> bool {
        &&& 1970 <= self.year <= 2106
        &&& 1 <= self.month <= 12
        &&& 1 <= self.day <= 31
        &&& self.hour < 24
        &&& self.min < 60
        &&& self.sec < 60
    }

    /// The inputs on which `to_epoch` succeeds: fields that denote a second
    /// within the 32-bit counter's range.
    pub open spec fn in_epoch_domain(self) -> bool {
        &&& 1970 <= self.year
        &&& 1 <= self.month <= 12
        &&& 1 <= self.day
        &&& self.spec_epoch() <= u32::MAX
    }

    /// Decompose an absolute second count into civil year, month, day,
    /// time of day and day of week. Total over the whole `u32` range.
    pub fn new(epoch: u32) -> (dt: DateTime)
        ensures
            dt.wf(),
            dt.day as int <= spec_days_in_month(spec_is_leap(dt.year as int), dt.month as int),
            dt.spec_epoch() == epoch as int,
            dt.day_of_week == dow_of_days(epoch as int / 86400),
    {
        let total_days: u32 = epoch / 86400;
        let time: u32 = epoch % 86400;
        proof {
            vstd::arithmetic::div_mod::lemma_fundamental_div_mod(epoch as int, 86400);
            assert(total_days < 49711) by (nonlinear_arith)
                requires
                    total_days == epoch as int / 86400,
                    epoch <= u32::MAX,
            ;
        }
        let day_of_week = DayOfWeek::from_days_since_epoch(total_days);
        let mut days: u32 = total_days;
        let mut year: u16 = 1970;
        let mut is_leap_year: bool = is_leap(year);
        loop
            invariant
                1970 <= year,
                days_before_year(year as int) <= total_days as int,
                days == total_days as int - days_before_year(year as int),
                total_days < 49711,
            ensures
                1970 <= year <= 2106,
                days == total_days as int - days_before_year(year as int),
                days < spec_days_in_year(year as int),
                is_leap_year == spec_is_leap(year as int),
            decreases days,
        {
            is_leap_year = is_leap(year);
            proof {
                lemma_days_before_year_bounds(year as int);
            }
            if is_leap_year && days >= 366 {
                year = year + 1;
                days = days - 366;
            } else if !is_leap_year && days >= 365 {
                year = year + 1;
                days = days - 365;
            } else {
                break ;
            }
        }
        let ghost rem0: int = days as int;
        let mut month: u8 = 1;
        while days >= days_in_month(is_leap_year, month) as u32
            invariant
                1 <= month <= 12,
                is_leap_year == spec_is_leap(year as int),
                rem0 < spec_days_in_year(year as int),
                days_before_month(is_leap_year, month as int) <= rem0,
                days == rem0 - days_before_month(is_leap_year, month as int),
            decreases 12 - month,
        {
            proof {
                lemma_days_in_months_total(is_leap_year);
                lemma_days_before_month_bound(is_leap_year, month as int);
            }
            assert(month < 12);
            let dim: u8 = days_in_month(is_leap_year, month);
            days = days - dim as u32;
            month = month + 1;
        }
        proof {
            assert(60 * 60 == 3600);
            vstd::arithmetic::div_mod::lemma_mod_breakdown(time as int, 60, 60);
            vstd::arithmetic::div_mod::lemma_fundamental_div_mod(time as int, 3600);
            assert(time as int / 3600 < 24) by (nonlinear_arith)
                requires
                    time < 86400,
            ;
        }
        DateTime {
            year,
            month,
            day: days as u8 + 1,
            hour: (time / 3600) as u8,
            min: (time / 60 % 60) as u8,
            sec: (time % 60) as u8,
            day_of_week,
        }
    }

    /// Recompose the absolute second count. Succeeds exactly when the year
    /// is 1970 or later, the month lies in 1..=12, the day is nonzero, and
    /// the denoted second fits the 32-bit counter; otherwise yields `None`
    /// rather than wrapping.
    pub fn to_epoch(&self) -> (r: Option<u32>)
        ensures
            self.in_epoch_domain() <==> r is Some,
            r matches Some(e) ==> e as int == self.spec_epoch(),
    {
        if self.year < 1970 || self.month == 0 || self.month > 12 || self.day == 0 {
            return None;
        }
        let mut days: u32 = self.day as u32 - 1;
        let mut y: u16 = 1970;
        while y < self.year
            invariant
                1970 <= y <= self.year,
                days == self.day - 1 + days_before_year(y as int),
            decreases self.year as int - y as int,
        {
            proof {
                lemma_days_before_year_bounds(y as int);
            }
            if is_leap(y) {
                days = days + 366;
            } else {
                days = days + 365;
            }
            y = y + 1;
        }
        proof {
            lemma_days_before_year_bounds(self.year as int);
        }
        let leap: bool = is_leap(self.year);
        let mut m: u8 = 1;
        while m < self.month
            invariant
                1 <= m <= self.month,
                self.month <= 12,
                1 <= self.day,
                leap == spec_is_leap(self.year as int),
                days_before_year(self.year as int) <= 366 * (self.year - 1970),
                days == self.day - 1 + days_before_year(self.year as int) + days_before_month(
                    leap,
                    m as int,
                ),
            decreases self.month as int - m as int,
        {
            proof {
                lemma_days_before_month_bound(leap, m as int);
            }
            days = days + days_in_month(leap, m) as u32;
            m = m + 1;
        }
        let time: u32 = self.hour as u32 * 3600 + self.min as u32 * 60 + self.sec as u32;
        match days.checked_mul(86400) {
            None => {
                proof {
                    assert(86400 * days as int > u32::MAX) by (nonlinear_arith)
                        requires
                            days as int * 86400 > u32::MAX,
                    ;
                }
                None
            },
            Some(d) => match d.checked_add(time) {
                None => None,
                Some(e) => Some(e),
            },
        }
    }
}

} // verus!
