use crate::rng::random_in_range;
use vstd::prelude::*;

verus! {

/// A calendar birthday: a (month, day) pair. No year is retained; only the
/// calendar-day identity matters for collision purposes.
#[derive(Clone, Copy, Debug, PartialEq, Eq, Structural)]
pub struct Date {
    pub month: u8,
    pub day: u8,
}

/// The number of days in the given month, with February depending on the
/// leap-year flag.
pub open spec fn days_in_month(month: int, leap_year: bool) -> int {
    if month == 2 {
        if leap_year {
            29
        } else {
            28
        }
    } else if month == 4 || month == 6 || month == 9 || month == 11 {
        30
    } else {
        31
    }
}

impl Date {
    /// The date denotes a real calendar day under the given leap-year flag.
    pub open spec fn valid_for(self, leap_year: bool) -> bool {
        &&& 1 <= self.month <= 12
        &&& 1 <= self.day <= days_in_month(self.month as int, leap_year)
    }
}

/// The number of days in the widest (leap) calendar strictly before the
/// given month: the running sum of `days_in_month` with a leap February.
pub open spec fn month_offset(month: int) -> int {
    if month == 1 {
        0
    } else if month == 2 {
        31
    } else if month == 3 {
        60
    } else if month == 4 {
        91
    } else if month == 5 {
        121
    } else if month == 6 {
        152
    } else if month == 7 {
        182
    } else if month == 8 {
        213
    } else if month == 9 {
        244
    } else if month == 10 {
        274
    } else if month == 11 {
        305
    } else {
        335
    }
}

impl Date {
    /// Position of the date in the 366-day leap calendar, counted from 1.
    pub open spec fn day_of_year(self) -> int {
        month_offset(self.month as int) + self.day
    }
}

/// Every valid date sits somewhere in the 366-day leap calendar.
pub proof fn lemma_day_of_year_range(d: Date)
    requires
        d.valid_for(true),
    ensures
        1 <= d.day_of_year() <= 366,
{
}

/// Distinct valid dates sit at distinct calendar positions: `day_of_year`
/// is injective on valid dates, so there are only 366 of them in all.
pub proof fn lemma_day_of_year_injective(a: Date, b: Date)
    requires
        a.valid_for(true),
        b.valid_for(true),
        a.day_of_year() == b.day_of_year(),
    ensures
        a == b,
{
}

/// The standard Gregorian leap-year rule: divisible by 4, and either not
/// divisible by 100 or divisible by 400.
pub open spec fn spec_is_leap_year(year: int) -> bool {
    year % 4 == 0 && (year % 100 != 0 || year % 400 == 0)
}

/// Decides whether a year has a February 29, by the Gregorian rule.
pub fn is_leap_year(year: u32) -> (r: bool)
    ensures
        r == spec_is_leap_year(year as int),
{
    year % 4 == 0 && (year % 100 != 0 || year % 400 == 0)
}

/// Generates one uniformly random birthday: a month drawn from 1..=12, then a
/// day drawn from the valid range for that month under the given leap-year
/// flag.
pub fn generate_birthday(leap_year: bool) -> (d: Date)
    ensures
        d.valid_for(leap_year),
{
    let month = random_in_range(1, 12);
    let last_day: u32 = if month == 2 {
        if leap_year {
            29
        } else {
            28
        }
    } else if month == 4 || month == 6 || month == 9 || month == 11 {
        30
    } else {
        31
    };
    let day = random_in_range(1, last_day);
    Date { month: month as u8, day: day as u8 }
}

} // verus!
