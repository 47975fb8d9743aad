//! Calendar dates and the rules that make one valid.

use crate::clock::local_date;
use crate::decimal::{decimal, lemma_decimal, padded, push_padded};
use crate::error::NoteError;
use vstd::prelude::*;

verus! {

/// The first year a valid date may lie in.
pub const MIN_YEAR: u32 = 1;

/// The last year a valid date may lie in.
pub const MAX_YEAR: u32 = 9999;

/// Whether `year` has a 29th of February in the Gregorian calendar.
pub open spec fn is_leap_year(year: int) -> bool {
    year % 4 == 0 && (year % 100 != 0 || year % 400 == 0)
}

/// The number of days of `month` in `year`, for a month from 1 to 12.
pub open spec fn days_in_month(month: int, year: int) -> int {
    if month == 2 {
        if is_leap_year(year) {
            29
        } else {
            28
        }
    } else if month == 4 || month == 6 || month == 9 || month == 11 {
        30
    } else {
        31
    }
}

/// Whether the three numbers name a day of the calendar: a year from
/// `MIN_YEAR` to `MAX_YEAR`, a month from 1 to 12, and a day that this
/// month has in this year.
pub open spec fn valid_date_parts(day: int, month: int, year: int) -> bool {
    &&& MIN_YEAR <= year <= MAX_YEAR
    &&& 1 <= month <= 12
    &&& 1 <= day <= days_in_month(month, year)
}

/// `value` moved into the range from `low` to `high`.
pub open spec fn clamp(value: int, low: int, high: int) -> int {
    if value < low {
        low
    } else if value > high {
        high
    } else {
        value
    }
}

/// A day, a month and a year.
///
/// A `Date` holds three numbers and no more: one that was read from a file
/// is kept as it was stored, valid or not. `valid` says whether the numbers
/// name a day of the calendar.
#[derive(Clone, Copy, Debug, PartialEq, Eq, Structural)]
pub struct Date {
    pub day: u32,
    pub month: u32,
    pub year: u32,
}

/// Whether `year` is a leap year.
pub fn leap_year(year: u32) -> (leap: bool)
    ensures
        leap == is_leap_year(year as int),
{
    year % 4 == 0 && (year % 100 != 0 || year % 400 == 0)
}

/// The number of days of `month` in `year`.
pub fn month_length(month: u32, year: u32) -> (days: u32)
    ensures
        days == days_in_month(month as int, year as int),
        28 <= days <= 31,
{
    if month == 2 {
        if leap_year(year) {
            29
        } else {
            28
        }
    } else if month == 4 || month == 6 || month == 9 || month == 11 {
        30
    } else {
        31
    }
}

impl Date {
    /// Whether this date is a day of the calendar.
    pub open spec fn valid(self) -> bool {
        valid_date_parts(self.day as int, self.month as int, self.year as int)
    }

    /// The valid date closest to the three numbers: the year is moved into
    /// the range of years, then the month into 1 to 12, then the day into
    /// the days of that month.
    pub open spec fn nearest(day: int, month: int, year: int) -> Date {
        let y = clamp(year, MIN_YEAR as int, MAX_YEAR as int);
        let m = clamp(month, 1, 12);
        let d = clamp(day, 1, days_in_month(m, y));
        Date { day: d as u32, month: m as u32, year: y as u32 }
    }

    /// The date that a reading of the clock stands for: the valid date
    /// closest to day, month and year, and the first day of 1970 where
    /// there is no reading.
    pub open spec fn of_reading(reading: Option<(u32, u32, i32)>) -> Date {
        match reading {
            Some((day, month, year)) => Date::nearest(day as int, month as int, year as int),
            None => Date { day: 1, month: 1, year: 1970 },
        }
    }

    /// The date as a reader sees it: day and month in two digits or more,
    /// the year as it is, with hyphens between them.
    pub open spec fn label_text(self) -> Seq<char> {
        padded(self.day as nat, 2) + seq!['-'] + padded(self.month as nat, 2) + seq!['-']
            + decimal(self.year as nat)
    }

    /// Whether this date is a day of the calendar.
    pub fn is_valid(&self) -> (ok: bool)
        ensures
            ok == self.valid(),
    {
        MIN_YEAR <= self.year && self.year <= MAX_YEAR && 1 <= self.month && self.month <= 12
            && 1 <= self.day && self.day <= month_length(self.month, self.year)
    }

    /// The date as a reader sees it.
    pub fn label(&self) -> (text: String)
        ensures
            text@ == self.label_text(),
    {
        let mut text = String::new();
        push_padded(&mut text, self.day, 2);
        text.push('-');
        push_padded(&mut text, self.month, 2);
        text.push('-');
        push_padded(&mut text, self.year, 1);
        proof {
            lemma_decimal(self.year as nat);
            assert(text@ =~= self.label_text());
        }
        text
    }

    /// The date with this day, month and year, if they name a day of the
    /// calendar; `InvalidDate` if they do not.
    pub fn from_parts(day: u32, month: u32, year: u32) -> (made: Result<Date, NoteError>)
        ensures
            valid_date_parts(day as int, month as int, year as int) ==> made == Ok::<
                Date,
                NoteError,
            >(Date { day, month, year }),
            !valid_date_parts(day as int, month as int, year as int) ==> made == Err::<
                Date,
                NoteError,
            >(NoteError::InvalidDate),
    {
        let date = Date { day, month, year };
        if date.is_valid() {
            Ok(date)
        } else {
            Err(NoteError::InvalidDate)
        }
    }

    /// The valid date closest to a reading of a clock. A reading that names
    /// a day of the calendar is kept as it is.
    pub fn nearest_valid(day: u32, month: u32, year: i32) -> (date: Date)
        ensures
            date == Date::nearest(day as int, month as int, year as int),
            date.valid(),
            valid_date_parts(day as int, month as int, year as int) ==> date.day == day
                && date.month == month && date.year == year,
    {
        let y: u32 = if year < 1 {
            MIN_YEAR
        } else if year > 9999 {
            MAX_YEAR
        } else {
            year as u32
        };
        let m: u32 = if month < 1 {
            1
        } else if month > 12 {
            12
        } else {
            month
        };
        let last: u32 = month_length(m, y);
        let d: u32 = if day < 1 {
            1
        } else if day > last {
            last
        } else {
            day
        };
        Date { day: d, month: m, year: y }
    }

    /// The date that a reading of the clock stands for: the valid date
    /// closest to it, and the first day of 1970 where there is no reading.
    pub fn from_reading(reading: Option<(u32, u32, i32)>) -> (date: Date)
        ensures
            date == Date::of_reading(reading),
            date.valid(),
    {
        match reading {
            Some((day, month, year)) => Date::nearest_valid(day, month, year),
            None => Date { day: 1, month: 1, year: 1970 },
        }
    }

    /// Today's date by the clock and the time zone of this machine.
    ///
    /// Whatever the clock says, the date is a day of the calendar: a reading
    /// outside the range of years is moved to its nearest end, and a clock
    /// that stands before 1970, or for which no date is found, gives the
    /// first day of 1970.
    pub fn today() -> (date: Date)
        ensures
            date.valid(),
    {
        Date::from_reading(local_date())
    }
}

impl Default for Date {
    /// Today's date.
    fn default() -> (date: Date)
        ensures
            date.valid(),
    {
        Date::today()
    }
}

} // verus!
