//! Calendar dates and months, as search filters use them.
use vstd::prelude::*;
use crate::text::{decimal, zero_pad, zero_padded};

verus! {

/// Earliest year of the supported calendar range.
pub const MIN_DATE_YEAR: i32 = -262143;

/// Latest year of the supported calendar range.
pub const MAX_DATE_YEAR: i32 = 262142;

/// Leap years of the proleptic Gregorian calendar.
pub open spec fn is_leap_year(y: int) -> bool {
    (y % 4 == 0 && y % 100 != 0) || y % 400 == 0
}

/// Number of days of month `m` (1 to 12) of year `y`.
pub open spec fn days_in_month(y: int, m: int) -> int {
    if m == 2 {
        if is_leap_year(y) {
            29
        } else {
            28
        }
    } else if m == 4 || m == 6 || m == 9 || m == 11 {
        30
    } else {
        31
    }
}

/// The day exists in the proleptic Gregorian calendar, within the supported
/// range of years.
pub open spec fn calendar_date_exists(y: int, m: int, d: int) -> bool {
    &&& MIN_DATE_YEAR <= y <= MAX_DATE_YEAR
    &&& 1 <= m <= 12
    &&& 1 <= d <= days_in_month(y, m)
}

/// Relies on chrono's `NaiveDate::from_ymd_opt`, which is `None` exactly when
/// the month or the day is invalid, the day does not exist in that month, or
/// the year lies outside -262143 to 262142.
#[verifier::external_body]
fn ymd_exists(year: i32, month: u32, day: u32) -> (r: bool)
    ensures
        r == calendar_date_exists(year as int, month as int, day as int),
{
    chrono::NaiveDate::from_ymd_opt(year, month, day).is_some()
}

/// A day, or a whole month when `day` is `None`.
#[derive(Debug, Clone, Copy, PartialEq, Eq, Structural)]
pub struct Date {
    pub year: i32,
    pub month: u32,
    pub day: Option<u32>,
}

/// How a date reads in a query: `YYYY-MM-DD`, or `YYYY-MM` for a month, the
/// year with at least four digits.
pub open spec fn date_text(d: Date) -> Seq<char> {
    let year = if d.year < 0 {
        "-"@ + zero_pad(decimal((-d.year) as nat), 4)
    } else {
        zero_pad(decimal(d.year as nat), 4)
    };
    let month = year + "-"@ + zero_pad(decimal(d.month as nat), 2);
    match d.day {
        Some(day) => month + "-"@ + zero_pad(decimal(day as nat), 2),
        None => month,
    }
}

impl Date {
    /// The date exists (for a month: its first day exists).
    pub open spec fn spec_is_valid(self) -> bool {
        calendar_date_exists(
            self.year as int,
            self.month as int,
            match self.day {
                Some(d) => d as int,
                None => 1,
            },
        )
    }

    /// A day.
    pub fn ymd(year: i32, month: u32, day: u32) -> (r: Date)
        ensures
            r == (Date { year, month, day: Some(day) }),
    {
        Date { year, month, day: Some(day) }
    }

    /// A whole month.
    pub fn ym(year: i32, month: u32) -> (r: Date)
        ensures
            r == (Date { year, month, day: None }),
    {
        Date { year, month, day: None }
    }

    /// Whether the date exists.
    pub fn is_valid(&self) -> (r: bool)
        ensures
            r == self.spec_is_valid(),
    {
        let day = match self.day {
            Some(d) => d,
            None => 1,
        };
        ymd_exists(self.year, self.month, day)
    }

    /// The date as a query writes it.
    pub fn to_query_text(&self) -> (r: String)
        ensures
            r@ == date_text(*self),
    {
        let mut s = if self.year < 0 {
            let mut y = String::from_str("-");
            let digits = zero_padded((-(self.year as i64)) as u64, 4);
            y.append(digits.as_str());
            y
        } else {
            zero_padded(self.year as u64, 4)
        };
        proof {
            reveal_strlit("-");
        }
        s.append("-");
        let m = zero_padded(self.month as u64, 2);
        s.append(m.as_str());
        match self.day {
            Some(d) => {
                s.append("-");
                let dd = zero_padded(d as u64, 2);
                s.append(dd.as_str());
            },
            None => {},
        }
        s
    }
}

} // verus!
