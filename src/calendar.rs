//! Calendar dates as day numbers.
//!
//! A `Date` is the number of days since the start of the common era in the
//! proleptic Gregorian calendar, counted so that 0001-01-01 is day 1 (a
//! Monday). All calendar arithmetic used by the engine (stepping by days,
//! weekdays, Monday-aligned weeks) is plain integer arithmetic on that number.

use vstd::prelude::*;

verus! {

/// Days from 0001-01-01 (day 1) to 1970-01-01.
pub const UNIX_EPOCH_DAY: i64 = 719163;

/// Seconds in a day.
pub const SECONDS_PER_DAY: i64 = 86400;

/// A calendar date, as its day number.
#[derive(Clone, Copy, Debug, PartialEq, Eq, Structural, Hash, PartialOrd, Ord)]
pub struct Date {
    pub day: i32,
}

/// A point in time, in whole seconds since 1970-01-01T00:00:00 UTC.
#[derive(Clone, Copy, Debug, PartialEq, Eq, Structural, Hash)]
pub struct Timestamp {
    pub unix_seconds: i64,
}

/// Day of the week.
#[derive(Clone, Copy, Debug, PartialEq, Eq, Structural, Hash)]
pub enum Weekday {
    Mon,
    Tue,
    Wed,
    Thu,
    Fri,
    Sat,
    Sun,
}

/// Days since the Monday of the week of day number `d` (0 for Monday).
pub open spec fn weekday_index(d: int) -> int {
    (d - 1) % 7
}

/// The weekday numbered `i` from Monday (0) to Sunday (6).
pub open spec fn weekday_of_index(i: int) -> Weekday {
    if i == 0 {
        Weekday::Mon
    } else if i == 1 {
        Weekday::Tue
    } else if i == 2 {
        Weekday::Wed
    } else if i == 3 {
        Weekday::Thu
    } else if i == 4 {
        Weekday::Fri
    } else if i == 5 {
        Weekday::Sat
    } else {
        Weekday::Sun
    }
}

/// The weekday of day number `d`.
pub open spec fn weekday_of(d: int) -> Weekday {
    weekday_of_index(weekday_index(d))
}

/// Saturday or Sunday.
pub open spec fn is_weekend(w: Weekday) -> bool {
    w == Weekday::Sat || w == Weekday::Sun
}

/// The Monday that starts the week of day number `d`.
pub open spec fn monday_of(d: int) -> int {
    d - weekday_index(d)
}

impl Weekday {
    /// Days since Monday: 0 for Monday up to 6 for Sunday.
    pub open spec fn spec_index(self) -> int {
        match self {
            Weekday::Mon => 0,
            Weekday::Tue => 1,
            Weekday::Wed => 2,
            Weekday::Thu => 3,
            Weekday::Fri => 4,
            Weekday::Sat => 5,
            Weekday::Sun => 6,
        }
    }

    /// Days since Monday: 0 for Monday up to 6 for Sunday.
    pub fn num_days_from_monday(&self) -> (r: u32)
        ensures
            r as int == self.spec_index(),
            weekday_of_index(r as int) == *self,
    {
        match self {
            Weekday::Mon => 0,
            Weekday::Tue => 1,
            Weekday::Wed => 2,
            Weekday::Thu => 3,
            Weekday::Fri => 4,
            Weekday::Sat => 5,
            Weekday::Sun => 6,
        }
    }

    /// Saturday or Sunday.
    pub fn is_weekend(&self) -> (r: bool)
        ensures
            r == is_weekend(*self),
    {
        match self {
            Weekday::Sat | Weekday::Sun => true,
            _ => false,
        }
    }
}

impl Date {
    /// The date with the given day number (0001-01-01 is day 1).
    pub fn from_day_number(day: i32) -> (r: Date)
        ensures
            r.day == day,
    {
        Date { day }
    }

    /// Days since Monday of this date's week (0 for Monday).
    pub fn weekday_index(&self) -> (r: u32)
        ensures
            r as int == weekday_index(self.day as int),
            r < 7,
    {
        weekday_index_of_day(self.day as i64)
    }

    /// The weekday of this date.
    pub fn weekday(&self) -> (r: Weekday)
        ensures
            r == weekday_of(self.day as int),
    {
        weekday_of_day(self.day as i64)
    }
}

/// The largest day number, in magnitude, that day arithmetic accepts.
pub const DAY_LIMIT: i64 = 1099511627776;

/// A multiple of 7 larger than `DAY_LIMIT`, divided by 7.
pub const WEEKS_OFFSET: i64 = 157073089683;

/// Days since Monday of the week of day number `d` (0 for Monday).
pub fn weekday_index_of_day(d: i64) -> (r: u32)
    requires
        -DAY_LIMIT <= d <= DAY_LIMIT,
    ensures
        r as int == weekday_index(d as int),
        r < 7,
{
    // Shift by a multiple of 7 so that the operand is non-negative.
    let shifted: i64 = d - 1 + 7 * WEEKS_OFFSET;
    proof {
        lemma_mod_shift(d - 1, WEEKS_OFFSET as int);
    }
    (shifted % 7) as u32
}

/// The weekday of day number `d`.
pub fn weekday_of_day(d: i64) -> (r: Weekday)
    requires
        -DAY_LIMIT <= d <= DAY_LIMIT,
    ensures
        r == weekday_of(d as int),
{
    let i = weekday_index_of_day(d);
    if i == 0 {
        Weekday::Mon
    } else if i == 1 {
        Weekday::Tue
    } else if i == 2 {
        Weekday::Wed
    } else if i == 3 {
        Weekday::Thu
    } else if i == 4 {
        Weekday::Fri
    } else if i == 5 {
        Weekday::Sat
    } else {
        Weekday::Sun
    }
}

impl Timestamp {
    /// The UTC calendar date on which this instant falls.
    pub open spec fn spec_date_day(self) -> int {
        self.unix_seconds as int / SECONDS_PER_DAY as int + UNIX_EPOCH_DAY as int
    }

    /// The UTC calendar date on which this instant falls.
    pub open spec fn spec_date(self) -> Date {
        Date { day: self.spec_date_day() as i32 }
    }

    /// The UTC calendar date on which this instant falls.
    pub fn date(&self) -> (r: Date)
        requires
            i32::MIN <= self.spec_date_day() <= i32::MAX,
        ensures
            r.day as int == self.spec_date_day(),
            r == self.spec_date(),
    {
        let q = self.unix_seconds / SECONDS_PER_DAY;
        let r = if self.unix_seconds % SECONDS_PER_DAY < 0 { q - 1 } else { q };
        Date { day: (r + UNIX_EPOCH_DAY) as i32 }
    }
}

/// Adding `k` weeks to `x` leaves its remainder modulo 7 unchanged.
proof fn lemma_mod_shift(x: int, k: int)
    requires
        k >= 0,
    ensures
        (x + 7 * k) % 7 == x % 7,
    decreases k,
{
    if k > 0 {
        lemma_mod_shift(x, k - 1);
        vstd::arithmetic::div_mod::lemma_mod_add_multiples_vanish(x + 7 * (k - 1), 7);
    }
}

/// The day number of the date that `chrono` reads from text in the form
/// YYYY-MM-DD, if it reads one.
pub uninterp spec fn ymd_day(s: Seq<char>) -> Option<int>;

/// Relies on chrono::NaiveDate::parse_from_str with the format "%Y-%m-%d":
/// the date it reads depends on the text alone; the day number is chrono's
/// `num_days_from_ce`, the count this library uses.
#[verifier::external_body]
pub fn parse_ymd(s: &str) -> (r: Option<Date>)
    ensures
        r is None <==> ymd_day(s@) is None,
        r matches Some(d) ==> ymd_day(s@) == Some(d.day as int),
{
    chrono::NaiveDate::parse_from_str(s, "%Y-%m-%d").ok().map(|d| Date { day: chrono::Datelike::num_days_from_ce(&d) })
}

/// The day a completion is logged for: the given YYYY-MM-DD text, or
/// `today` when none is given; `None` when the text is not a date.
pub fn completion_day(text: Option<&str>, today: Date) -> (r: Option<Date>)
    ensures
        text is None ==> r == Some(today),
        text matches Some(s) ==> (r is None <==> ymd_day(s@) is None),
        text matches Some(s) ==> (r matches Some(d) ==> ymd_day(s@) == Some(d.day as int)),
{
    match text {
        None => Some(today),
        Some(s) => parse_ymd(s),
    }
}

} // verus!
