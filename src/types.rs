//! Habit categories and schedules (frequencies).

use vstd::prelude::*;
use vstd::string::StringExecFns;
use crate::calendar::{Date, Weekday, weekday_of, weekday_of_day, is_weekend, DAY_LIMIT};
use crate::error::DomainError;

verus! {

/// Categories for organizing habits into life areas.
#[derive(Debug, Clone, PartialEq, Eq)]
pub enum Category {
    Health,
    Productivity,
    Social,
    Creative,
    Mindfulness,
    Financial,
    Household,
    Personal,
    Custom(String),
}

impl Category {
    /// The display name of each category; a custom category shows its own name.
    pub open spec fn spec_display_name(&self) -> Seq<char> {
        match self {
            Category::Health => "Health"@,
            Category::Productivity => "Productivity"@,
            Category::Social => "Social"@,
            Category::Creative => "Creative"@,
            Category::Mindfulness => "Mindfulness"@,
            Category::Financial => "Financial"@,
            Category::Household => "Household"@,
            Category::Personal => "Personal"@,
            Category::Custom(name) => name@,
        }
    }

    /// Get the display name for this category.
    pub fn display_name(&self) -> (r: &str)
        ensures
            r@ == self.spec_display_name(),
    {
        match self {
            Category::Health => "Health",
            Category::Productivity => "Productivity",
            Category::Social => "Social",
            Category::Creative => "Creative",
            Category::Mindfulness => "Mindfulness",
            Category::Financial => "Financial",
            Category::Household => "Household",
            Category::Personal => "Personal",
            Category::Custom(name) => name.as_str(),
        }
    }
}

/// How often a habit should be performed.
#[derive(Debug, Clone, PartialEq, Eq)]
pub enum Frequency {
    /// Every single day.
    Daily,
    /// A number of times per Monday-aligned week (1 to 7).
    Weekly(u8),
    /// Monday through Friday.
    Weekdays,
    /// Saturday and Sunday.
    Weekends,
    /// The listed days of the week (1 to 7 of them).
    Custom(Vec<Weekday>),
    /// Every N days (1 to 365), counted from the last completion.
    Interval(u32),
}

/// How far the search for a neighbouring qualifying day looks, beyond the first day tried.
pub const SEARCH_SPAN: u32 = 6;

/// Whether weekday `w` is one of `days`.
pub open spec fn lists_day(days: Seq<Weekday>, w: Weekday) -> bool {
    exists|i: int| 0 <= i < days.len() && days[i] == w
}

impl Frequency {
    /// The parameter of each variant is in its allowed range.
    pub open spec fn is_valid(&self) -> bool {
        match self {
            Frequency::Weekly(t) => 1 <= *t <= 7,
            Frequency::Custom(days) => 1 <= days@.len() <= 7,
            Frequency::Interval(n) => 1 <= *n <= 365,
            _ => true,
        }
    }

    /// Whether the schedule expects activity on day number `d`. Weekly
    /// targets are judged per week and intervals relative to the last
    /// completion, so every day qualifies for them.
    pub open spec fn qualifies(&self, d: int) -> bool {
        match self {
            Frequency::Weekdays => !is_weekend(weekday_of(d)),
            Frequency::Weekends => is_weekend(weekday_of(d)),
            Frequency::Custom(days) => lists_day(days@, weekday_of(d)),
            _ => true,
        }
    }

    /// The first qualifying day going down from `c`, trying at most
    /// `fuel + 1` days; the last day tried when none qualifies.
    pub open spec fn search_down(&self, c: int, fuel: nat) -> int
        decreases fuel,
    {
        if fuel == 0 || self.qualifies(c) {
            c
        } else {
            self.search_down(c - 1, (fuel - 1) as nat)
        }
    }

    /// The first qualifying day going up from `c`, trying at most
    /// `fuel + 1` days; the last day tried when none qualifies.
    pub open spec fn search_up(&self, c: int, fuel: nat) -> int
        decreases fuel,
    {
        if fuel == 0 || self.qualifies(c) {
            c
        } else {
            self.search_up(c + 1, (fuel - 1) as nat)
        }
    }

    /// The latest qualifying day before day `d` (within the week before it).
    pub open spec fn prev_qualifying(&self, d: int) -> int {
        self.search_down(d - 1, SEARCH_SPAN as nat)
    }

    /// The earliest qualifying day after day `d` (within the week after it).
    pub open spec fn next_qualifying(&self, d: int) -> int {
        self.search_up(d + 1, SEARCH_SPAN as nat)
    }

    /// Validate that the frequency's parameter is in range.
    pub fn validate(&self) -> (r: Result<(), DomainError>)
        ensures
            r is Ok <==> self.is_valid(),
            r matches Err(e) ==> e is InvalidFrequency,
    {
        match self {
            Frequency::Weekly(times) => {
                if *times == 0 || *times > 7 {
                    return Err(
                        DomainError::InvalidFrequency(
                            "Weekly frequency must be between 1 and 7 times".to_string(),
                        ),
                    );
                }
            },
            Frequency::Custom(days) => {
                if days.len() == 0 {
                    return Err(
                        DomainError::InvalidFrequency(
                            "Custom frequency must specify at least one day".to_string(),
                        ),
                    );
                }
                if days.len() > 7 {
                    return Err(
                        DomainError::InvalidFrequency(
                            "Custom frequency cannot have more than 7 days".to_string(),
                        ),
                    );
                }
            },
            Frequency::Interval(days) => {
                if *days == 0 {
                    return Err(
                        DomainError::InvalidFrequency("Interval must be at least 1 day".to_string()),
                    );
                }
                if *days > 365 {
                    return Err(
                        DomainError::InvalidFrequency(
                            "Interval cannot be longer than 365 days".to_string(),
                        ),
                    );
                }
            },
            _ => {},
        }
        Ok(())
    }

    /// Whether this frequency expects the habit to be done on the given date.
    pub fn is_scheduled_for_date(&self, date: Date) -> (r: bool)
        ensures
            r == self.qualifies(date.day as int),
    {
        self.qualifies_day(date.day as i64)
    }

    /// Whether day number `d` qualifies.
    pub fn qualifies_day(&self, d: i64) -> (r: bool)
        requires
            -DAY_LIMIT <= d <= DAY_LIMIT,
        ensures
            r == self.qualifies(d as int),
    {
        let w = weekday_of_day(d);
        match self {
            Frequency::Weekdays => !w.is_weekend(),
            Frequency::Weekends => w.is_weekend(),
            Frequency::Custom(days) => {
                let mut i: usize = 0;
                while i < days.len()
                    invariant
                        0 <= i <= days@.len(),
                        w == weekday_of(d as int),
                        self.qualifies(d as int) == lists_day(days@, w),
                        forall|j: int| 0 <= j < i ==> days@[j] != w,
                    decreases days@.len() - i,
                {
                    if days[i] == w {
                        assert(days@[i as int] == w);
                        return true;
                    }
                    i = i + 1;
                }
                false
            },
            _ => true,
        }
    }

    /// The latest qualifying day before day `d`.
    pub fn prev_qualifying_day(&self, d: i64) -> (r: i64)
        requires
            -DAY_LIMIT + 8 <= d <= DAY_LIMIT,
        ensures
            r as int == self.prev_qualifying(d as int),
            d - 7 <= r < d,
    {
        let mut c: i64 = d - 1;
        let mut fuel: u32 = SEARCH_SPAN;
        while fuel > 0 && !self.qualifies_day(c)
            invariant
                -DAY_LIMIT + 8 <= d <= DAY_LIMIT,
                fuel <= SEARCH_SPAN,
                c == d - 1 - (SEARCH_SPAN - fuel),
                self.search_down(c as int, fuel as nat) == self.prev_qualifying(d as int),
            decreases fuel,
        {
            c = c - 1;
            fuel = fuel - 1;
        }
        c
    }

    /// The earliest qualifying day after day `d`.
    pub fn next_qualifying_day(&self, d: i64) -> (r: i64)
        requires
            -DAY_LIMIT <= d <= DAY_LIMIT - 8,
        ensures
            r as int == self.next_qualifying(d as int),
            d < r <= d + 7,
    {
        let mut c: i64 = d + 1;
        let mut fuel: u32 = SEARCH_SPAN;
        while fuel > 0 && !self.qualifies_day(c)
            invariant
                -DAY_LIMIT <= d <= DAY_LIMIT - 8,
                fuel <= SEARCH_SPAN,
                c == d + 1 + (SEARCH_SPAN - fuel),
                self.search_up(c as int, fuel as nat) == self.next_qualifying(d as int),
            decreases fuel,
        {
            c = c + 1;
            fuel = fuel - 1;
        }
        c
    }
}

} // verus!
