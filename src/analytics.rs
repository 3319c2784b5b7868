//! Analytics: streak calculation for a habit and the decisions behind the
//! insights offered to the user.

use vstd::prelude::*;
use vstd::string::StringExecFns;
use crate::calendar::Date;
use crate::entry::HabitEntry;
use crate::habit::Habit;
use crate::streak::{completion_days, is_streak_of, CompletionRate, Streak};
use crate::text::{decimal, decimal_string, same_text};

verus! {

/// Parameters of an insights request.
#[derive(Debug)]
pub struct InsightsParams {
    /// The habit to analyse; all habits when absent.
    pub habit_id: Option<String>,
    /// "week", "month", "quarter" or "year".
    pub time_period: Option<String>,
    /// Only insights of this type, when given.
    pub insight_type: Option<String>,
}

/// Configuration of the analytics engine.
#[derive(Debug, Clone, Copy, PartialEq, Eq, Structural)]
pub struct AnalyticsConfig {
    /// Cache calculated insights.
    pub enable_caching: bool,
    /// Maximum age of cached insights, in seconds.
    pub cache_ttl_seconds: u64,
    /// Completions a habit needs before its rate counts in pattern analysis.
    pub min_entries_for_analysis: usize,
}

impl AnalyticsConfig {
    /// The default configuration: caching on, for an hour, and at least 5 completions.
    pub open spec fn spec_default() -> AnalyticsConfig {
        AnalyticsConfig { enable_caching: true, cache_ttl_seconds: 3600, min_entries_for_analysis: 5 }
    }
}

impl Default for AnalyticsConfig {
    fn default() -> (r: AnalyticsConfig)
        ensures
            r == AnalyticsConfig::spec_default(),
    {
        AnalyticsConfig { enable_caching: true, cache_ttl_seconds: 3600, min_entries_for_analysis: 5 }
    }
}

/// Analyses habits and decides which insights apply.
#[derive(Debug)]
pub struct AnalyticsEngine {
    config: AnalyticsConfig,
}

impl Default for AnalyticsEngine {
    fn default() -> (r: AnalyticsEngine)
        ensures
            r.spec_config() == AnalyticsConfig::spec_default(),
    {
        AnalyticsEngine::new()
    }
}

/// The kinds of insight the engine can offer.
#[derive(Debug, Clone, Copy, PartialEq, Eq, Structural)]
pub enum InsightKind {
    /// A current streak of a week or more.
    GreatConsistency,
    /// No current streak, but an earlier one.
    TimeToRestart,
    /// A completion rate of at least 80%.
    HighPerformer,
    /// A completion rate of at least 60%.
    GoodProgress,
    /// A lower completion rate, with some completions.
    RoomForImprovement,
    /// No habits yet.
    GetStarted,
    /// Some habits have a current streak.
    MomentumBuilding,
    /// Habits in at least three categories.
    WellRoundedGrowth,
    /// More than three habits in fewer than three categories.
    ConsiderDiversifying,
    /// More than five habits, fewer than half of them with a current streak.
    FocusStrategy,
}

/// `rate` is at least `num / den`.
pub open spec fn rate_at_least(rate: CompletionRate, num: int, den: int) -> bool {
    rate.numerator * den >= num * rate.denominator
}

/// The insights about one habit with streak record `s`.
pub open spec fn habit_insights_of(s: Streak) -> Seq<InsightKind> {
    let streak_part = if s.current_streak >= 7 {
        seq![InsightKind::GreatConsistency]
    } else if s.current_streak == 0 && s.longest_streak > 0 {
        seq![InsightKind::TimeToRestart]
    } else {
        seq![]
    };
    let rate_part = if rate_at_least(s.completion_rate, 4, 5) {
        seq![InsightKind::HighPerformer]
    } else if rate_at_least(s.completion_rate, 3, 5) {
        seq![InsightKind::GoodProgress]
    } else if s.total_completions > 0 {
        seq![InsightKind::RoomForImprovement]
    } else {
        seq![]
    };
    streak_part + rate_part
}

/// The portfolio insights for `habits` habits in `categories` distinct
/// categories, `active` of them with a current streak.
pub open spec fn portfolio_insights_of(habits: nat, categories: nat, active: nat) -> Seq<InsightKind> {
    if habits == 0 {
        seq![InsightKind::GetStarted]
    } else {
        let momentum = if active > 0 { seq![InsightKind::MomentumBuilding] } else { seq![] };
        let diversity = if categories >= 3 {
            seq![InsightKind::WellRoundedGrowth]
        } else if habits > 3 {
            seq![InsightKind::ConsiderDiversifying]
        } else {
            seq![]
        };
        let focus = if habits > 5 && active < habits / 2 { seq![InsightKind::FocusStrategy] } else { seq![] };
        momentum + diversity + focus
    }
}

/// The milestone reached by a streak of `n`.
pub open spec fn milestone_of(n: u32) -> Seq<char> {
    if n == 0 {
        "just_started"@
    } else if n <= 6 {
        "building_momentum"@
    } else if n <= 13 {
        "one_week_strong"@
    } else if n <= 20 {
        "two_weeks_solid"@
    } else if n <= 29 {
        "three_weeks_excellent"@
    } else if n <= 59 {
        "one_month_amazing"@
    } else if n <= 89 {
        "two_months_incredible"@
    } else {
        "habit_master"@
    }
}

/// The summary lines for `habits` habits with `entries` completions.
pub open spec fn summary_lines_of(habits: nat, entries: nat) -> Seq<Seq<char>> {
    if habits == 0 {
        seq!["Start by creating your first habit to track!"@]
    } else if entries == 0 {
        seq!["Great job creating habits! Now start logging your progress."@]
    } else {
        seq![
            "You have "@ + decimal(habits) + " active habits with "@ + decimal(entries)
                + " total completions. Keep up the great work!"@,
        ]
    }
}

impl AnalyticsEngine {
    /// The configuration in use.
    pub closed spec fn spec_config(&self) -> AnalyticsConfig {
        self.config
    }

    /// An engine with the default configuration.
    pub fn new() -> (r: AnalyticsEngine)
        ensures
            r.spec_config() == AnalyticsConfig::spec_default(),
    {
        Self::with_config(AnalyticsConfig::default())
    }

    /// An engine with the given configuration.
    pub fn with_config(config: AnalyticsConfig) -> (r: AnalyticsEngine)
        ensures
            r.spec_config() == config,
    {
        AnalyticsEngine { config }
    }

    /// The configuration in use.
    pub fn config(&self) -> (r: AnalyticsConfig)
        ensures
            r == self.spec_config(),
    {
        self.config
    }

    /// The streak statistics of `habit` from its `entries`, as of `today`.
    pub fn calculate_habit_streak(&self, habit: &Habit, entries: &[HabitEntry], today: Date) -> (r: Streak)
        requires
            habit.frequency.is_valid(),
            entries@.len() <= u32::MAX,
            i32::MIN <= habit.created_at.spec_date_day() <= i32::MAX,
        ensures
            is_streak_of(
                r,
                habit.id,
                completion_days(entries@),
                habit.frequency,
                habit.created_at.spec_date(),
                today,
            ),
    {
        let created = habit.created_at.date();
        Streak::calculate_from_entries(habit.id, entries, &habit.frequency, created, today)
    }

    /// One summary line about the number of habits and completions.
    pub fn generate_insights(&self, habits: &[Habit], entries: &[HabitEntry]) -> (r: Vec<String>)
        ensures
            r@.len() == 1,
            r@[0]@ == summary_lines_of(habits@.len(), entries@.len())[0],
    {
        let mut out: Vec<String> = Vec::new();
        if habits.len() == 0 {
            out.push(String::from_str("Start by creating your first habit to track!"));
        } else if entries.len() == 0 {
            out.push(String::from_str("Great job creating habits! Now start logging your progress."));
        } else {
            let line = String::from_str("You have ").concat(
                decimal_string(habits.len() as u64).as_str(),
            ).concat(" active habits with ").concat(
                decimal_string(entries.len() as u64).as_str(),
            ).concat(" total completions. Keep up the great work!");
            out.push(line);
        }
        out
    }

    /// The insights that apply to one habit with streak record `streak`.
    pub fn habit_insight_kinds(streak: &Streak) -> (r: Vec<InsightKind>)
        ensures
            r@ == habit_insights_of(*streak),
    {
        let mut out: Vec<InsightKind> = Vec::new();
        if streak.current_streak >= 7 {
            out.push(InsightKind::GreatConsistency);
        } else if streak.current_streak == 0 && streak.longest_streak > 0 {
            out.push(InsightKind::TimeToRestart);
        }
        let num = streak.completion_rate.numerator as u128;
        let den = streak.completion_rate.denominator as u128;
        if num * 5 >= 4 * den {
            out.push(InsightKind::HighPerformer);
        } else if num * 5 >= 3 * den {
            out.push(InsightKind::GoodProgress);
        } else if streak.total_completions > 0 {
            out.push(InsightKind::RoomForImprovement);
        }
        assert(out@ =~= habit_insights_of(*streak));
        out
    }

    /// The insights about the whole set of habits: `habits` of them in
    /// `categories` distinct categories, `active` with a current streak.
    pub fn portfolio_insight_kinds(habits: usize, categories: usize, active: usize) -> (r: Vec<InsightKind>)
        ensures
            r@ == portfolio_insights_of(habits as nat, categories as nat, active as nat),
    {
        let mut out: Vec<InsightKind> = Vec::new();
        if habits == 0 {
            out.push(InsightKind::GetStarted);
            assert(out@ =~= portfolio_insights_of(habits as nat, categories as nat, active as nat));
            return out;
        }
        if active > 0 {
            out.push(InsightKind::MomentumBuilding);
        }
        if categories >= 3 {
            out.push(InsightKind::WellRoundedGrowth);
        } else if habits > 3 {
            out.push(InsightKind::ConsiderDiversifying);
        }
        if habits > 5 && active < habits / 2 {
            out.push(InsightKind::FocusStrategy);
        }
        assert(out@ =~= portfolio_insights_of(habits as nat, categories as nat, active as nat));
        out
    }

    /// The marker shown beside an insight of the given type.
    pub fn get_insight_emoji(insight_type: &str) -> (r: &'static str)
        ensures
            insight_type@ == "success"@ ==> r@ == "🎉"@,
            insight_type@ == "warning"@ ==> r@ == "⚠️"@,
            insight_type@ == "recommendation"@ ==> r@ == "💡"@,
            insight_type@ == "pattern"@ ==> r@ == "📈"@,
            insight_type@ != "success"@ && insight_type@ != "warning"@ && insight_type@
                != "recommendation"@ && insight_type@ != "pattern"@ ==> r@ == "📊"@,
    {
        proof {
            reveal_strlit("success");
            reveal_strlit("warning");
            reveal_strlit("recommendation");
            reveal_strlit("pattern");
            assert("success"@[0] != "warning"@[0]);
            assert("success"@[0] != "pattern"@[0]);
            assert("warning"@[0] != "pattern"@[0]);
        }
        if same_text(insight_type, "success") {
            "🎉"
        } else if same_text(insight_type, "warning") {
            "⚠️"
        } else if same_text(insight_type, "recommendation") {
            "💡"
        } else if same_text(insight_type, "pattern") {
            "📈"
        } else {
            "📊"
        }
    }

    /// The milestone name for a streak of `streak`.
    pub fn get_streak_milestone(streak: u32) -> (r: &'static str)
        ensures
            r@ == milestone_of(streak),
    {
        if streak == 0 {
            "just_started"
        } else if streak <= 6 {
            "building_momentum"
        } else if streak <= 13 {
            "one_week_strong"
        } else if streak <= 20 {
            "two_weeks_solid"
        } else if streak <= 29 {
            "three_weeks_excellent"
        } else if streak <= 59 {
            "one_month_amazing"
        } else if streak <= 89 {
            "two_months_incredible"
        } else {
            "habit_master"
        }
    }
}

} // verus!
