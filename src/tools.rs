//! Parameters and responses of the habit tools, and the parsing and
//! checking they do before storage is touched.

use vstd::prelude::*;
use vstd::string::{StrSliceExecFns, StringExecFns};
use crate::calendar::Weekday;
use crate::text::{byte_len, decimal, decimal_string, has_prefix, lower_of, lowercase, same_text, trim_of, trimmed};
use crate::types::{Category, Frequency};

verus! {

/// Parameters for creating a habit.
#[derive(Debug)]
pub struct CreateHabitParams {
    pub name: String,
    pub description: Option<String>,
    /// A category name, or "custom:" followed by a name.
    pub category: String,
    /// A frequency name.
    pub frequency: String,
    pub target_value: Option<u32>,
    pub unit: Option<String>,
}

/// Response to creating a habit.
#[derive(Debug)]
pub struct CreateHabitResponse {
    pub success: bool,
    pub habit_id: Option<String>,
    pub message: String,
}

/// Parameters for listing habits.
#[derive(Debug)]
pub struct ListHabitsParams {
    pub category: Option<String>,
    pub active_only: Option<bool>,
    /// "name", "streak", "created_at", "completion_rate" or "total_completions".
    pub sort_by: Option<String>,
}

/// Parameters for logging a completion.
#[derive(Debug)]
pub struct LogHabitParams {
    pub habit_id: String,
    /// The day completed, as YYYY-MM-DD; today when absent.
    pub completed_at: Option<String>,
    pub value: Option<u32>,
    pub intensity: Option<u8>,
    pub notes: Option<String>,
}

/// Response to logging a completion.
#[derive(Debug)]
pub struct LogHabitResponse {
    pub success: bool,
    pub message: String,
    pub current_streak: Option<u32>,
}

/// Parameters for checking habit status.
#[derive(Debug)]
pub struct StatusParams {
    /// The habit to report; all habits when absent.
    pub habit_id: Option<String>,
    pub include_recent: Option<bool>,
}

/// Parameters for updating a habit.
#[derive(Debug)]
pub struct UpdateHabitParams {
    pub habit_id: String,
    pub name: Option<String>,
    pub description: Option<String>,
    pub frequency: Option<String>,
    pub target_value: Option<u32>,
    pub unit: Option<String>,
    pub is_active: Option<bool>,
}

/// Response to updating a habit.
#[derive(Debug)]
pub struct UpdateHabitResponse {
    pub success: bool,
    pub message: String,
}

/// Largest value the log tool accepts.
pub const MAX_LOG_VALUE: u32 = 999999;

/// Longest notes the log tool accepts, in bytes.
pub const MAX_LOG_NOTES_BYTES: usize = 500;

/// The built-in category whose lower-case name is `t`.
pub open spec fn builtin_category(t: Seq<char>) -> Option<Category> {
    if t == "health"@ {
        Some(Category::Health)
    } else if t == "productivity"@ {
        Some(Category::Productivity)
    } else if t == "social"@ {
        Some(Category::Social)
    } else if t == "creative"@ {
        Some(Category::Creative)
    } else if t == "mindfulness"@ {
        Some(Category::Mindfulness)
    } else if t == "financial"@ {
        Some(Category::Financial)
    } else if t == "household"@ {
        Some(Category::Household)
    } else if t == "personal"@ {
        Some(Category::Personal)
    } else {
        None
    }
}

/// `t` begins with "custom:".
pub open spec fn has_custom_prefix(t: Seq<char>) -> bool {
    7 <= t.len() && t.subrange(0, 7) == "custom:"@
}

/// The stored text of a category: its lower-case name, or "custom:" and its name.
pub open spec fn category_key(c: Category) -> Seq<char> {
    match c {
        Category::Health => "health"@,
        Category::Productivity => "productivity"@,
        Category::Social => "social"@,
        Category::Creative => "creative"@,
        Category::Mindfulness => "mindfulness"@,
        Category::Financial => "financial"@,
        Category::Household => "household"@,
        Category::Personal => "personal"@,
        Category::Custom(name) => "custom:"@ + name@,
    }
}

/// The built-in category named exactly `t`.
fn builtin_category_named(t: &str) -> (r: Option<Category>)
    ensures
        r == builtin_category(t@),
{
    if same_text(t, "health") {
        Some(Category::Health)
    } else if same_text(t, "productivity") {
        Some(Category::Productivity)
    } else if same_text(t, "social") {
        Some(Category::Social)
    } else if same_text(t, "creative") {
        Some(Category::Creative)
    } else if same_text(t, "mindfulness") {
        Some(Category::Mindfulness)
    } else if same_text(t, "financial") {
        Some(Category::Financial)
    } else if same_text(t, "household") {
        Some(Category::Household)
    } else if same_text(t, "personal") {
        Some(Category::Personal)
    } else {
        None
    }
}

/// The stored text of a category.
pub fn category_to_string(category: &Category) -> (r: String)
    ensures
        r@ == category_key(*category),
{
    match category {
        Category::Health => String::from_str("health"),
        Category::Productivity => String::from_str("productivity"),
        Category::Social => String::from_str("social"),
        Category::Creative => String::from_str("creative"),
        Category::Mindfulness => String::from_str("mindfulness"),
        Category::Financial => String::from_str("financial"),
        Category::Household => String::from_str("household"),
        Category::Personal => String::from_str("personal"),
        Category::Custom(name) => String::from_str("custom:").concat(name.as_str()),
    }
}

/// The category stored as `s`: a built-in name, or "custom:" and a name.
pub fn string_to_category(s: &str) -> (r: Option<Category>)
    ensures
        builtin_category(s@) is Some ==> r == builtin_category(s@),
        builtin_category(s@) is None && has_custom_prefix(s@) ==> (r is Some && r->Some_0 is Custom
            && r->Some_0->Custom_0@ == s@.subrange(7, s@.len() as int)),
        builtin_category(s@) is None && !has_custom_prefix(s@) ==> r is None,
{
    proof {
        reveal_strlit("custom:");
    }
    match builtin_category_named(s) {
        Some(c) => Some(c),
        None => {
            if has_prefix(s, "custom:") {
                let name = s.substring_char(7, s.unicode_len());
                Some(Category::Custom(String::from_str(name)))
            } else {
                None
            }
        },
    }
}

/// The category filter of the list tool: a built-in name, exactly.
pub fn category_filter(s: &str) -> (r: Option<Category>)
    ensures
        r == builtin_category(s@),
{
    builtin_category_named(s)
}

/// What the create tool makes of a category argument `s`: its trimmed,
/// lower-case form `t` names a built-in category, or is "custom:" followed
/// by a name that is not blank once trimmed.
pub fn parse_category(s: &str) -> (r: Result<Category, String>)
    ensures
        ({
            let t = lower_of(trim_of(s@));
            &&& builtin_category(t) is Some ==> r == Ok::<Category, String>(
                builtin_category(t)->Some_0,
            )
            &&& builtin_category(t) is None && has_custom_prefix(t) && trim_of(t.subrange(7, t.len() as int)).len() > 0
                ==> (r is Ok && r->Ok_0 is Custom && r->Ok_0->Custom_0@ == trim_of(
                t.subrange(7, t.len() as int),
            ))
            &&& builtin_category(t) is None && !(has_custom_prefix(t) && trim_of(
                t.subrange(7, t.len() as int),
            ).len() > 0) ==> r is Err
        }),
{
    proof {
        reveal_strlit("custom:");
    }
    let lowered = lowercase(trimmed(s));
    let t = lowered.as_str();
    match builtin_category_named(t) {
        Some(c) => Ok(c),
        None => {
            if has_prefix(t, "custom:") {
                let rest = t.substring_char(7, t.unicode_len());
                let name = trimmed(rest);
                if name.is_empty() {
                    Err(String::from_str("Custom category name cannot be empty"))
                } else {
                    Ok(Category::Custom(String::from_str(name)))
                }
            } else {
                Err(
                    String::from_str("Invalid category '").concat(s).concat(
                        "'. Valid options: health, productivity, social, creative, mindfulness, financial, household, personal, or custom:name",
                    ),
                )
            }
        },
    }
}

/// The frequency a tool argument names once trimmed and lower-cased:
/// "daily", "weekdays", "weekends", "weekly" (three times a week) or
/// "custom" (Mondays).
pub open spec fn named_frequency_ok(t: Seq<char>, r: Option<Frequency>) -> bool {
    if t == "daily"@ {
        r == Some(Frequency::Daily)
    } else if t == "weekdays"@ {
        r == Some(Frequency::Weekdays)
    } else if t == "weekends"@ {
        r == Some(Frequency::Weekends)
    } else if t == "weekly"@ {
        r == Some(Frequency::Weekly(3))
    } else if t == "custom"@ {
        r is Some && r->Some_0 is Custom && r->Some_0->Custom_0@ == seq![Weekday::Mon]
    } else {
        r is None
    }
}

/// The frequency named by a tool argument.
pub fn parse_frequency(s: &str) -> (r: Option<Frequency>)
    ensures
        named_frequency_ok(lower_of(trim_of(s@)), r),
        r matches Some(f) ==> f.is_valid(),
{
    let lowered = lowercase(trimmed(s));
    let t = lowered.as_str();
    if same_text(t, "daily") {
        Some(Frequency::Daily)
    } else if same_text(t, "weekdays") {
        Some(Frequency::Weekdays)
    } else if same_text(t, "weekends") {
        Some(Frequency::Weekends)
    } else if same_text(t, "weekly") {
        Some(Frequency::Weekly(3))
    } else if same_text(t, "custom") {
        let days = vec![Weekday::Mon];
        assert(days@ =~= seq![Weekday::Mon]);
        Some(Frequency::Custom(days))
    } else {
        None
    }
}

/// The message for an unknown frequency argument.
pub fn invalid_frequency_message(s: &str) -> (r: String)
    ensures
        r@ == "Invalid frequency '"@ + s@ + "'. Valid options: daily, weekdays, weekends, weekly, custom"@,
{
    String::from_str("Invalid frequency '").concat(s).concat(
        "'. Valid options: daily, weekdays, weekends, weekly, custom",
    )
}

/// The short English name of a weekday.
pub open spec fn weekday_label(w: Weekday) -> Seq<char> {
    match w {
        Weekday::Mon => "Mon"@,
        Weekday::Tue => "Tue"@,
        Weekday::Wed => "Wed"@,
        Weekday::Thu => "Thu"@,
        Weekday::Fri => "Fri"@,
        Weekday::Sat => "Sat"@,
        Weekday::Sun => "Sun"@,
    }
}

/// The names of `days`, separated by ", ".
pub open spec fn weekday_list(days: Seq<Weekday>) -> Seq<char>
    decreases days.len(),
{
    if days.len() == 0 {
        Seq::empty()
    } else if days.len() == 1 {
        weekday_label(days[0])
    } else {
        weekday_list(days.drop_last()) + ", "@ + weekday_label(days.last())
    }
}

/// How a frequency reads in a habit list.
pub open spec fn frequency_label(f: Frequency) -> Seq<char> {
    match f {
        Frequency::Daily => "Daily"@,
        Frequency::Weekly(t) => if t == 1 {
            "Weekly"@
        } else {
            decimal(t as nat) + " times per week"@
        },
        Frequency::Weekdays => "Weekdays"@,
        Frequency::Weekends => "Weekends"@,
        Frequency::Custom(days) => weekday_list(days@),
        Frequency::Interval(n) => "Every "@ + decimal(n as nat) + (if n == 1 {
            " day"@
        } else {
            " days"@
        }),
    }
}

fn weekday_name(w: Weekday) -> (r: &'static str)
    ensures
        r@ == weekday_label(w),
{
    match w {
        Weekday::Mon => "Mon",
        Weekday::Tue => "Tue",
        Weekday::Wed => "Wed",
        Weekday::Thu => "Thu",
        Weekday::Fri => "Fri",
        Weekday::Sat => "Sat",
        Weekday::Sun => "Sun",
    }
}

/// How a frequency reads in a habit list.
pub fn frequency_to_display_string(frequency: &Frequency) -> (r: String)
    ensures
        r@ == frequency_label(*frequency),
{
    match frequency {
        Frequency::Daily => String::from_str("Daily"),
        Frequency::Weekly(t) => {
            if *t == 1 {
                String::from_str("Weekly")
            } else {
                decimal_string(*t as u64).concat(" times per week")
            }
        },
        Frequency::Weekdays => String::from_str("Weekdays"),
        Frequency::Weekends => String::from_str("Weekends"),
        Frequency::Custom(days) => {
            let mut out = String::new();
            let mut i: usize = 0;
            while i < days.len()
                invariant
                    0 <= i <= days@.len(),
                    out@ == weekday_list(days@.subrange(0, i as int)),
                decreases days@.len() - i,
            {
                proof {
                    let next = days@.subrange(0, i + 1);
                    assert(next.drop_last() =~= days@.subrange(0, i as int));
                    assert(next.last() == days@[i as int]);
                }
                if i > 0 {
                    out.append(", ");
                }
                out.append(weekday_name(days[i]));
                i = i + 1;
            }
            assert(days@.subrange(0, days@.len() as int) =~= days@);
            out
        },
        Frequency::Interval(n) => {
            let s = String::from_str("Every ").concat(decimal_string(*n as u64).as_str());
            if *n == 1 {
                s.concat(" day")
            } else {
                s.concat(" days")
            }
        },
    }
}

/// The checks the log tool makes before an entry is built: a habit id that
/// is not blank, an intensity from 1 to 10, a value of at most
/// `MAX_LOG_VALUE` and notes of at most `MAX_LOG_NOTES_BYTES` bytes.
pub open spec fn log_params_ok(habit_id: Seq<char>, value: Option<u32>, intensity: Option<u8>, notes: Option<String>) -> bool {
    &&& trim_of(habit_id).len() > 0
    &&& (intensity matches Some(i) ==> 1 <= i <= 10)
    &&& (value matches Some(v) ==> v <= MAX_LOG_VALUE)
    &&& (notes matches Some(n) ==> byte_len(n@) <= MAX_LOG_NOTES_BYTES)
}

/// Check the arguments of the log tool; the error is the message to report.
pub fn check_log_params(params: &LogHabitParams) -> (r: Result<(), String>)
    ensures
        r is Ok <==> log_params_ok(params.habit_id@, params.value, params.intensity, params.notes),
{
    if trimmed(params.habit_id.as_str()).is_empty() {
        return Err(String::from_str("Habit ID cannot be empty"));
    }
    if let Some(i) = params.intensity {
        if i < 1 || i > 10 {
            return Err(String::from_str("Intensity must be between 1 and 10"));
        }
    }
    if let Some(v) = params.value {
        if v > MAX_LOG_VALUE {
            return Err(String::from_str("Value too large (max 999,999)"));
        }
    }
    if let Some(n) = &params.notes {
        if n.as_str().len() > MAX_LOG_NOTES_BYTES {
            return Err(String::from_str("Notes too long (max 500 characters)"));
        }
    }
    Ok(())
}

/// The message after logging, with the current streak.
pub fn log_message(current_streak: u32) -> (r: String)
    ensures
        r@ == "🔥 Logged habit completion! Current streak: "@ + decimal(current_streak as nat) + (if current_streak == 1 {
            " day"@
        } else {
            " days"@
        }),
{
    let s = String::from_str("🔥 Logged habit completion! Current streak: ").concat(
        decimal_string(current_streak as u64).as_str(),
    );
    if current_streak == 1 {
        s.concat(" day")
    } else {
        s.concat(" days")
    }
}

/// The message after creating a habit.
pub fn create_message(name: &str) -> (r: String)
    ensures
        r@ == "✅ Created habit '"@ + name@ + "'! Ready to start your streak!"@,
{
    String::from_str("✅ Created habit '").concat(name).concat("'! Ready to start your streak!")
}

/// The message after updating a habit: pausing and reactivating are named.
pub fn update_message(name: &str, is_active: Option<bool>) -> (r: String)
    ensures
        is_active == Some(false) ==> r@ == "⏸️ Paused habit '"@ + name@ + "'"@,
        is_active == Some(true) ==> r@ == "▶️ Reactivated habit '"@ + name@ + "'"@,
        is_active is None ==> r@ == "✅ Updated habit '"@ + name@ + "'"@,
{
    let head = match is_active {
        Some(false) => "⏸️ Paused habit '",
        Some(true) => "▶️ Reactivated habit '",
        None => "✅ Updated habit '",
    };
    String::from_str(head).concat(name).concat("'")
}

} // verus!
