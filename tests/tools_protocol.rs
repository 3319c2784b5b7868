use habit_tracker_mcp::analytics::{AnalyticsEngine, InsightKind};
use habit_tracker_mcp::protocol::{storage_error_to_json_rpc_code, HABIT_NOT_FOUND, INTERNAL_ERROR};
use habit_tracker_mcp::tools::{
    category_to_string, check_log_params, frequency_to_display_string, log_message, parse_category,
    parse_frequency, string_to_category, update_message,
};
use habit_tracker_mcp::{
    Category, CompletionRate, Frequency, HabitId, LogHabitParams, StorageError, Streak, ToolCallResult,
    Weekday,
};

#[test]
fn frequency_names_parse() {
    assert_eq!(parse_frequency("  Weekly "), Some(Frequency::Weekly(3)));
    assert_eq!(parse_frequency("DAILY"), Some(Frequency::Daily));
    assert_eq!(parse_frequency("custom"), Some(Frequency::Custom(vec![Weekday::Mon])));
    assert_eq!(parse_frequency("hourly"), None);
}

#[test]
fn category_arguments_parse() {
    assert_eq!(parse_category("HEALTH").unwrap(), Category::Health);
    assert_eq!(parse_category(" Custom: Yoga ").unwrap(), Category::Custom("yoga".to_string()));
    assert!(parse_category("custom:   ").is_err());
    assert!(parse_category("sports").is_err());
}

#[test]
fn stored_categories_round_trip() {
    for c in [Category::Household, Category::Custom("Chess Club".to_string())] {
        assert_eq!(string_to_category(&category_to_string(&c)), Some(c));
    }
    assert_eq!(category_to_string(&Category::Custom("x".to_string())), "custom:x");
    assert_eq!(string_to_category("Health"), None);
}

#[test]
fn frequency_display() {
    let f = Frequency::Custom(vec![Weekday::Mon, Weekday::Wed, Weekday::Fri]);
    assert_eq!(frequency_to_display_string(&f), "Mon, Wed, Fri");
    assert_eq!(frequency_to_display_string(&Frequency::Interval(1)), "Every 1 day");
    assert_eq!(frequency_to_display_string(&Frequency::Interval(10)), "Every 10 days");
    assert_eq!(frequency_to_display_string(&Frequency::Weekly(1)), "Weekly");
    assert_eq!(frequency_to_display_string(&Frequency::Weekly(2)), "2 times per week");
}

#[test]
fn log_arguments_checked() {
    let mut p = LogHabitParams {
        habit_id: "abc".to_string(),
        completed_at: None,
        value: Some(5),
        intensity: Some(11),
        notes: None,
    };
    assert!(check_log_params(&p).is_err());
    p.intensity = Some(10);
    assert!(check_log_params(&p).is_ok());
    p.value = Some(1000000);
    assert!(check_log_params(&p).is_err());
    p.value = None;
    p.habit_id = "  ".to_string();
    assert!(check_log_params(&p).is_err());
}

#[test]
fn tool_messages() {
    assert_eq!(log_message(1), "🔥 Logged habit completion! Current streak: 1 day");
    assert_eq!(log_message(12), "🔥 Logged habit completion! Current streak: 12 days");
    assert_eq!(update_message("Run", Some(false)), "⏸️ Paused habit 'Run'");
    assert_eq!(update_message("Run", None), "✅ Updated habit 'Run'");
}

#[test]
fn tool_results() {
    let ok = ToolCallResult::success("done".to_string());
    assert!(!ok.is_error);
    assert_eq!(ok.content[0].text, "done");
    assert_eq!(ok.content[0].content_type, "text");
    let err = ToolCallResult::error("boom".to_string());
    assert!(err.is_error);
    assert_eq!(err.content[0].text, "Error: boom");
}

#[test]
fn storage_error_codes() {
    let e = StorageError::HabitNotFound { habit_id: "x".to_string() };
    assert_eq!(storage_error_to_json_rpc_code(&e), HABIT_NOT_FOUND);
    assert_eq!(storage_error_to_json_rpc_code(&StorageError::Migration("m".to_string())), -32004);
    let json = serde_json::from_str::<u32>("x").unwrap_err();
    assert_eq!(storage_error_to_json_rpc_code(&StorageError::Serialization(json)), INTERNAL_ERROR);
}

#[test]
fn milestones_and_markers() {
    assert_eq!(AnalyticsEngine::get_streak_milestone(0), "just_started");
    assert_eq!(AnalyticsEngine::get_streak_milestone(7), "one_week_strong");
    assert_eq!(AnalyticsEngine::get_streak_milestone(59), "one_month_amazing");
    assert_eq!(AnalyticsEngine::get_streak_milestone(90), "habit_master");
    assert_eq!(AnalyticsEngine::get_insight_emoji("success"), "🎉");
    assert_eq!(AnalyticsEngine::get_insight_emoji("other"), "📊");
}

#[test]
fn insight_decisions() {
    let mut s = Streak::new(HabitId::new());
    s.current_streak = 8;
    s.longest_streak = 8;
    s.total_completions = 8;
    s.completion_rate = CompletionRate { numerator: 4, denominator: 5 };
    assert_eq!(
        AnalyticsEngine::habit_insight_kinds(&s),
        vec![InsightKind::GreatConsistency, InsightKind::HighPerformer]
    );
    s.current_streak = 0;
    s.completion_rate = CompletionRate { numerator: 1, denominator: 5 };
    assert_eq!(
        AnalyticsEngine::habit_insight_kinds(&s),
        vec![InsightKind::TimeToRestart, InsightKind::RoomForImprovement]
    );
    assert_eq!(AnalyticsEngine::portfolio_insight_kinds(0, 0, 0), vec![InsightKind::GetStarted]);
    assert_eq!(
        AnalyticsEngine::portfolio_insight_kinds(6, 2, 1),
        vec![InsightKind::MomentumBuilding, InsightKind::ConsiderDiversifying, InsightKind::FocusStrategy]
    );
}

#[test]
fn summary_line() {
    let engine = AnalyticsEngine::new();
    assert_eq!(engine.config().min_entries_for_analysis, 5);
    let lines = engine.generate_insights(&[], &[]);
    assert_eq!(lines, vec!["Start by creating your first habit to track!".to_string()]);
}
