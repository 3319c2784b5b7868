use chrono::Datelike;
use habit_tracker_mcp::{
    AnalyticsEngine, Category, Date, DomainError, Frequency, Habit, HabitEntry, HabitId, Streak,
    Timestamp,
};

fn now() -> Timestamp {
    Timestamp { unix_seconds: chrono::Utc::now().timestamp() }
}

fn today() -> Date {
    Date { day: chrono::Utc::now().naive_utc().date().num_days_from_ce() }
}

#[test]
fn test_create_valid_entry() {
    let habit_id = HabitId::new();
    let today = today();

    let entry = HabitEntry::new(
        habit_id.clone(),
        today,
        Some(30),
        Some(8),
        Some("Felt great today!".to_string()),
        now(),
    );

    assert!(entry.is_ok());
    let entry = entry.unwrap();
    assert_eq!(entry.habit_id, habit_id);
    assert_eq!(entry.completed_at, today);
    assert_eq!(entry.value, Some(30));
    assert_eq!(entry.intensity, Some(8));
    assert!(entry.has_value());
    assert!(entry.has_intensity());
    assert!(entry.has_notes());
}

#[test]
fn test_future_date_invalid() {
    let habit_id = HabitId::new();
    let future_date = Date { day: today().day + 1 };

    let result = HabitEntry::new(habit_id, future_date, None, None, None, now());

    assert!(result.is_err());
}

#[test]
fn test_create_valid_habit() {
    let habit = Habit::new(
        "Morning Run".to_string(),
        Some("30-minute jog around the neighborhood".to_string()),
        Category::Health,
        Frequency::Daily,
        Some(30),
        Some("minutes".to_string()),
        now(),
    );

    assert!(habit.is_ok());
    let habit = habit.unwrap();
    assert_eq!(habit.name, "Morning Run");
    assert_eq!(habit.category, Category::Health);
    assert!(habit.is_active);
    assert!(habit.has_target());
    assert_eq!(habit.target_display(), Some("30 minutes".to_string()));
}

#[test]
fn test_invalid_habit_name() {
    let result = Habit::new(
        "".to_string(),
        None,
        Category::Health,
        Frequency::Daily,
        None,
        None,
        now(),
    );

    assert!(result.is_err());
}

#[test]
fn test_invalid_target_value() {
    let result = Habit::new(
        "Test Habit".to_string(),
        None,
        Category::Health,
        Frequency::Daily,
        Some(0),
        Some("minutes".to_string()),
        now(),
    );

    assert!(result.is_err());
}

#[test]
fn test_new_streak() {
    let habit_id = HabitId::new();
    let streak = Streak::new(habit_id.clone());

    assert_eq!(streak.habit_id, habit_id);
    assert_eq!(streak.current_streak, 0);
    assert_eq!(streak.longest_streak, 0);
    assert_eq!(streak.last_completed, None);
    assert_eq!(streak.total_completions, 0);
    assert_eq!(streak.completion_rate.numerator as f64 / streak.completion_rate.denominator as f64, 0.0);
}

#[test]
fn test_motivational_messages() {
    let habit_id = HabitId::new();
    let mut streak = Streak::new(habit_id);

    assert!(streak.motivational_message().contains("Ready to start"));

    streak.current_streak = 1;
    assert!(streak.motivational_message().contains("Great start"));

    streak.current_streak = 7;
    assert!(streak.motivational_message().contains("Excellent"));

    streak.current_streak = 100;
    assert!(streak.motivational_message().contains("Legendary"));
}

#[test]
fn test_is_on_track_daily() {
    let habit_id = HabitId::new();
    let today = today();
    let one = habit_tracker_mcp::CompletionRate { numerator: 1, denominator: 1 };

    let streak = Streak {
        habit_id,
        current_streak: 1,
        longest_streak: 1,
        last_completed: Some(today),
        total_completions: 1,
        completion_rate: one,
    };

    assert!(streak.is_on_track(&Frequency::Daily, today));

    let streak_yesterday = Streak {
        habit_id: HabitId::new(),
        current_streak: 1,
        longest_streak: 1,
        last_completed: Some(Date { day: today.day - 1 }),
        total_completions: 1,
        completion_rate: one,
    };

    assert!(streak_yesterday.is_on_track(&Frequency::Daily, today));
}

#[test]
fn test_habit_creation() {
    let habit = Habit::new(
        "Test Habit".to_string(),
        Some("A test habit".to_string()),
        Category::Health,
        Frequency::Daily,
        None,
        None,
        now(),
    );

    assert!(habit.is_ok());
    let habit = habit.unwrap();
    assert_eq!(habit.name, "Test Habit");
}

#[test]
fn test_habit_entry_creation() {
    let habit_id = HabitId::new();
    let today = today();

    let entry = HabitEntry::new(
        habit_id.clone(),
        today,
        Some(100),
        Some(8),
        Some("Great work!".to_string()),
        now(),
    );

    assert!(entry.is_ok());
    let entry = entry.unwrap();
    assert_eq!(entry.habit_id, habit_id);
    assert_eq!(entry.completed_at, today);
}

#[test]
fn test_basic_enum_creation() {
    let _freq = Frequency::Daily;
    let _category = Category::Health;
    assert!(true);
}

#[test]
fn test_analytics_engine_creation() {
    let _analytics = AnalyticsEngine::new();
    assert!(true);
}

#[test]
fn frequency_validation_errors() {
    assert!(Frequency::Weekly(0).validate().is_err());
    assert!(Frequency::Weekly(8).validate().is_err());
    assert!(Frequency::Weekly(7).validate().is_ok());
    assert!(Frequency::Custom(vec![]).validate().is_err());
    assert!(Frequency::Interval(0).validate().is_err());
    assert!(Frequency::Interval(366).validate().is_err());
    assert!(Frequency::Interval(365).validate().is_ok());
    assert!(matches!(Frequency::Weekly(0).validate(), Err(DomainError::InvalidFrequency(_))));
}

#[test]
fn entry_error_variants() {
    let id = HabitId::new();
    let t = today();
    let old = Date { day: t.day - 366 };
    assert!(matches!(
        HabitEntry::new(id.clone(), old, None, None, None, now()),
        Err(DomainError::InvalidDate(_))
    ));
    let year_ago = Date { day: t.day - 365 };
    assert!(HabitEntry::new(id.clone(), year_ago, None, None, None, now()).is_ok());
    assert!(matches!(
        HabitEntry::new(id.clone(), t, Some(100001), None, None, now()),
        Err(DomainError::InvalidValue { .. })
    ));
    assert!(matches!(
        HabitEntry::new(id.clone(), t, None, Some(0), None, now()),
        Err(DomainError::InvalidValue { .. })
    ));
    assert!(matches!(
        HabitEntry::new(id, t, None, None, Some("x".repeat(501)), now()),
        Err(DomainError::InvalidValue { .. })
    ));
}

#[test]
fn blank_notes_are_not_notes() {
    let id = HabitId::new();
    let entry = HabitEntry::new(id, today(), None, None, Some("   ".to_string()), now()).unwrap();
    assert!(!entry.has_notes());
}

#[test]
fn habit_error_variants() {
    let long_name = "n".repeat(101);
    assert!(matches!(
        Habit::new(long_name, None, Category::Health, Frequency::Daily, None, None, now()),
        Err(DomainError::InvalidHabitName(_))
    ));
    assert!(matches!(
        Habit::new("   ".to_string(), None, Category::Health, Frequency::Daily, None, None, now()),
        Err(DomainError::InvalidHabitName(_))
    ));
    assert!(matches!(
        Habit::new("Read".to_string(), Some("d".repeat(501)), Category::Social, Frequency::Daily, None, None, now()),
        Err(DomainError::Validation { .. })
    ));
    assert!(matches!(
        Habit::new("Read".to_string(), None, Category::Social, Frequency::Interval(0), None, None, now()),
        Err(DomainError::InvalidFrequency(_))
    ));
    assert!(matches!(
        Habit::new("Read".to_string(), None, Category::Social, Frequency::Daily, Some(10001), None, now()),
        Err(DomainError::InvalidValue { .. })
    ));
    assert!(matches!(
        Habit::new("Read".to_string(), None, Category::Social, Frequency::Daily, None, Some("  ".to_string()), now()),
        Err(DomainError::InvalidValue { .. })
    ));
}

#[test]
fn habit_update_is_all_or_nothing() {
    let mut habit = Habit::new(
        "Read".to_string(),
        None,
        Category::Personal,
        Frequency::Daily,
        Some(20),
        Some("pages".to_string()),
        now(),
    )
    .unwrap();
    let before = habit.clone();
    let bad = habit.update(Some("Read more".to_string()), None, None, Some(Some(0)), None, None);
    assert!(bad.is_err());
    assert_eq!(habit, before);
    let good = habit.update(Some("Read more".to_string()), None, Some(Frequency::Weekdays), None, None, Some(false));
    assert!(good.is_ok());
    assert_eq!(habit.name, "Read more");
    assert_eq!(habit.frequency, Frequency::Weekdays);
    assert!(!habit.is_active);
    assert_eq!(habit.target_value, Some(20));
    assert_eq!(habit.target_display(), Some("20 pages".to_string()));
}

#[test]
fn habit_ids_print_and_parse() {
    let id = HabitId::new();
    let text = id.to_string();
    assert_eq!(text.len(), 36);
    assert_eq!(HabitId::from_string(&text).unwrap(), id);
    assert!(HabitId::from_string("").is_err());
    assert!(HabitId::from_string("not-a-uuid").is_err());
}

#[test]
fn category_display_names() {
    assert_eq!(Category::Mindfulness.display_name(), "Mindfulness");
    assert_eq!(Category::Custom("Garden".to_string()).display_name(), "Garden");
}

#[test]
fn motivational_message_counts() {
    let mut streak = Streak::new(HabitId::new());
    streak.current_streak = 4;
    assert_eq!(
        streak.motivational_message(),
        "Nice work! 4 days in a row. You're building a strong habit."
    );
    streak.current_streak = 42;
    assert_eq!(
        streak.motivational_message(),
        "Incredible! 42 days of consistency. You're a habit master!"
    );
}

#[test]
fn on_track_windows() {
    let t = Date { day: 739000 };
    let mut streak = Streak::new(HabitId::new());
    assert!(!streak.is_on_track(&Frequency::Daily, t));
    streak.last_completed = Some(Date { day: t.day - 2 });
    assert!(!streak.is_on_track(&Frequency::Daily, t));
    assert!(streak.is_on_track(&Frequency::Weekdays, t));
    streak.last_completed = Some(Date { day: t.day - 7 });
    assert!(streak.is_on_track(&Frequency::Weekly(2), t));
    assert!(!streak.is_on_track(&Frequency::Interval(2), t));
}
