use chrono::{Datelike, NaiveDate};
use habit_tracker_mcp::calendar::completion_day;
use habit_tracker_mcp::{Date, EntryId, Frequency, HabitEntry, HabitId, Streak, Timestamp, Weekday};

fn ymd(y: i32, m: u32, d: u32) -> Date {
    Date { day: NaiveDate::from_ymd_opt(y, m, d).unwrap().num_days_from_ce() }
}

fn entry(day: Date) -> HabitEntry {
    HabitEntry::from_existing(
        EntryId::new(),
        HabitId::new(),
        Timestamp { unix_seconds: 0 },
        day,
        None,
        None,
        None,
    )
}

fn entries(days: &[Date]) -> Vec<HabitEntry> {
    days.iter().map(|d| entry(*d)).collect()
}

fn shifted(d: Date, by: i32) -> Date {
    Date { day: d.day + by }
}

fn calc(days: &[Date], f: &Frequency, created: Date, today: Date) -> Streak {
    Streak::calculate_from_entries(HabitId::new(), &entries(days), f, created, today)
}

fn rate(s: &Streak) -> f64 {
    s.completion_rate.numerator as f64 / s.completion_rate.denominator as f64
}

#[test]
fn empty_history_is_all_zero() {
    let today = ymd(2024, 5, 15);
    for f in [Frequency::Daily, Frequency::Weekly(3), Frequency::Interval(4), Frequency::Weekends] {
        let s = calc(&[], &f, ymd(2024, 1, 1), today);
        assert_eq!(s.current_streak, 0);
        assert_eq!(s.longest_streak, 0);
        assert_eq!(s.last_completed, None);
        assert_eq!(s.total_completions, 0);
        assert_eq!(rate(&s), 0.0);
    }
}

#[test]
fn daily_three_consecutive_days() {
    let today = ymd(2024, 5, 15);
    let s = calc(&[today, shifted(today, -1), shifted(today, -2)], &Frequency::Daily, ymd(2024, 5, 1), today);
    assert_eq!(s.current_streak, 3);
    assert_eq!(s.longest_streak, 3);
    assert_eq!(s.last_completed, Some(today));
}

#[test]
fn daily_gap_breaks_streak() {
    let today = ymd(2024, 5, 15);
    let s = calc(&[today, shifted(today, -3)], &Frequency::Daily, ymd(2024, 5, 1), today);
    assert_eq!(s.current_streak, 1);
    assert!(s.longest_streak >= 1);
}

#[test]
fn daily_unlogged_today_keeps_streak() {
    let today = ymd(2024, 5, 15);
    let s = calc(&[shifted(today, -1), shifted(today, -2)], &Frequency::Daily, ymd(2024, 5, 1), today);
    assert_eq!(s.current_streak, 2);
}

#[test]
fn weekly_target_two_qualifying_weeks() {
    // 2024-05-15 is a Wednesday; its week starts on Monday 2024-05-13.
    let today = ymd(2024, 5, 15);
    let days = [
        ymd(2024, 5, 13),
        ymd(2024, 5, 14),
        ymd(2024, 5, 15),
        ymd(2024, 5, 6),
        ymd(2024, 5, 8),
        ymd(2024, 5, 10),
    ];
    let s = calc(&days, &Frequency::Weekly(3), ymd(2024, 4, 1), today);
    assert_eq!(s.current_streak, 2);
    assert_eq!(s.longest_streak, 2);
}

#[test]
fn weekly_target_counts_a_day_once() {
    let today = ymd(2024, 5, 15);
    let days = [ymd(2024, 5, 13), ymd(2024, 5, 13), ymd(2024, 5, 14)];
    let s = calc(&days, &Frequency::Weekly(3), ymd(2024, 4, 1), today);
    assert_eq!(s.current_streak, 0);
    assert_eq!(s.total_completions, 3);
}

#[test]
fn interval_every_three_days() {
    let day0 = ymd(2024, 5, 1);
    let today = shifted(day0, 6);
    let s = calc(&[day0, shifted(day0, 3), shifted(day0, 6)], &Frequency::Interval(3), day0, today);
    assert_eq!(s.current_streak, 3);
    assert_eq!(s.longest_streak, 3);
}

#[test]
fn interval_lapsed() {
    let day0 = ymd(2024, 5, 1);
    let s = calc(&[day0, shifted(day0, 3)], &Frequency::Interval(3), day0, shifted(day0, 7));
    assert_eq!(s.current_streak, 0);
    assert_eq!(s.longest_streak, 2);
    let due_today = calc(&[day0, shifted(day0, 3)], &Frequency::Interval(3), day0, shifted(day0, 6));
    assert_eq!(due_today.current_streak, 2);
}

#[test]
fn rate_capped_when_over_logged() {
    let today = ymd(2024, 5, 15);
    let days = vec![today; 10];
    let s = calc(&days, &Frequency::Daily, today, today);
    assert_eq!(rate(&s), 1.0);
    assert_eq!(s.total_completions, 10);
    let weekly = calc(&[today, shifted(today, -1), shifted(today, -2)], &Frequency::Weekly(1), shifted(today, -2), today);
    assert_eq!(rate(&weekly), 1.0);
}

#[test]
fn rate_exact_values() {
    let today = ymd(2024, 5, 15);
    // 14 days at 3 a week: 6 expected, 3 done.
    let s = calc(&[today, shifted(today, -1), shifted(today, -5)], &Frequency::Weekly(3), shifted(today, -13), today);
    assert_eq!(rate(&s), 0.5);
    // 7 days on weekdays: 5 expected, 2 done.
    let w = calc(&[ymd(2024, 5, 14), ymd(2024, 5, 15)], &Frequency::Weekdays, shifted(today, -6), today);
    assert!((rate(&w) - 0.4).abs() < 1e-12);
    // Created after today: nothing expected.
    let f = calc(&[today], &Frequency::Daily, shifted(today, 1), today);
    assert_eq!(rate(&f), 0.0);
}

#[test]
fn weekly_longest_across_year_end() {
    // ISO week 52 of 2024 is Dec 23-29; week 1 of 2025 starts Monday Dec 30.
    let days = [ymd(2024, 12, 23), ymd(2024, 12, 24), ymd(2024, 12, 30), ymd(2025, 1, 2)];
    let s = calc(&days, &Frequency::Weekly(2), ymd(2024, 12, 1), ymd(2025, 3, 1));
    assert_eq!(s.current_streak, 0);
    assert_eq!(s.longest_streak, 2);
}

#[test]
fn weekly_longest_after_53_week_year() {
    // 2020 has 53 ISO weeks: week 52 is Dec 21-27, week 53 is Dec 28 - Jan 3,
    // and week 1 of 2021 is Jan 4-10.
    let days = [
        ymd(2020, 12, 21),
        ymd(2020, 12, 28),
        ymd(2021, 1, 1),
        ymd(2021, 1, 4),
        ymd(2021, 1, 9),
        ymd(2020, 12, 22),
    ];
    let s = calc(&days, &Frequency::Weekly(2), ymd(2020, 12, 1), ymd(2021, 6, 1));
    assert_eq!(s.longest_streak, 3);
}

#[test]
fn weekly_gap_week_breaks_run() {
    let days = [ymd(2024, 5, 6), ymd(2024, 5, 20)];
    let s = calc(&days, &Frequency::Weekly(1), ymd(2024, 5, 1), ymd(2024, 7, 1));
    assert_eq!(s.longest_streak, 1);
}

#[test]
fn weekdays_skip_the_weekend() {
    // 2024-05-18 is a Saturday.
    let s = calc(
        &[ymd(2024, 5, 17), ymd(2024, 5, 16), ymd(2024, 5, 15)],
        &Frequency::Weekdays,
        ymd(2024, 5, 1),
        ymd(2024, 5, 18),
    );
    assert_eq!(s.current_streak, 3);
    let across = calc(
        &[ymd(2024, 5, 14), ymd(2024, 5, 13), ymd(2024, 5, 10), ymd(2024, 5, 9)],
        &Frequency::Weekdays,
        ymd(2024, 5, 1),
        ymd(2024, 5, 14),
    );
    assert_eq!(across.current_streak, 4);
    assert_eq!(across.longest_streak, 4);
    let missed_friday = calc(&[ymd(2024, 5, 16)], &Frequency::Weekdays, ymd(2024, 5, 1), ymd(2024, 5, 18));
    assert_eq!(missed_friday.current_streak, 0);
}

#[test]
fn weekends_only() {
    let s = calc(
        &[ymd(2024, 5, 12), ymd(2024, 5, 11), ymd(2024, 5, 5)],
        &Frequency::Weekends,
        ymd(2024, 5, 1),
        ymd(2024, 5, 15),
    );
    assert_eq!(s.current_streak, 3);
}

#[test]
fn custom_days() {
    let f = Frequency::Custom(vec![Weekday::Mon, Weekday::Wed]);
    // Today, Wednesday 2024-05-15, is not logged yet.
    let s = calc(&[ymd(2024, 5, 13), ymd(2024, 5, 8), ymd(2024, 5, 6)], &f, ymd(2024, 5, 1), ymd(2024, 5, 15));
    assert_eq!(s.current_streak, 3);
    assert_eq!(s.longest_streak, 3);
    assert!(f.is_scheduled_for_date(ymd(2024, 5, 15)));
    assert!(!f.is_scheduled_for_date(ymd(2024, 5, 16)));
}

#[test]
fn duplicates_do_not_break_runs() {
    let d = ymd(2023, 3, 1);
    let s = calc(&[d, shifted(d, 1), shifted(d, 1), shifted(d, 2)], &Frequency::Daily, d, ymd(2024, 1, 1));
    assert_eq!(s.longest_streak, 3);
    assert_eq!(s.current_streak, 0);
    assert_eq!(s.total_completions, 4);
    assert_eq!(s.last_completed, Some(shifted(d, 2)));
}

#[test]
fn longest_streak_from_the_past() {
    let start = ymd(2023, 1, 1);
    let mut days: Vec<Date> = (0..10).map(|i| shifted(start, i)).collect();
    days.push(ymd(2024, 5, 15));
    let s = calc(&days, &Frequency::Daily, start, ymd(2024, 5, 15));
    assert_eq!(s.longest_streak, 10);
    assert_eq!(s.current_streak, 1);
    assert_eq!(s.last_completed, Some(ymd(2024, 5, 15)));
}

#[test]
fn same_inputs_same_result() {
    let today = ymd(2024, 5, 15);
    let list = entries(&[today, shifted(today, -1), shifted(today, -4)]);
    let id = HabitId::new();
    let a = Streak::calculate_from_entries(id.clone(), &list, &Frequency::Weekdays, ymd(2024, 1, 1), today);
    let b = Streak::calculate_from_entries(id, &list, &Frequency::Weekdays, ymd(2024, 1, 1), today);
    assert_eq!(a, b);
}

#[test]
fn longest_never_below_current_and_rate_in_range() {
    let today = ymd(2024, 5, 15);
    let cases = [
        Frequency::Daily,
        Frequency::Weekly(2),
        Frequency::Weekdays,
        Frequency::Weekends,
        Frequency::Custom(vec![Weekday::Tue]),
        Frequency::Interval(2),
    ];
    let days: Vec<Date> = (0..40).filter(|i| i % 3 != 0).map(|i| shifted(today, -i)).collect();
    for f in cases.iter() {
        let s = calc(&days, f, shifted(today, -20), today);
        assert!(s.longest_streak >= s.current_streak);
        let r = rate(&s);
        assert!((0.0..=1.0).contains(&r));
    }
}

#[test]
fn weekday_of_known_dates() {
    assert_eq!(ymd(2024, 5, 15).weekday(), Weekday::Wed);
    assert_eq!(ymd(2025, 1, 1).weekday(), Weekday::Wed);
    assert_eq!(ymd(1, 1, 1).weekday(), Weekday::Mon);
    assert_eq!(Date { day: -3 }.weekday(), Weekday::Thu);
    let noon = Timestamp { unix_seconds: 1715774400 };
    assert_eq!(noon.date(), ymd(2024, 5, 15));
    let before_epoch = Timestamp { unix_seconds: -1 };
    assert_eq!(before_epoch.date(), ymd(1969, 12, 31));
}

#[test]
fn completion_day_from_text() {
    let today = ymd(2024, 5, 15);
    assert_eq!(completion_day(None, today), Some(today));
    assert_eq!(completion_day(Some("2024-02-29"), today), Some(ymd(2024, 2, 29)));
    assert_eq!(completion_day(Some("2023-02-29"), today), None);
    assert_eq!(completion_day(Some("15/05/2024"), today), None);
}
