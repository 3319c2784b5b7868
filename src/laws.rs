//! Properties of the streak engine, proved for all inputs.

use vstd::prelude::*;
use crate::calendar::Date;
use crate::ids::HabitId;
use crate::calendar::{monday_of, weekday_index};
use crate::streak::{
    best_week_run, completion_rate_of, days_logged, days_since_creation, expected_sevenths,
    insert_sorted, is_streak_of, latest_logged, logged, longest_run_of, sorted_days, week_buckets,
    week_run, CompletionRate, Streak,
};
use crate::types::Frequency;

verus! {

/// No day of an empty history is logged.
proof fn lemma_days_logged_empty(start: int, len: nat)
    ensures
        days_logged(Seq::<Date>::empty(), start, len) == 0,
    decreases len,
{
    if len > 0 {
        lemma_days_logged_empty(start + 1, (len - 1) as nat);
    }
}

/// An empty history has no latest logged day.
proof fn lemma_latest_logged_empty(c: int, fuel: nat)
    ensures
        latest_logged(Seq::<Date>::empty(), c, fuel) is None,
    decreases fuel,
{
    if fuel > 0 {
        lemma_latest_logged_empty(c - 1, (fuel - 1) as nat);
    }
}

/// The completion rate is a fraction between 0 and 1 whatever the number of
/// completions, and exactly 1 once completions reach what the schedule expects.
pub proof fn law_completion_rate_at_most_one(total: nat, f: Frequency, created: Date, today: Date)
    requires
        f.is_valid(),
    ensures
        completion_rate_of(total, f, created, today).is_valid(),
        total > 0 && 0 < expected_sevenths(f, days_since_creation(created, today)) <= 7 * total
            ==> completion_rate_of(total, f, created, today) == (CompletionRate {
            numerator: 1,
            denominator: 1,
        }),
{
    let span = days_since_creation(created, today);
    let per_week: int = match f {
        Frequency::Weekly(t) => t as int,
        Frequency::Weekdays => 5,
        Frequency::Weekends => 2,
        _ => 7,
    };
    assert(expected_sevenths(f, span) == span * per_week);
    assert(span * per_week <= 5000000000 * 7) by (nonlinear_arith)
        requires
            span <= 5000000000,
            1 <= per_week <= 7,
    ;
}

/// The longest streak is never shorter than the current streak, and the
/// completion rate lies in `[0, 1]`.
pub proof fn law_longest_at_least_current(
    r: Streak,
    habit_id: HabitId,
    ds: Seq<Date>,
    f: Frequency,
    created: Date,
    today: Date,
)
    requires
        f.is_valid(),
        is_streak_of(r, habit_id, ds, f, created, today),
    ensures
        r.longest_streak >= r.current_streak,
        r.completion_rate.is_valid(),
{
    law_completion_rate_at_most_one(ds.len(), f, created, today);
}

/// The calculation is a function of its inputs: two results for the same
/// inputs are identical.
pub proof fn law_calculation_deterministic(
    r1: Streak,
    r2: Streak,
    habit_id: HabitId,
    ds: Seq<Date>,
    f: Frequency,
    created: Date,
    today: Date,
)
    requires
        is_streak_of(r1, habit_id, ds, f, created, today),
        is_streak_of(r2, habit_id, ds, f, created, today),
    ensures
        r1 == r2,
{
}

/// With no completions every count is zero, there is no last completion and
/// the completion rate is 0.
pub proof fn law_empty_history(r: Streak, habit_id: HabitId, f: Frequency, created: Date, today: Date)
    requires
        f.is_valid(),
        is_streak_of(r, habit_id, Seq::<Date>::empty(), f, created, today),
    ensures
        r.current_streak == 0,
        r.longest_streak == 0,
        r.last_completed is None,
        r.total_completions == 0,
        r.completion_rate == CompletionRate::spec_zero(),
{
    let ds = Seq::<Date>::empty();
    let t = today.day as int;
    match f {
        Frequency::Weekly(w) => {
            lemma_days_logged_empty(crate::calendar::monday_of(t), 7);
        },
        Frequency::Interval(n) => {
            lemma_latest_logged_empty(t, n as nat);
        },
        _ => {},
    }
    assert(sorted_days(ds) =~= Seq::<i32>::empty());
    assert(week_buckets(Seq::<i32>::empty()) =~= Seq::<(int, nat)>::empty());
}

/// Each element of `s` is below every later one.
spec fn strictly_increasing(s: Seq<i32>) -> bool {
    forall|i: int, j: int| 0 <= i < j < s.len() ==> s[i] < s[j]
}

/// `d` is an element of `s`.
spec fn holds(s: Seq<i32>, d: int) -> bool {
    exists|i: int| 0 <= i < s.len() && s[i] == d
}

proof fn lemma_insert_sorted_props(s: Seq<i32>, x: i32)
    requires
        strictly_increasing(s),
    ensures
        strictly_increasing(insert_sorted(s, x)),
        forall|d: int| #[trigger] holds(insert_sorted(s, x), d) <==> (holds(s, d) || d == x),
    decreases s.len(),
{
    let r = insert_sorted(s, x);
    if s.len() == 0 {
        assert(r[0] == x);
        assert forall|d: int| holds(r, d) <==> (holds(s, d) || d == x) by {
            if d == x {
                assert(r[0] == d);
            }
        }
    } else if x < s[0] {
        assert(r =~= seq![x] + s);
        assert forall|d: int| holds(r, d) <==> (holds(s, d) || d == x) by {
            if d == x {
                assert(r[0] == d);
            }
            if holds(s, d) {
                let i = choose|i: int| 0 <= i < s.len() && s[i] == d;
                assert(r[i + 1] == d);
            }
            if holds(r, d) {
                let i = choose|i: int| 0 <= i < r.len() && r[i] == d;
                if i > 0 {
                    assert(s[i - 1] == d);
                }
            }
        }
    } else if x == s[0] {
        assert forall|d: int| holds(r, d) <==> (holds(s, d) || d == x) by {
            if d == x {
                assert(s[0] == d);
            }
        }
    } else {
        let t = s.drop_first();
        assert(strictly_increasing(t)) by {
            assert forall|i: int, j: int| 0 <= i < j < t.len() implies t[i] < t[j] by {
                assert(t[i] == s[i + 1] && t[j] == s[j + 1]);
            }
        }
        lemma_insert_sorted_props(t, x);
        let u = insert_sorted(t, x);
        assert(r =~= seq![s[0]] + u);
        assert forall|k: int| 0 <= k < u.len() implies s[0] < u[k] by {
            assert(holds(u, u[k] as int));
            if holds(t, u[k] as int) {
                let i = choose|i: int| 0 <= i < t.len() && t[i] == u[k];
                assert(t[i] == s[i + 1]);
            }
        }
        assert(strictly_increasing(r)) by {
            assert forall|i: int, j: int| 0 <= i < j < r.len() implies r[i] < r[j] by {
                if i == 0 {
                    assert(r[j] == u[j - 1]);
                } else {
                    assert(r[i] == u[i - 1] && r[j] == u[j - 1]);
                }
            }
        }
        assert forall|d: int| holds(r, d) <==> (holds(s, d) || d == x) by {
            if holds(r, d) {
                let i = choose|i: int| 0 <= i < r.len() && r[i] == d;
                if i == 0 {
                    assert(s[0] == d);
                } else {
                    assert(u[i - 1] == d);
                    assert(holds(u, d));
                    if holds(t, d) {
                        let k = choose|k: int| 0 <= k < t.len() && t[k] == d;
                        assert(s[k + 1] == d);
                    }
                }
            }
            if holds(s, d) {
                let i = choose|i: int| 0 <= i < s.len() && s[i] == d;
                if i == 0 {
                    assert(r[0] == d);
                } else {
                    assert(t[i - 1] == d);
                    assert(holds(t, d));
                    assert(holds(u, d));
                    let k = choose|k: int| 0 <= k < u.len() && u[k] == d;
                    assert(r[k + 1] == d);
                }
            }
            if d == x {
                assert(holds(t, d) || d == x);
                assert(holds(insert_sorted(t, x), d));
                let k = choose|k: int| 0 <= k < u.len() && u[k] == d;
                assert(r[k + 1] == d);
            }
        }
    }
}

proof fn lemma_sorted_days_props(ds: Seq<Date>)
    ensures
        strictly_increasing(sorted_days(ds)),
        forall|d: int| holds(sorted_days(ds), d) <==> logged(ds, d),
    decreases ds.len(),
{
    if ds.len() == 0 {
    } else {
        let p = ds.drop_last();
        lemma_sorted_days_props(p);
        lemma_insert_sorted_props(sorted_days(p), ds.last().day);
        assert forall|d: int| logged(ds, d) <==> (logged(p, d) || d == ds.last().day) by {
            if logged(ds, d) {
                let i = choose|i: int| 0 <= i < ds.len() && ds[i].day == d;
                if i < ds.len() - 1 {
                    assert(p[i].day == d);
                }
            }
            if logged(p, d) {
                let i = choose|i: int| 0 <= i < p.len() && p[i].day == d;
                assert(ds[i].day == d);
            }
            if d == ds.last().day {
                assert(ds[ds.len() - 1].day == d);
            }
        }
    }
}

/// How many elements of `s` fall in the week that starts on `w`.
spec fn week_count(s: Seq<i32>, w: int) -> nat
    decreases s.len(),
{
    if s.len() == 0 {
        0
    } else {
        week_count(s.drop_last(), w) + (if monday_of(s.last() as int) == w { 1nat } else { 0nat })
    }
}

/// How many of the `len` days from `start` on are elements of `s`.
spec fn held_days(s: Seq<i32>, start: int, len: nat) -> nat
    decreases len,
{
    if len == 0 {
        0
    } else {
        (if holds(s, start) { 1nat } else { 0nat }) + held_days(s, start + 1, (len - 1) as nat)
    }
}

proof fn lemma_monday(x: int)
    ensures
        monday_of(x) == 7 * ((x - 1) / 7) + 1,
        (monday_of(x) - 1) % 7 == 0,
        monday_of(x) <= x < monday_of(x) + 7,
{
    vstd::arithmetic::div_mod::lemma_fundamental_div_mod(x - 1, 7);
    vstd::arithmetic::div_mod::lemma_mod_multiples_basic((x - 1) / 7, 7);
    assert((7 * ((x - 1) / 7)) % 7 == 0) by {
        vstd::arithmetic::div_mod::lemma_mod_multiples_basic((x - 1) / 7, 7);
    }
}

proof fn lemma_monday_monotone(x: int, y: int)
    requires
        x <= y,
    ensures
        monday_of(x) <= monday_of(y),
{
    lemma_monday(x);
    lemma_monday(y);
    vstd::arithmetic::div_mod::lemma_div_is_ordered(x - 1, y - 1, 7);
}

/// For a Monday `m`, day `x` lies in the week of `m` exactly when its
/// Monday is `m`.
proof fn lemma_same_week(m: int, x: int)
    requires
        (m - 1) % 7 == 0,
    ensures
        monday_of(x) == m <==> m <= x < m + 7,
{
    lemma_monday(x);
    vstd::arithmetic::div_mod::lemma_fundamental_div_mod(m - 1, 7);
}

proof fn lemma_week_buckets(s: Seq<i32>)
    requires
        strictly_increasing(s),
    ensures
        ({
            let b = week_buckets(s);
            &&& forall|j: int| 0 <= j < b.len() ==> ((#[trigger] b[j]).0 - 1) % 7 == 0
            &&& forall|i: int, j: int| 0 <= i < j < b.len() ==> b[i].0 < b[j].0
            &&& forall|j: int| 0 <= j < b.len() ==> (#[trigger] b[j]).1 == week_count(s, b[j].0)
            &&& forall|w: int| #[trigger] week_count(s, w) > 0 ==> exists|j: int| 0 <= j < b.len() && b[j].0 == w
            &&& s.len() > 0 ==> b.len() > 0 && b.last().0 == monday_of(s.last() as int)
        }),
    decreases s.len(),
{
    if s.len() > 0 {
        let p = s.drop_last();
        let x = s.last() as int;
        assert(strictly_increasing(p)) by {
            assert forall|i: int, j: int| 0 <= i < j < p.len() implies p[i] < p[j] by {
                assert(p[i] == s[i] && p[j] == s[j]);
            }
        }
        lemma_week_buckets(p);
        let bp = week_buckets(p);
        let w = monday_of(x);
        lemma_monday(x);
        if p.len() > 0 {
            assert(p.last() == s[s.len() - 2]);
            lemma_monday_monotone(p.last() as int, x);
        }
        let b = week_buckets(s);
        if bp.len() > 0 && bp.last().0 == w {
            assert(b == bp.update(bp.len() - 1, (w, bp.last().1 + 1)));
            assert forall|j: int| 0 <= j < b.len() implies (#[trigger] b[j]).1 == week_count(s, b[j].0) by {
                if j < bp.len() - 1 {
                    assert(b[j] == bp[j]);
                    assert(bp[j].0 < bp[bp.len() - 1].0);
                }
            }
            assert forall|v: int| #[trigger] week_count(s, v) > 0 implies exists|j: int| 0 <= j < b.len() && b[j].0 == v by {
                if week_count(p, v) > 0 {
                    let j = choose|j: int| 0 <= j < bp.len() && bp[j].0 == v;
                    assert(b[j].0 == v);
                } else {
                    assert(b[b.len() - 1].0 == v);
                }
            }
            assert forall|i: int, j: int| 0 <= i < j < b.len() implies b[i].0 < b[j].0 by {
                assert(b[i].0 == bp[i].0 && b[j].0 == bp[j].0);
            }
            assert forall|j: int| 0 <= j < b.len() implies ((#[trigger] b[j]).0 - 1) % 7 == 0 by {
                assert(b[j].0 == bp[j].0);
            }
        } else {
            assert(b == bp.push((w, 1)));
            if bp.len() > 0 {
                assert(bp.last().0 < w);
            }
            assert(week_count(p, w) == 0) by {
                if week_count(p, w) > 0 {
                    let j = choose|j: int| 0 <= j < bp.len() && bp[j].0 == w;
                    if j < bp.len() - 1 {
                        assert(bp[j].0 < bp[bp.len() - 1].0);
                    }
                }
            }
            assert forall|j: int| 0 <= j < b.len() implies (#[trigger] b[j]).1 == week_count(s, b[j].0) by {
                if j < bp.len() {
                    assert(b[j] == bp[j]);
                    if j < bp.len() - 1 {
                        assert(bp[j].0 < bp[bp.len() - 1].0);
                    }
                }
            }
            assert forall|v: int| #[trigger] week_count(s, v) > 0 implies exists|j: int| 0 <= j < b.len() && b[j].0 == v by {
                if week_count(p, v) > 0 {
                    let j = choose|j: int| 0 <= j < bp.len() && bp[j].0 == v;
                    assert(b[j].0 == v);
                } else {
                    assert(b[b.len() - 1].0 == v);
                }
            }
            assert forall|i: int, j: int| 0 <= i < j < b.len() implies b[i].0 < b[j].0 by {
                if j < bp.len() {
                    assert(b[i].0 == bp[i].0 && b[j].0 == bp[j].0);
                } else if i < bp.len() - 1 {
                    assert(b[i].0 == bp[i].0);
                    assert(bp[i].0 < bp[bp.len() - 1].0);
                } else {
                    assert(b[i].0 == bp[i].0);
                }
            }
            assert forall|j: int| 0 <= j < b.len() implies ((#[trigger] b[j]).0 - 1) % 7 == 0 by {
                if j < bp.len() {
                    assert(b[j].0 == bp[j].0);
                }
            }
        }
    }
}

proof fn lemma_held_days_logged(ds: Seq<Date>, s: Seq<i32>, start: int, len: nat)
    requires
        forall|d: int| holds(s, d) <==> logged(ds, d),
    ensures
        days_logged(ds, start, len) == held_days(s, start, len),
    decreases len,
{
    if len > 0 {
        lemma_held_days_logged(ds, s, start + 1, (len - 1) as nat);
    }
}

proof fn lemma_held_days_push(s: Seq<i32>, x: i32, start: int, len: nat)
    requires
        !holds(s, x as int),
    ensures
        held_days(s.push(x), start, len) == held_days(s, start, len) + (if start <= x < start + len {
            1nat
        } else {
            0nat
        }),
    decreases len,
{
    let t = s.push(x);
    assert(holds(t, start) <==> (holds(s, start) || start == x)) by {
        if holds(t, start) {
            let i = choose|i: int| 0 <= i < t.len() && t[i] == start;
            if i < s.len() {
                assert(s[i] == start);
            }
        }
        if holds(s, start) {
            let i = choose|i: int| 0 <= i < s.len() && s[i] == start;
            assert(t[i] == start);
        }
        if start == x {
            assert(t[s.len() as int] == start);
        }
    }
    if len > 0 {
        lemma_held_days_push(s, x, start + 1, (len - 1) as nat);
    }
}

proof fn lemma_held_days_none(s: Seq<i32>, start: int, len: nat)
    requires
        s.len() == 0,
    ensures
        held_days(s, start, len) == 0,
    decreases len,
{
    if len > 0 {
        assert(!holds(s, start));
        lemma_held_days_none(s, start + 1, (len - 1) as nat);
    }
}

/// For a Monday `m`, the elements of `s` in its week are its held days.
proof fn lemma_week_count_held(s: Seq<i32>, m: int)
    requires
        strictly_increasing(s),
        (m - 1) % 7 == 0,
    ensures
        week_count(s, m) == held_days(s, m, 7),
    decreases s.len(),
{
    if s.len() == 0 {
        lemma_held_days_none(s, m, 7);
    } else {
        let p = s.drop_last();
        let x = s.last();
        assert(strictly_increasing(p)) by {
            assert forall|i: int, j: int| 0 <= i < j < p.len() implies p[i] < p[j] by {
                assert(p[i] == s[i] && p[j] == s[j]);
            }
        }
        assert(!holds(p, x as int)) by {
            if holds(p, x as int) {
                let i = choose|i: int| 0 <= i < p.len() && p[i] == x;
                assert(s[i] < s[s.len() - 1]);
            }
        }
        lemma_week_count_held(p, m);
        lemma_held_days_push(p, x, m, 7);
        assert(p.push(x) =~= s);
        lemma_same_week(m, x as int);
    }
}

/// The longest run of qualifying weeks is at least the run ending at any bucket.
proof fn lemma_best_week_run_bound(b: Seq<(int, nat)>, t: int, k: int, j: int)
    requires
        0 <= j < k,
    ensures
        best_week_run(b, t, k) >= week_run(b, t, j),
    decreases k,
{
    if j < k - 1 {
        lemma_best_week_run_bound(b, t, k - 1, j);
    }
}

/// Under a weekly target, two adjacent Monday-aligned weeks that both reach
/// the target are consecutive, also where they straddle a year boundary
/// (ISO week 52 or 53 and week 1 of the next year): the longest streak is
/// then at least 2.
pub proof fn law_adjacent_qualifying_weeks(
    r: Streak,
    habit_id: HabitId,
    ds: Seq<Date>,
    target: u8,
    created: Date,
    today: Date,
    monday: int,
)
    requires
        1 <= target <= 7,
        weekday_index(monday) == 0,
        days_logged(ds, monday, 7) >= target,
        days_logged(ds, monday + 7, 7) >= target,
        is_streak_of(r, habit_id, ds, Frequency::Weekly(target), created, today),
    ensures
        r.longest_streak >= 2,
{
    let s = sorted_days(ds);
    let b = week_buckets(s);
    let t = target as int;
    let m2 = monday + 7;
    lemma_sorted_days_props(ds);
    lemma_week_buckets(s);
    assert((m2 - 1) % 7 == 0) by {
        vstd::arithmetic::div_mod::lemma_fundamental_div_mod(monday - 1, 7);
        vstd::arithmetic::div_mod::lemma_fundamental_div_mod(m2 - 1, 7);
    }
    lemma_held_days_logged(ds, s, monday, 7);
    lemma_held_days_logged(ds, s, m2, 7);
    lemma_week_count_held(s, monday);
    lemma_week_count_held(s, m2);
    assert(week_count(s, monday) > 0);
    assert(week_count(s, m2) > 0);
    let j1 = choose|j: int| 0 <= j < b.len() && b[j].0 == monday;
    let j2 = choose|j: int| 0 <= j < b.len() && b[j].0 == m2;
    assert(b[j1].1 == week_count(s, monday));
    assert(b[j2].1 == week_count(s, m2));
    if j2 <= j1 {
        if j2 < j1 {
            assert(b[j2].0 < b[j1].0);
        }
    }
    assert(j1 < j2);
    if j1 + 1 < j2 {
        let k = b[j1 + 1].0;
        assert(b[j1].0 < k && k < b[j2].0);
        assert((k - 1) % 7 == 0);
        vstd::arithmetic::div_mod::lemma_fundamental_div_mod(k - 1, 7);
        vstd::arithmetic::div_mod::lemma_fundamental_div_mod(monday - 1, 7);
    }
    assert(j2 == j1 + 1);
    assert(week_run(b, t, j1) >= 1);
    assert(week_run(b, t, j2) == week_run(b, t, j1) + 1);
    lemma_best_week_run_bound(b, t, b.len() as int, j2);
    assert(longest_run_of(ds, Frequency::Weekly(target)) >= 2);
}

} // verus!
