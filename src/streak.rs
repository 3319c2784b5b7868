//! The streak and completion-rate engine.
//!
//! Every quantity is defined by a spec function over the completion dates
//! (a `Seq<Date>`, duplicates allowed) and proved equal to what the
//! executable code computes.

use vstd::prelude::*;
use vstd::string::StringExecFns;
use crate::calendar::{Date, monday_of, weekday_index_of_day};
use crate::entry::HabitEntry;
use crate::ids::HabitId;
use crate::text::{decimal, decimal_string};
use crate::types::Frequency;

verus! {

/// How many qualifying days (or intervals) the current-streak walk visits at most.
pub const MAX_WALK: u32 = 365;

/// How many weeks the weekly current-streak walk visits at most.
pub const MAX_WEEKS: u32 = 52;

/// Some completion falls on day number `d`.
pub open spec fn logged(ds: Seq<Date>, d: int) -> bool {
    exists|i: int| 0 <= i < ds.len() && ds[i].day == d
}

/// Whether some completion falls on day number `d`.
pub fn contains_day(ds: &[Date], d: i64) -> (r: bool)
    ensures
        r == logged(ds@, d as int),
{
    let mut i: usize = 0;
    while i < ds.len()
        invariant
            0 <= i <= ds@.len(),
            forall|j: int| 0 <= j < i ==> ds@[j].day != d,
        decreases ds@.len() - i,
    {
        if ds[i].day as i64 == d {
            assert(ds@[i as int].day == d);
            return true;
        }
        i = i + 1;
    }
    false
}

/// The occasion before day `d` on a day-based walk: the previous qualifying
/// day, or `n` days earlier for an interval of `n` days.
pub open spec fn step_back(f: Frequency, d: int) -> int {
    match f {
        Frequency::Interval(n) => d - n,
        _ => f.prev_qualifying(d),
    }
}

/// The number of consecutive logged occasions going back from day `d`,
/// visiting at most `fuel` of them.
pub open spec fn count_back(ds: Seq<Date>, f: Frequency, d: int, fuel: nat) -> nat
    decreases fuel,
{
    if fuel == 0 || !logged(ds, d) {
        0
    } else {
        1 + count_back(ds, f, step_back(f, d), (fuel - 1) as nat)
    }
}

/// Where the backward walk starts for a day-pattern schedule: today when it
/// qualifies and is logged; otherwise the latest qualifying day before today,
/// so that an unlogged today does not break a streak still in progress.
pub open spec fn walk_start(ds: Seq<Date>, f: Frequency, today: int) -> int {
    if f.qualifies(today) && logged(ds, today) {
        today
    } else {
        f.prev_qualifying(today)
    }
}

/// The latest logged day among `c`, `c - 1`, ..., `c - fuel`.
pub open spec fn latest_logged(ds: Seq<Date>, c: int, fuel: nat) -> Option<int>
    decreases fuel,
{
    if logged(ds, c) {
        Some(c)
    } else if fuel == 0 {
        None
    } else {
        latest_logged(ds, c - 1, (fuel - 1) as nat)
    }
}

/// How many of the `len` days from day `start` on are logged.
pub open spec fn days_logged(ds: Seq<Date>, start: int, len: nat) -> nat
    decreases len,
{
    if len == 0 {
        0
    } else {
        (if logged(ds, start) { 1nat } else { 0nat }) + days_logged(ds, start + 1, (len - 1) as nat)
    }
}

/// The number of consecutive weeks, going back from the week that starts on
/// `monday`, with at least `target` logged days each, visiting at most `fuel` weeks.
pub open spec fn count_weeks(ds: Seq<Date>, monday: int, target: int, fuel: nat) -> nat
    decreases fuel,
{
    if fuel == 0 || days_logged(ds, monday, 7) < target {
        0
    } else {
        1 + count_weeks(ds, monday - 7, target, (fuel - 1) as nat)
    }
}

/// The current streak: consecutive qualifying occasions, each logged,
/// ending at or just before `today`.
pub open spec fn current_streak_of(ds: Seq<Date>, f: Frequency, today: int) -> nat {
    match f {
        Frequency::Weekly(t) => count_weeks(ds, monday_of(today), t as int, MAX_WEEKS as nat),
        Frequency::Interval(n) => match latest_logged(ds, today, n as nat) {
            Some(s) => count_back(ds, f, s, MAX_WALK as nat),
            None => 0,
        },
        _ => count_back(ds, f, walk_start(ds, f, today), MAX_WALK as nat),
    }
}

/// The number of consecutive logged occasions going back from `start`.
fn count_back_from(ds: &[Date], f: &Frequency, start: i64) -> (r: u32)
    requires
        f.is_valid(),
        i32::MIN - 400 <= start <= i32::MAX,
    ensures
        r as int == count_back(ds@, *f, start as int, MAX_WALK as nat),
        r <= MAX_WALK,
{
    let mut d: i64 = start;
    let mut n: u32 = 0;
    let mut fuel: u32 = MAX_WALK;
    while fuel > 0 && contains_day(ds, d)
        invariant
            f.is_valid(),
            i32::MIN - 400 <= start <= i32::MAX,
            fuel <= MAX_WALK,
            n == MAX_WALK - fuel,
            start - 365 * (MAX_WALK - fuel) <= d <= start,
            n + count_back(ds@, *f, d as int, fuel as nat) == count_back(
                ds@,
                *f,
                start as int,
                MAX_WALK as nat,
            ),
        decreases fuel,
    {
        d = match f {
            Frequency::Interval(k) => d - *k as i64,
            _ => f.prev_qualifying_day(d),
        };
        n = n + 1;
        fuel = fuel - 1;
    }
    n
}

/// The latest logged day among `c`, `c - 1`, ..., `c - fuel`.
fn find_latest_logged(ds: &[Date], c: i64, fuel: u32) -> (r: Option<i64>)
    requires
        i32::MIN <= c <= i32::MAX,
        fuel <= 365,
    ensures
        r matches Some(s) ==> latest_logged(ds@, c as int, fuel as nat) == Some(s as int),
        r is None ==> latest_logged(ds@, c as int, fuel as nat) is None,
        r matches Some(s) ==> c - fuel <= s <= c,
{
    let mut d: i64 = c;
    let mut k: u32 = fuel;
    loop
        invariant
            i32::MIN <= c <= i32::MAX,
            fuel <= 365,
            k <= fuel,
            d == c - (fuel - k),
            latest_logged(ds@, d as int, k as nat) == latest_logged(ds@, c as int, fuel as nat),
        decreases k,
    {
        if contains_day(ds, d) {
            return Some(d);
        }
        if k == 0 {
            return None;
        }
        d = d - 1;
        k = k - 1;
    }
}

/// How many of the 7 days from day `start` on are logged.
fn week_days_logged(ds: &[Date], start: i64) -> (r: u32)
    requires
        i32::MIN - 400 <= start <= i32::MAX,
    ensures
        r as int == days_logged(ds@, start as int, 7),
        r <= 7,
{
    let mut n: u32 = 0;
    let mut i: u32 = 7;
    let mut d: i64 = start + 6;
    while i > 0
        invariant
            i32::MIN - 400 <= start <= i32::MAX,
            i <= 7,
            d == start + i - 1,
            n <= 7 - i,
            n as int == days_logged(ds@, start + i, (7 - i) as nat),
        decreases i,
    {
        if contains_day(ds, d) {
            n = n + 1;
        }
        proof {
            let here: nat = if logged(ds@, d as int) { 1 } else { 0 };
            assert(days_logged(ds@, d as int, (7 - i + 1) as nat) == here + days_logged(
                ds@,
                d + 1,
                (7 - i) as nat,
            ));
        }
        i = i - 1;
        d = d - 1;
    }
    n
}

/// The number of consecutive weeks, going back from the week that starts on
/// `monday`, with at least `target` logged days each.
fn count_weeks_from(ds: &[Date], monday: i64, target: u8) -> (r: u32)
    requires
        i32::MIN - 8 <= monday <= i32::MAX,
    ensures
        r as int == count_weeks(ds@, monday as int, target as int, MAX_WEEKS as nat),
        r <= MAX_WEEKS,
{
    let mut m: i64 = monday;
    let mut n: u32 = 0;
    let mut fuel: u32 = MAX_WEEKS;
    while fuel > 0 && week_days_logged(ds, m) >= target as u32
        invariant
            i32::MIN - 8 <= monday <= i32::MAX,
            fuel <= MAX_WEEKS,
            n == MAX_WEEKS - fuel,
            m == monday - 7 * (MAX_WEEKS - fuel),
            n + count_weeks(ds@, m as int, target as int, fuel as nat) == count_weeks(
                ds@,
                monday as int,
                target as int,
                MAX_WEEKS as nat,
            ),
        decreases fuel,
    {
        m = m - 7;
        n = n + 1;
        fuel = fuel - 1;
    }
    n
}

/// The current streak of the completions `ds` under schedule `f` as of `today`.
pub fn current_streak(ds: &[Date], f: &Frequency, today: Date) -> (r: u32)
    requires
        f.is_valid(),
    ensures
        r as int == current_streak_of(ds@, *f, today.day as int),
        r <= MAX_WALK,
{
    let t: i64 = today.day as i64;
    match f {
        Frequency::Weekly(target) => {
            let monday = t - weekday_index_of_day(t) as i64;
            count_weeks_from(ds, monday, *target)
        },
        Frequency::Interval(n) => match find_latest_logged(ds, t, *n) {
            Some(s) => count_back_from(ds, f, s),
            None => 0,
        },
        _ => {
            let start = if f.qualifies_day(t) && contains_day(ds, t) {
                t
            } else {
                f.prev_qualifying_day(t)
            };
            count_back_from(ds, f, start)
        },
    }
}

/// `x` inserted into `s` at its place in ascending order, unless already there.
pub open spec fn insert_sorted(s: Seq<i32>, x: i32) -> Seq<i32>
    decreases s.len(),
{
    if s.len() == 0 {
        seq![x]
    } else if x < s[0] {
        seq![x] + s
    } else if x == s[0] {
        s
    } else {
        seq![s[0]] + insert_sorted(s.drop_first(), x)
    }
}

/// The distinct completion days, in ascending order.
pub open spec fn sorted_days(ds: Seq<Date>) -> Seq<i32>
    decreases ds.len(),
{
    if ds.len() == 0 {
        seq![]
    } else {
        insert_sorted(sorted_days(ds.drop_last()), ds.last().day)
    }
}

/// Inserting before the first element not below `x`.
proof fn lemma_insert_at(s: Seq<i32>, x: i32, i: int)
    requires
        0 <= i <= s.len(),
        forall|j: int| 0 <= j < i ==> s[j] < x,
        i == s.len() || s[i] >= x,
    ensures
        insert_sorted(s, x) == (if i < s.len() && s[i] == x { s } else { s.insert(i, x) }),
    decreases i,
{
    if i == 0 {
        if s.len() == 0 {
            assert(s.insert(0, x) =~= seq![x]);
        } else if x < s[0] {
            assert(s.insert(0, x) =~= seq![x] + s);
        }
    } else {
        let t = s.drop_first();
        lemma_insert_at(t, x, i - 1);
        if i < s.len() && s[i] == x {
            assert(seq![s[0]] + t =~= s);
        } else {
            assert(seq![s[0]] + t.insert(i - 1, x) =~= s.insert(i, x));
        }
    }
}

/// Inserts `x` into the ascending, repetition-free `v` at its place.
fn insert_day(v: &mut Vec<i32>, x: i32)
    ensures
        final(v)@ == insert_sorted(old(v)@, x),
{
    let mut i: usize = 0;
    while i < v.len() && v[i] < x
        invariant
            0 <= i <= v@.len(),
            forall|j: int| 0 <= j < i ==> v@[j] < x,
        decreases v@.len() - i,
    {
        i = i + 1;
    }
    proof {
        lemma_insert_at(v@, x, i as int);
    }
    if i < v.len() && v[i] == x {
    } else {
        v.insert(i, x);
    }
}

/// The distinct completion days, in ascending order.
pub fn sorted_distinct_days(ds: &[Date]) -> (r: Vec<i32>)
    ensures
        r@ == sorted_days(ds@),
{
    let mut v: Vec<i32> = Vec::new();
    let mut i: usize = 0;
    while i < ds.len()
        invariant
            0 <= i <= ds@.len(),
            v@ == sorted_days(ds@.subrange(0, i as int)),
        decreases ds@.len() - i,
    {
        proof {
            let next = ds@.subrange(0, i + 1);
            assert(next.drop_last() =~= ds@.subrange(0, i as int));
            assert(next.last() == ds@[i as int]);
        }
        insert_day(&mut v, ds[i].day);
        i = i + 1;
    }
    assert(ds@.subrange(0, ds@.len() as int) =~= ds@);
    v
}

/// The day on which the run that includes day `a` continues: the next
/// qualifying day, or `n` days later for an interval of `n` days.
pub open spec fn next_expected(f: Frequency, a: int) -> int {
    match f {
        Frequency::Interval(n) => a + n,
        _ => f.next_qualifying(a),
    }
}

/// The length of the run of ascending days `s` that ends at index `i`.
pub open spec fn run_ending(s: Seq<i32>, f: Frequency, i: int) -> nat
    decreases i,
{
    if i <= 0 {
        1
    } else if s[i] == next_expected(f, s[i - 1] as int) {
        run_ending(s, f, i - 1) + 1
    } else {
        1
    }
}

/// The longest run of ascending days `s` that ends before index `k`.
pub open spec fn best_run(s: Seq<i32>, f: Frequency, k: int) -> nat
    decreases k,
{
    if k <= 0 {
        0
    } else {
        let a = best_run(s, f, k - 1);
        let b = run_ending(s, f, k - 1);
        if a >= b {
            a
        } else {
            b
        }
    }
}

/// Completions of ascending days `s` grouped by the Monday that starts
/// their week, with the number of days in each, in ascending week order.
pub open spec fn week_buckets(s: Seq<i32>) -> Seq<(int, nat)>
    decreases s.len(),
{
    if s.len() == 0 {
        seq![]
    } else {
        let b = week_buckets(s.drop_last());
        let w = monday_of(s.last() as int);
        if b.len() > 0 && b.last().0 == w {
            b.update(b.len() - 1, (w, b.last().1 + 1))
        } else {
            b.push((w, 1))
        }
    }
}

/// The number of consecutive qualifying weeks (at least `t` days each)
/// ending with bucket `j`.
pub open spec fn week_run(b: Seq<(int, nat)>, t: int, j: int) -> nat
    decreases j,
{
    if j < 0 || b[j].1 < t {
        0
    } else if j > 0 && b[j - 1].1 >= t && b[j].0 == b[j - 1].0 + 7 {
        week_run(b, t, j - 1) + 1
    } else {
        1
    }
}

/// The longest run of consecutive qualifying weeks ending before bucket `k`.
pub open spec fn best_week_run(b: Seq<(int, nat)>, t: int, k: int) -> nat
    decreases k,
{
    if k <= 0 {
        0
    } else {
        let a = best_week_run(b, t, k - 1);
        let c = week_run(b, t, k - 1);
        if a >= c {
            a
        } else {
            c
        }
    }
}

/// The longest run found anywhere in the completion history.
pub open spec fn longest_run_of(ds: Seq<Date>, f: Frequency) -> nat {
    let s = sorted_days(ds);
    match f {
        Frequency::Weekly(t) => best_week_run(week_buckets(s), t as int, week_buckets(s).len() as int),
        _ => best_run(s, f, s.len() as int),
    }
}

/// The longest run of the ascending days `s` under a day-based schedule.
fn longest_day_run(s: &Vec<i32>, f: &Frequency) -> (r: u64)
    requires
        f.is_valid(),
        !(*f is Weekly),
    ensures
        r as int == best_run(s@, *f, s@.len() as int),
        r <= s@.len(),
{
    if s.len() == 0 {
        return 0;
    }
    let mut cur: u64 = 1;
    let mut best: u64 = 1;
    let mut i: usize = 1;
    assert(best_run(s@, *f, 0) == 0);
    assert(run_ending(s@, *f, 0) == 1);
    while i < s.len()
        invariant
            f.is_valid(),
            1 <= i <= s@.len(),
            cur as int == run_ending(s@, *f, i - 1),
            best as int == best_run(s@, *f, i as int),
            1 <= cur <= i,
            best <= i,
        decreases s@.len() - i,
    {
        let prev: i64 = s[i - 1] as i64;
        let expected: i64 = match f {
            Frequency::Interval(n) => prev + *n as i64,
            _ => f.next_qualifying_day(prev),
        };
        if s[i] as i64 == expected {
            cur = cur + 1;
        } else {
            cur = 1;
        }
        if cur > best {
            best = cur;
        }
        i = i + 1;
    }
    best
}

/// The longest run of consecutive Monday-aligned weeks with at least
/// `target` of the ascending days `s` each.
fn longest_week_run(s: &Vec<i32>, target: u8) -> (r: u64)
    ensures
        r as int == best_week_run(week_buckets(s@), target as int, week_buckets(s@).len() as int),
        r <= s@.len(),
{
    // Group the days by week.
    let mut weeks: Vec<i64> = Vec::new();
    let mut counts: Vec<u64> = Vec::new();
    let mut i: usize = 0;
    while i < s.len()
        invariant
            0 <= i <= s@.len(),
            weeks@.len() == counts@.len() == week_buckets(s@.subrange(0, i as int)).len(),
            weeks@.len() <= i,
            forall|j: int|
                0 <= j < weeks@.len() ==> {
                    &&& weeks@[j] == week_buckets(s@.subrange(0, i as int))[j].0
                    &&& counts@[j] == week_buckets(s@.subrange(0, i as int))[j].1
                    &&& counts@[j] <= i
                    &&& i32::MIN - 7 <= weeks@[j] <= i32::MAX
                },
        decreases s@.len() - i,
    {
        let ghost prefix = s@.subrange(0, i + 1);
        proof {
            assert(prefix.drop_last() =~= s@.subrange(0, i as int));
            assert(prefix.last() == s@[i as int]);
        }
        let d: i64 = s[i] as i64;
        let monday: i64 = d - weekday_index_of_day(d) as i64;
        let n = weeks.len();
        if n > 0 && weeks[n - 1] == monday {
            let c = counts[n - 1];
            counts.set(n - 1, c + 1);
        } else {
            weeks.push(monday);
            counts.push(1);
        }
        i = i + 1;
    }
    assert(s@.subrange(0, s@.len() as int) =~= s@);
    let ghost b = week_buckets(s@);
    let t: u64 = target as u64;
    let mut cur: u64 = 0;
    let mut best: u64 = 0;
    let mut j: usize = 0;
    while j < weeks.len()
        invariant
            weeks@.len() == counts@.len() == b.len(),
            weeks@.len() <= s@.len(),
            t == target,
            forall|k: int|
                0 <= k < b.len() ==> weeks@[k] == b[k].0 && counts@[k] == b[k].1 && i32::MIN - 7
                    <= weeks@[k] <= i32::MAX,
            0 <= j <= b.len(),
            j > 0 ==> cur as int == week_run(b, t as int, j - 1),
            best as int == best_week_run(b, t as int, j as int),
            cur <= j,
            best <= j,
        decreases b.len() - j,
    {
        if counts[j] < t {
            cur = 0;
        } else if j > 0 && counts[j - 1] >= t && weeks[j] == weeks[j - 1] + 7 {
            cur = cur + 1;
        } else {
            cur = 1;
        }
        if cur > best {
            best = cur;
        }
        j = j + 1;
    }
    best
}

/// The longest run of the completions `ds` under schedule `f`.
pub fn longest_run(ds: &[Date], f: &Frequency) -> (r: u64)
    requires
        f.is_valid(),
    ensures
        r as int == longest_run_of(ds@, *f),
        r <= sorted_days(ds@).len(),
{
    let s = sorted_distinct_days(ds);
    match f {
        Frequency::Weekly(t) => longest_week_run(&s, *t),
        _ => longest_day_run(&s, f),
    }
}

/// Inserting into a sequence adds at most one element.
proof fn lemma_insert_len(s: Seq<i32>, x: i32)
    ensures
        s.len() <= insert_sorted(s, x).len() <= s.len() + 1,
        insert_sorted(s, x).len() >= 1,
    decreases s.len(),
{
    if s.len() > 0 && x > s[0] {
        lemma_insert_len(s.drop_first(), x);
    }
}

/// There are no more distinct days than completions, and at least one when
/// there is a completion.
proof fn lemma_sorted_days_len(ds: Seq<Date>)
    ensures
        sorted_days(ds).len() <= ds.len(),
        ds.len() > 0 ==> sorted_days(ds).len() > 0,
    decreases ds.len(),
{
    if ds.len() > 0 {
        lemma_sorted_days_len(ds.drop_last());
        lemma_insert_len(sorted_days(ds.drop_last()), ds.last().day);
    }
}

/// A completion rate: `numerator / denominator`, a fraction in `[0, 1]`.
#[derive(Clone, Copy, Debug, PartialEq, Eq, Structural)]
pub struct CompletionRate {
    pub numerator: u64,
    pub denominator: u64,
}

impl CompletionRate {
    /// The fraction is well formed and lies in `[0, 1]`.
    pub open spec fn is_valid(self) -> bool {
        self.denominator > 0 && self.numerator <= self.denominator
    }

    /// The rate 0.
    pub open spec fn spec_zero() -> CompletionRate {
        CompletionRate { numerator: 0, denominator: 1 }
    }

    /// The rate 0.
    pub fn zero() -> (r: CompletionRate)
        ensures
            r == Self::spec_zero(),
    {
        CompletionRate { numerator: 0, denominator: 1 }
    }
}

/// Days elapsed since creation, the day of creation included.
pub open spec fn days_since_creation(created: Date, today: Date) -> int {
    today.day - created.day + 1
}

/// Seven times the completions expected over `span` days: daily-equivalent
/// for daily, custom-day and interval schedules, `t` per week for a weekly
/// target, 5 per week for weekdays and 2 per week for weekends.
pub open spec fn expected_sevenths(f: Frequency, span: int) -> int {
    match f {
        Frequency::Weekly(t) => span * t,
        Frequency::Weekdays => span * 5,
        Frequency::Weekends => span * 2,
        _ => span * 7,
    }
}

/// `total` completions against what the schedule expects since creation,
/// capped at 1; 0 when nothing is expected or nothing was completed.
pub open spec fn completion_rate_of(total: nat, f: Frequency, created: Date, today: Date) -> CompletionRate {
    let e = expected_sevenths(f, days_since_creation(created, today));
    if total == 0 || e <= 0 {
        CompletionRate::spec_zero()
    } else if 7 * total >= e {
        CompletionRate { numerator: 1, denominator: 1 }
    } else {
        CompletionRate { numerator: (7 * total) as u64, denominator: e as u64 }
    }
}

/// The completion rate of `total` completions under `f` since `created`.
pub fn completion_rate(total: u32, f: &Frequency, created: Date, today: Date) -> (r: CompletionRate)
    requires
        f.is_valid(),
    ensures
        r == completion_rate_of(total as nat, *f, created, today),
        r.is_valid(),
{
    let span: i64 = today.day as i64 - created.day as i64 + 1;
    let per_week: i64 = match f {
        Frequency::Weekly(t) => *t as i64,
        Frequency::Weekdays => 5,
        Frequency::Weekends => 2,
        _ => 7,
    };
    assert(expected_sevenths(*f, span as int) == span * per_week);
    if total == 0 || span <= 0 {
        assert(span <= 0 ==> span * per_week <= 0) by (nonlinear_arith)
            requires
                per_week >= 1,
        ;
        return CompletionRate::zero();
    }
    assert(0 < span * per_week <= 5000000000 * 7) by (nonlinear_arith)
        requires
            0 < span <= 5000000000,
            1 <= per_week <= 7,
    ;
    let e: i64 = span * per_week;
    assert(e == expected_sevenths(*f, days_since_creation(created, today)));
    let done: i64 = 7 * total as i64;
    if done >= e {
        CompletionRate { numerator: 1, denominator: 1 }
    } else {
        CompletionRate { numerator: done as u64, denominator: e as u64 }
    }
}

/// The days of the entries `es`, in the same order.
pub open spec fn completion_days(es: Seq<HabitEntry>) -> Seq<Date> {
    es.map_values(|e: HabitEntry| e.completed_at)
}

/// The latest day with a completion, if any.
pub open spec fn last_completed_of(ds: Seq<Date>) -> Option<Date> {
    if ds.len() == 0 {
        None
    } else {
        Some(Date { day: sorted_days(ds).last() })
    }
}

/// Calculated streak statistics of a habit.
#[derive(Debug, Clone, PartialEq)]
pub struct Streak {
    /// Which habit these statistics are for.
    pub habit_id: HabitId,
    /// Current consecutive qualifying days or weeks completed.
    pub current_streak: u32,
    /// Best streak ever achieved.
    pub longest_streak: u32,
    /// The latest day with a completion, if any.
    pub last_completed: Option<Date>,
    /// Number of completions recorded.
    pub total_completions: u32,
    /// Completions against what the schedule expects, capped at 1.
    pub completion_rate: CompletionRate,
}

/// `r` holds the statistics of the completions `ds` of habit `habit_id`
/// under `f`, created on `created`, as of `today`.
pub open spec fn is_streak_of(r: Streak, habit_id: HabitId, ds: Seq<Date>, f: Frequency, created: Date, today: Date) -> bool {
    let cur = current_streak_of(ds, f, today.day as int);
    let longest = longest_run_of(ds, f);
    &&& r.habit_id == habit_id
    &&& r.current_streak == cur
    &&& r.longest_streak == (if longest >= cur { longest } else { cur })
    &&& r.last_completed == last_completed_of(ds)
    &&& r.total_completions == ds.len()
    &&& r.completion_rate == completion_rate_of(ds.len(), f, created, today)
}

impl Streak {
    /// An empty record for a habit that has not been completed yet.
    pub fn new(habit_id: HabitId) -> (r: Streak)
        ensures
            r.habit_id == habit_id,
            r.current_streak == 0,
            r.longest_streak == 0,
            r.last_completed is None,
            r.total_completions == 0,
            r.completion_rate == CompletionRate::spec_zero(),
    {
        Streak {
            habit_id,
            current_streak: 0,
            longest_streak: 0,
            last_completed: None,
            total_completions: 0,
            completion_rate: CompletionRate::zero(),
        }
    }

    /// A record from already calculated data.
    pub fn from_existing(
        habit_id: HabitId,
        current_streak: u32,
        longest_streak: u32,
        last_completed: Option<Date>,
        total_completions: u32,
        completion_rate: CompletionRate,
    ) -> (r: Streak)
        ensures
            r == (Streak {
                habit_id,
                current_streak,
                longest_streak,
                last_completed,
                total_completions,
                completion_rate,
            }),
    {
        Streak {
            habit_id,
            current_streak,
            longest_streak,
            last_completed,
            total_completions,
            completion_rate,
        }
    }

    /// The statistics of `entries` under `frequency` for a habit created on
    /// `habit_created_at`, as of `today`.
    pub fn calculate_from_entries(
        habit_id: HabitId,
        entries: &[HabitEntry],
        frequency: &Frequency,
        habit_created_at: Date,
        today: Date,
    ) -> (r: Streak)
        requires
            frequency.is_valid(),
            entries@.len() <= u32::MAX,
        ensures
            is_streak_of(r, habit_id, completion_days(entries@), *frequency, habit_created_at, today),
    {
        let ghost es = entries@;
        let mut dates: Vec<Date> = Vec::new();
        let mut i: usize = 0;
        while i < entries.len()
            invariant
                es == entries@,
                0 <= i <= es.len(),
                dates@.len() == i,
                forall|j: int| 0 <= j < i ==> dates@[j] == es[j].completed_at,
            decreases es.len() - i,
        {
            dates.push(entries[i].completed_at);
            i = i + 1;
        }
        assert(dates@ =~= completion_days(es));
        let ds = dates.as_slice();
        let total = entries.len() as u32;
        let current = current_streak(ds, frequency, today);
        let sorted = sorted_distinct_days(ds);
        proof {
            lemma_sorted_days_len(dates@);
        }
        let longest_found = longest_run(ds, frequency);
        let longest: u32 = if longest_found >= current as u64 {
            longest_found as u32
        } else {
            current
        };
        let last_completed = if sorted.len() == 0 {
            None
        } else {
            Some(Date { day: sorted[sorted.len() - 1] })
        };
        let rate = completion_rate(total, frequency, habit_created_at, today);
        Streak {
            habit_id,
            current_streak: current,
            longest_streak: longest,
            last_completed,
            total_completions: total,
            completion_rate: rate,
        }
    }
}

/// How many days may pass after the last completion before a habit under
/// `f` is no longer on track.
pub open spec fn on_track_window(f: Frequency) -> int {
    match f {
        Frequency::Daily => 1,
        Frequency::Weekdays => 3,
        Frequency::Weekly(_) => 7,
        _ => 3,
    }
}

/// The encouragement shown for a current streak of `n`.
pub open spec fn motivational_text(n: u32) -> Seq<char> {
    if n == 0 {
        "Ready to start your streak! Every journey begins with a single step."@
    } else if n == 1 {
        "Great start! One day down, keep the momentum going."@
    } else if n <= 6 {
        "Nice work! "@ + decimal(n as nat) + " days in a row. You're building a strong habit."@
    } else if n <= 13 {
        "Excellent! "@ + decimal(n as nat) + " days strong. You're in the groove now!"@
    } else if n <= 29 {
        "Amazing! "@ + decimal(n as nat) + " days straight. This is becoming second nature."@
    } else if n <= 99 {
        "Incredible! "@ + decimal(n as nat) + " days of consistency. You're a habit master!"@
    } else {
        "Legendary! "@ + decimal(n as nat) + " days of unwavering commitment. You're an inspiration!"@
    }
}

impl Streak {
    /// Whether the habit is on track as of `today`: completed at some point,
    /// and recently enough for its frequency.
    pub fn is_on_track(&self, frequency: &Frequency, today: Date) -> (r: bool)
        ensures
            r == (self.last_completed matches Some(d) && today.day - d.day <= on_track_window(
                *frequency,
            )),
    {
        match self.last_completed {
            None => false,
            Some(last) => {
                let days_since: i64 = today.day as i64 - last.day as i64;
                let window: i64 = match frequency {
                    Frequency::Daily => 1,
                    Frequency::Weekdays => 3,
                    Frequency::Weekly(_) => 7,
                    _ => 3,
                };
                days_since <= window
            },
        }
    }

    /// A message of encouragement for the current streak.
    pub fn motivational_message(&self) -> (r: String)
        ensures
            r@ == motivational_text(self.current_streak),
    {
        let n = self.current_streak;
        if n == 0 {
            String::from_str("Ready to start your streak! Every journey begins with a single step.")
        } else if n == 1 {
            String::from_str("Great start! One day down, keep the momentum going.")
        } else {
            let digits = decimal_string(n as u64);
            let (head, tail) = if n <= 6 {
                ("Nice work! ", " days in a row. You're building a strong habit.")
            } else if n <= 13 {
                ("Excellent! ", " days strong. You're in the groove now!")
            } else if n <= 29 {
                ("Amazing! ", " days straight. This is becoming second nature.")
            } else if n <= 99 {
                ("Incredible! ", " days of consistency. You're a habit master!")
            } else {
                ("Legendary! ", " days of unwavering commitment. You're an inspiration!")
            };
            String::from_str(head).concat(digits.as_str()).concat(tail)
        }
    }
}

} // verus!
