//! Timer rules and the task queue.
//!
//! The scheduler owns a declarative list of timer rules, each paired with
//! the task token it emits.  A cheap evaluation pass decides which rules
//! are due at a given minute; firing only enqueues the token onto a small
//! bounded queue, and a single worker drains that queue in arrival order.
//! All times are minutes since the epoch, shifted by a fixed offset
//! instead of the machine's local time zone.

use vstd::prelude::*;

verus! {

/// Fixed offset of the schedule's wall clock, in minutes east of UTC.
pub const TZ_OFFSET_MINUTES: u64 = 180;

/// Minutes in a day.
pub const DAY_MINUTES: u64 = 1440;

/// Which recurring job fired.
#[derive(Clone, Copy, PartialEq, Eq, Structural, Debug)]
pub enum Task {
    Wednesday,
    Crypto,
    BTC,
    ETH,
    BNB,
    NOT,
    Heartbeat,
}

/// One timer rule.
#[derive(Clone, Copy, PartialEq, Eq, Structural, Debug)]
pub enum Rule {
    /// Fire once a week, at a wall-clock minute of the given weekday
    /// (Monday is day zero).
    WeeklyAt { weekday: u64, minute_of_day: u64 },
    /// Fire once a day at a wall-clock minute.
    DailyAt { minute_of_day: u64 },
    /// Fire every so many minutes.
    Every { minutes: u64 },
}

/// The wall-clock minute of the day at a given epoch minute.
pub open spec fn spec_minute_of_day(now_min: u64) -> int {
    (now_min + TZ_OFFSET_MINUTES) as int % DAY_MINUTES as int
}

/// The weekday at a given epoch minute; Monday is zero.  The epoch began
/// on a Thursday.
pub open spec fn spec_weekday(now_min: u64) -> int {
    ((now_min + TZ_OFFSET_MINUTES) as int / DAY_MINUTES as int + 3) % 7
}

pub fn minute_of_day(now_min: u64) -> (r: u64)
    requires
        now_min + TZ_OFFSET_MINUTES <= u64::MAX,
    ensures
        r == spec_minute_of_day(now_min),
{
    (now_min + TZ_OFFSET_MINUTES) % DAY_MINUTES
}

pub fn weekday(now_min: u64) -> (r: u64)
    requires
        now_min + TZ_OFFSET_MINUTES <= u64::MAX,
    ensures
        r == spec_weekday(now_min),
{
    ((now_min + TZ_OFFSET_MINUTES) / DAY_MINUTES + 3) % 7
}

/// Whether a rule fires at `now_min`, given the minute it last fired.
/// Interval rules fire when the interval has elapsed (or never fired
/// yet); wall-clock rules fire throughout their minute but at most once
/// in it.
pub open spec fn spec_rule_due(rule: Rule, now_min: u64, last_run: Option<u64>) -> bool {
    match rule {
        Rule::Every { minutes } => match last_run {
            None => true,
            Some(last) => last <= now_min && now_min - last >= minutes,
        },
        Rule::DailyAt { minute_of_day } => spec_minute_of_day(now_min) == minute_of_day
            && last_run != Some(now_min),
        Rule::WeeklyAt { weekday, minute_of_day } => spec_weekday(now_min) == weekday
            && spec_minute_of_day(now_min) == minute_of_day && last_run != Some(now_min),
    }
}

pub fn rule_due(rule: &Rule, now_min: u64, last_run: Option<u64>) -> (r: bool)
    requires
        now_min + TZ_OFFSET_MINUTES <= u64::MAX,
    ensures
        r == spec_rule_due(*rule, now_min, last_run),
{
    match rule {
        Rule::Every { minutes } => match last_run {
            None => true,
            Some(last) => last <= now_min && now_min - last >= *minutes,
        },
        Rule::DailyAt { minute_of_day: m } => minute_of_day(now_min) == *m && last_run != Some(
            now_min,
        ),
        Rule::WeeklyAt { weekday: w, minute_of_day: m } => weekday(now_min) == *w && minute_of_day(
            now_min,
        ) == *m && last_run != Some(now_min),
    }
}

/// The tasks of the due rules, in rule order.
pub open spec fn spec_due_tasks(
    rules: Seq<(Rule, Task)>,
    now_min: u64,
    last_runs: Seq<Option<u64>>,
) -> Seq<Task>
    decreases rules.len(),
{
    if rules.len() == 0 {
        Seq::empty()
    } else {
        spec_due_tasks(rules.drop_last(), now_min, last_runs) + (if spec_rule_due(
            rules.last().0,
            now_min,
            last_runs[rules.len() - 1],
        ) {
            seq![rules.last().1]
        } else {
            Seq::empty()
        })
    }
}

/// Evaluate every rule against the clock: the tokens to enqueue, in rule
/// order.
pub fn due_tasks(rules: &Vec<(Rule, Task)>, now_min: u64, last_runs: &Vec<Option<u64>>) -> (r: Vec<
    Task,
>)
    requires
        now_min + TZ_OFFSET_MINUTES <= u64::MAX,
        last_runs@.len() == rules@.len(),
    ensures
        r@ == spec_due_tasks(rules@, now_min, last_runs@),
{
    let mut out: Vec<Task> = Vec::new();
    let mut i: usize = 0;
    proof {
        assert(rules@.take(0) =~= Seq::<(Rule, Task)>::empty());
    }
    while i < rules.len()
        invariant
            i <= rules@.len(),
            last_runs@.len() == rules@.len(),
            now_min + TZ_OFFSET_MINUTES <= u64::MAX,
            out@ == spec_due_tasks(rules@.take(i as int), now_min, last_runs@),
        decreases rules@.len() - i,
    {
        proof {
            assert(rules@.take(i as int + 1).drop_last() =~= rules@.take(i as int));
            assert(rules@.take(i as int + 1).last() == rules@[i as int]);
        }
        let (rule, task) = rules[i];
        if rule_due(&rule, now_min, last_runs[i]) {
            out.push(task);
        }
        i = i + 1;
    }
    proof {
        assert(rules@.take(rules@.len() as int) =~= rules@);
    }
    out
}

/// The engine's timer rules: the weekly digest, the twice-daily rate
/// report, one ten-minute trend check per tracked asset, and an hourly
/// heartbeat.
pub fn default_schedule() -> (r: Vec<(Rule, Task)>)
    ensures
        r@ =~= seq![
            (Rule::WeeklyAt { weekday: 2u64, minute_of_day: 540u64 }, Task::Wednesday),
            (Rule::DailyAt { minute_of_day: 360u64 }, Task::Crypto),
            (Rule::DailyAt { minute_of_day: 1080u64 }, Task::Crypto),
            (Rule::Every { minutes: 10u64 }, Task::BTC),
            (Rule::Every { minutes: 10u64 }, Task::ETH),
            (Rule::Every { minutes: 10u64 }, Task::BNB),
            (Rule::Every { minutes: 10u64 }, Task::NOT),
            (Rule::Every { minutes: 60u64 }, Task::Heartbeat),
        ],
{
    let mut r: Vec<(Rule, Task)> = Vec::new();
    r.push((Rule::WeeklyAt { weekday: 2, minute_of_day: 540 }, Task::Wednesday));
    r.push((Rule::DailyAt { minute_of_day: 360 }, Task::Crypto));
    r.push((Rule::DailyAt { minute_of_day: 1080 }, Task::Crypto));
    r.push((Rule::Every { minutes: 10 }, Task::BTC));
    r.push((Rule::Every { minutes: 10 }, Task::ETH));
    r.push((Rule::Every { minutes: 10 }, Task::BNB));
    r.push((Rule::Every { minutes: 10 }, Task::NOT));
    r.push((Rule::Every { minutes: 60 }, Task::Heartbeat));
    r
}

/// Capacity of the task queue.
pub const QUEUE_CAPACITY: usize = 10;

/// Small bounded first-in-first-out queue between the timer thread and
/// the worker.
pub struct TaskQueue {
    items: Vec<Task>,
}

impl TaskQueue {
    /// The queued tokens, oldest first.
    pub closed spec fn view(self) -> Seq<Task> {
        self.items@
    }

    /// The queue never grows past its capacity.
    pub open spec fn wf(self) -> bool {
        self.view().len() <= QUEUE_CAPACITY
    }

    /// An empty queue.
    pub fn new() -> (q: TaskQueue)
        ensures
            q.wf(),
            q.view() =~= Seq::<Task>::empty(),
    {
        TaskQueue { items: Vec::new() }
    }

    /// Enqueue a token; refused — backpressure — when the queue is full.
    pub fn push(&mut self, t: Task) -> (accepted: bool)
        requires
            old(self).wf(),
        ensures
            final(self).wf(),
            accepted == (old(self).view().len() < QUEUE_CAPACITY),
            accepted ==> final(self).view() == old(self).view().push(t),
            !accepted ==> final(self).view() == old(self).view(),
    {
        if self.items.len() < QUEUE_CAPACITY {
            self.items.push(t);
            true
        } else {
            false
        }
    }

    /// Dequeue the oldest token, if any.
    pub fn pop(&mut self) -> (t: Option<Task>)
        requires
            old(self).wf(),
        ensures
            final(self).wf(),
            t == (if old(self).view().len() == 0 {
                Option::<Task>::None
            } else {
                Option::Some(old(self).view()[0])
            }),
            final(self).view() == (if old(self).view().len() == 0 {
                old(self).view()
            } else {
                old(self).view().skip(1)
            }),
    {
        if self.items.len() == 0 {
            None
        } else {
            let t = self.items.remove(0);
            proof {
                assert(self.items@ =~= old(self).view().skip(1));
            }
            Some(t)
        }
    }

    /// How many tokens wait.
    pub fn len(&self) -> (n: usize)
        ensures
            n == self.view().len(),
    {
        self.items.len()
    }
}

} // verus!
