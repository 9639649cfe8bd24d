use wednesday::schedule::{
    default_schedule, due_tasks, minute_of_day, rule_due, weekday, Rule, Task, TaskQueue,
    QUEUE_CAPACITY,
};

// Epoch minute 9000 is 09:00 on the first Wednesday, in the schedule's
// fixed wall clock (UTC+3): (9000 + 180) / 1440 = day 6, a Wednesday,
// and (9000 + 180) % 1440 = 540 minutes = 09:00.
const WEDNESDAY_NINE_AM: u64 = 9000;

#[test]
fn wall_clock_conversion() {
    assert_eq!(minute_of_day(WEDNESDAY_NINE_AM), 540);
    assert_eq!(weekday(WEDNESDAY_NINE_AM), 2);
    // The epoch began on a Thursday at 03:00 wall time.
    assert_eq!(weekday(0), 3);
    assert_eq!(minute_of_day(0), 180);
}

#[test]
fn interval_rule_fires_after_elapse() {
    let r = Rule::Every { minutes: 10 };
    assert!(rule_due(&r, 100, None));
    assert!(!rule_due(&r, 100, Some(95)));
    assert!(rule_due(&r, 100, Some(90)));
}

#[test]
fn daily_rule_fires_once_per_minute_match() {
    let r = Rule::DailyAt { minute_of_day: 540 };
    assert!(rule_due(&r, WEDNESDAY_NINE_AM, None));
    assert!(!rule_due(&r, WEDNESDAY_NINE_AM, Some(WEDNESDAY_NINE_AM)));
    assert!(!rule_due(&r, WEDNESDAY_NINE_AM + 1, None));
}

#[test]
fn default_schedule_on_wednesday_morning() {
    let rules = default_schedule();
    let last_runs: Vec<Option<u64>> = vec![None; rules.len()];
    let due = due_tasks(&rules, WEDNESDAY_NINE_AM, &last_runs);
    assert_eq!(
        due,
        vec![Task::Wednesday, Task::BTC, Task::ETH, Task::BNB, Task::NOT, Task::Heartbeat]
    );
}

#[test]
fn default_schedule_at_six_in_the_morning() {
    let rules = default_schedule();
    // 06:00 wall time on the first Thursday: epoch minute 180.
    let now = 180;
    assert_eq!(minute_of_day(now), 360);
    let mut last_runs: Vec<Option<u64>> = vec![None; rules.len()];
    // Pretend the interval rules all ran just now.
    for (i, (rule, _)) in rules.iter().enumerate() {
        if let Rule::Every { .. } = rule {
            last_runs[i] = Some(now);
        }
    }
    let due = due_tasks(&rules, now, &last_runs);
    assert_eq!(due, vec![Task::Crypto]);
}

#[test]
fn queue_is_fifo() {
    let mut q = TaskQueue::new();
    assert!(q.push(Task::BTC));
    assert!(q.push(Task::Wednesday));
    assert_eq!(q.pop(), Some(Task::BTC));
    assert_eq!(q.pop(), Some(Task::Wednesday));
    assert_eq!(q.pop(), None);
}

#[test]
fn queue_refuses_beyond_capacity() {
    let mut q = TaskQueue::new();
    for _ in 0..QUEUE_CAPACITY {
        assert!(q.push(Task::Heartbeat));
    }
    assert!(!q.push(Task::Heartbeat));
    assert_eq!(q.len(), QUEUE_CAPACITY);
}
