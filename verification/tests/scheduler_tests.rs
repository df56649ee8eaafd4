use fresh_post::config::Config;
use fresh_post::config::ScheduleConfig;
use fresh_post::config::SearchConfig;
use fresh_post::scheduler::last_run_after;
use fresh_post::scheduler::next_sleep;
use fresh_post::scheduler::sleep_seconds;
use fresh_post::scheduler::Event;
use fresh_post::scheduler::Phase;
use fresh_post::scheduler::Task;
use fresh_post::storage::Timestamp;

fn config_with_interval(hours: u64) -> Config {
    Config {
        search: SearchConfig {
            keywords: "go".to_string(),
            location: "Berlin".to_string(),
            remote: false,
            salary_min: None,
        },
        schedule: ScheduleConfig { interval_hours: hours },
    }
}

const EARLIER: Timestamp = Timestamp { seconds: 10, nanoseconds: 0, offset_seconds: 0 };
const LATER: Timestamp = Timestamp { seconds: 20, nanoseconds: 5, offset_seconds: 3600 };

#[test]
fn sleep_follows_the_interval() {
    assert_eq!(sleep_seconds(4), 14400);
    assert_eq!(sleep_seconds(0), 0);
    assert_eq!(sleep_seconds(1), 3600);
    assert_eq!(sleep_seconds(u64::MAX / 3600), (u64::MAX / 3600) * 3600);
    assert_eq!(sleep_seconds(u64::MAX / 3600 + 1), u64::MAX);
    assert_eq!(sleep_seconds(u64::MAX), u64::MAX);
    assert_eq!(next_sleep(&None), 14400);
    assert_eq!(next_sleep(&Some(config_with_interval(6))), 21600);
}

#[test]
fn last_run_moves_only_on_success() {
    assert_eq!(last_run_after(Some(EARLIER), Some(LATER)), Some(LATER));
    assert_eq!(last_run_after(Some(EARLIER), None), Some(EARLIER));
    assert_eq!(last_run_after(None, None), None);
    assert_eq!(last_run_after(None, Some(LATER)), Some(LATER));
}

#[test]
fn scheduler_runs_looks_up_and_sleeps_in_turn() {
    let (phase, task) = Phase::start();
    assert_eq!(phase, Phase::Running);
    assert_eq!(task, Task::Run);

    let (phase, task) = phase.step(Event::Ran { finished_at: Some(LATER) });
    assert_eq!(phase, Phase::LoadingInterval { finished_at: Some(LATER) });
    assert_eq!(task, Task::LoadInterval { finished_at: Some(LATER) });

    let (phase, task) = phase.step(Event::Interval(Some(config_with_interval(5))));
    assert_eq!(phase, Phase::Sleeping { seconds: 18000 });
    assert_eq!(task, Task::Sleep { seconds: 18000 });

    let (phase, task) = phase.step(Event::Woke);
    assert_eq!(phase, Phase::Running);
    assert_eq!(task, Task::Run);
}

#[test]
fn scheduler_goes_on_after_a_failed_run() {
    let (phase, _) = Phase::start();
    let (phase, task) = phase.step(Event::Ran { finished_at: None });
    assert_eq!(task, Task::LoadInterval { finished_at: None });
    let (phase, task) = phase.step(Event::Interval(None));
    assert_eq!(task, Task::Sleep { seconds: 14400 });
    let (phase, task) = phase.step(Event::Woke);
    assert_eq!((phase, task), (Phase::Running, Task::Run));
}

#[test]
fn scheduler_is_not_moved_by_what_it_does_not_wait_for() {
    let (phase, task) = Phase::Running.step(Event::Woke);
    assert_eq!((phase, task), (Phase::Running, Task::Run));
    let (phase, task) = Phase::Running.step(Event::Interval(None));
    assert_eq!((phase, task), (Phase::Running, Task::Run));
    let waiting = Phase::LoadingInterval { finished_at: Some(EARLIER) };
    let (phase, task) = waiting.step(Event::Woke);
    assert_eq!(phase, waiting);
    assert_eq!(task, Task::LoadInterval { finished_at: Some(EARLIER) });
    let asleep = Phase::Sleeping { seconds: 7 };
    let (phase, task) = asleep.step(Event::Ran { finished_at: Some(LATER) });
    assert_eq!(phase, asleep);
    assert_eq!(task, Task::Sleep { seconds: 7 });
}
