//! The scheduler, as a machine that is told what happened and says what to do
//! next: run, look up the interval, sleep, and so on without end. A run that
//! fails does not stop it.

use vstd::prelude::*;

use crate::config::Config;
use crate::config::DEFAULT_INTERVAL_HOURS;
use crate::storage::Timestamp;

verus! {

/// The seconds of an hour.
pub const SECONDS_PER_HOUR: u64 = 3600;

/// What the scheduler asks of its driver.
#[derive(Clone, Copy, Debug, PartialEq, Eq, Structural)]
pub enum Task {
    /// Run the pipeline once.
    Run,
    /// Load the configuration, for the interval. Where the run went well,
    /// `finished_at` is its time, to be kept as the time of the last run.
    LoadInterval { finished_at: Option<Timestamp> },
    /// Sleep for so many seconds.
    Sleep { seconds: u64 },
}

/// What the scheduler waits for.
#[derive(Clone, Copy, Debug, PartialEq, Eq, Structural)]
pub enum Phase {
    /// A run is under way.
    Running,
    /// The configuration is being loaded; the last run went as `finished_at`
    /// says.
    LoadingInterval { finished_at: Option<Timestamp> },
    /// The scheduler sleeps for `seconds` seconds.
    Sleeping { seconds: u64 },
}

/// What the driver tells the scheduler.
#[derive(Debug)]
pub enum Event {
    /// The run is over; `finished_at` is its time where it went well, and
    /// nothing where it failed.
    Ran { finished_at: Option<Timestamp> },
    /// The configuration, or nothing where it could not be loaded.
    Interval(Option<Config>),
    /// The sleep is over.
    Woke,
}

/// The seconds that `hours` hours last, or the largest number where that is
/// more than a `u64` holds.
pub open spec fn seconds_of(hours: u64) -> u64 {
    if hours * SECONDS_PER_HOUR <= u64::MAX {
        (hours * SECONDS_PER_HOUR) as u64
    } else {
        u64::MAX
    }
}

/// The seconds until the next run: those of the configured interval, or of the
/// default of four hours where there is no configuration.
pub open spec fn sleep_for(config: Option<Config>) -> u64 {
    match config {
        Some(found) => seconds_of(found@.interval_hours),
        None => seconds_of(DEFAULT_INTERVAL_HOURS),
    }
}

/// What a phase asks for.
pub open spec fn task_of(phase: Phase) -> Task {
    match phase {
        Phase::Running => Task::Run,
        Phase::LoadingInterval { finished_at } => Task::LoadInterval { finished_at },
        Phase::Sleeping { seconds } => Task::Sleep { seconds },
    }
}

/// The phase that follows `phase` when `event` happens: after a run, whether
/// it failed or not, the interval is looked up; then the scheduler sleeps for
/// that interval; then it runs again. An event that the phase does not wait
/// for changes nothing.
pub open spec fn phase_after(phase: Phase, event: Event) -> Phase {
    match (phase, event) {
        (Phase::Running, Event::Ran { finished_at }) => Phase::LoadingInterval { finished_at },
        (Phase::LoadingInterval { .. }, Event::Interval(config)) => Phase::Sleeping {
            seconds: sleep_for(config),
        },
        (Phase::Sleeping { .. }, Event::Woke) => Phase::Running,
        _ => phase,
    }
}

/// The seconds to sleep for an interval of `interval_hours` hours.
pub fn sleep_seconds(interval_hours: u64) -> (seconds: u64)
    ensures
        seconds == seconds_of(interval_hours),
{
    if interval_hours <= u64::MAX / SECONDS_PER_HOUR {
        interval_hours * SECONDS_PER_HOUR
    } else {
        u64::MAX
    }
}

/// The seconds until the next run.
pub fn next_sleep(config: &Option<Config>) -> (seconds: u64)
    ensures
        seconds == sleep_for(*config),
{
    match config {
        Some(found) => sleep_seconds(found.schedule.interval_hours),
        None => sleep_seconds(DEFAULT_INTERVAL_HOURS),
    }
}

/// The time of the last run that went well, after one more run: the time of
/// that run where it went well, and the time known before where it failed.
pub fn last_run_after(previous: Option<Timestamp>, finished_at: Option<Timestamp>) -> (last: Option<
    Timestamp,
>)
    ensures
        last == match finished_at {
            Some(time) => Some(time),
            None => previous,
        },
{
    match finished_at {
        Some(time) => Some(time),
        None => previous,
    }
}

impl Phase {
    /// The scheduler at its start: it runs at once.
    pub fn start() -> (r: (Phase, Task))
        ensures
            r.0 == Phase::Running,
            r.1 == Task::Run,
    {
        (Phase::Running, Task::Run)
    }

    /// Takes what happened, and gives the phase that follows and what it asks
    /// for.
    pub fn step(self, event: Event) -> (r: (Phase, Task))
        ensures
            r.0 == phase_after(self, event),
            r.1 == task_of(r.0),
    {
        match (self, event) {
            (Phase::Running, Event::Ran { finished_at }) => (
                Phase::LoadingInterval { finished_at },
                Task::LoadInterval { finished_at },
            ),
            (Phase::LoadingInterval { .. }, Event::Interval(config)) => {
                let seconds = next_sleep(&config);
                (Phase::Sleeping { seconds }, Task::Sleep { seconds })
            },
            (Phase::Sleeping { .. }, Event::Woke) => (Phase::Running, Task::Run),
            (Phase::Running, _) => (Phase::Running, Task::Run),
            (Phase::LoadingInterval { finished_at }, _) => (
                Phase::LoadingInterval { finished_at },
                Task::LoadInterval { finished_at },
            ),
            (Phase::Sleeping { seconds }, _) => (
                Phase::Sleeping { seconds },
                Task::Sleep { seconds },
            ),
        }
    }
}

/// The scheduler never stops, and a failed run changes nothing of what follows
/// it: after every run the interval is looked up, after that comes a sleep of
/// the configured length, and after the sleep the next run.
pub proof fn lemma_cycle(finished_at: Option<Timestamp>, config: Option<Config>)
    ensures
        phase_after(Phase::Running, Event::Ran { finished_at }) == (Phase::LoadingInterval {
            finished_at,
        }),
        phase_after(Phase::LoadingInterval { finished_at }, Event::Interval(config)) == (
        Phase::Sleeping { seconds: sleep_for(config) }),
        phase_after(Phase::Sleeping { seconds: sleep_for(config) }, Event::Woke) == Phase::Running,
        task_of(Phase::Running) == Task::Run,
{
}

} // verus!
