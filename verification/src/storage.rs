//! What is kept between runs, as it is handed to and taken from the files:
//! the configuration, the seen set and the latest snapshot.

use vstd::prelude::*;

use crate::config::effective_config;
use crate::config::Config;
use crate::models::views;
use crate::models::JobPosting;
use crate::models::JobPostingView;
use crate::state::State;
use crate::text::texts_of;

verus! {

/// A moment: seconds and nanoseconds since the start of 1970 in UTC, and the
/// offset of the local time from UTC in seconds.
#[derive(Clone, Copy, Debug, PartialEq, Eq, Structural)]
pub struct Timestamp {
    pub seconds: i64,
    pub nanoseconds: u32,
    pub offset_seconds: i32,
}

/// What the latest run found.
#[derive(Debug)]
pub struct JobsSnapshot {
    /// When the run finished; nothing before the first run.
    pub updated_at: Option<Timestamp>,
    /// The postings of the day of the run.
    pub jobs: Vec<JobPosting>,
    /// Those among them that no earlier run had seen.
    pub new_jobs: Vec<JobPosting>,
}

/// A snapshot as plain values.
pub struct JobsSnapshotView {
    pub updated_at: Option<Timestamp>,
    pub jobs: Seq<JobPostingView>,
    pub new_jobs: Seq<JobPostingView>,
}

impl View for JobsSnapshot {
    type V = JobsSnapshotView;

    open spec fn view(&self) -> JobsSnapshotView {
        JobsSnapshotView {
            updated_at: self.updated_at,
            jobs: views(self.jobs@),
            new_jobs: views(self.new_jobs@),
        }
    }
}

/// The snapshot before the first run.
pub open spec fn empty_snapshot() -> JobsSnapshotView {
    JobsSnapshotView { updated_at: None, jobs: Seq::empty(), new_jobs: Seq::empty() }
}

impl JobsSnapshot {
    /// The snapshot before the first run: no time and no postings.
    pub fn empty() -> (snapshot: JobsSnapshot)
        ensures
            snapshot@ == empty_snapshot(),
    {
        let snapshot = JobsSnapshot { updated_at: None, jobs: Vec::new(), new_jobs: Vec::new() };
        assert(views(snapshot.jobs@) == Seq::<JobPostingView>::empty());
        assert(views(snapshot.new_jobs@) == Seq::<JobPostingView>::empty());
        snapshot
    }
}

/// Whether `stored` is a way to write down the seen set `seen`: it lists the
/// identities of the set, each once.
pub open spec fn is_stored_form(seen: Set<Seq<char>>, stored: Seq<Seq<char>>) -> bool {
    stored.to_set() == seen && stored.no_duplicates()
}

/// The seen set that stored identities stand for: the empty set where nothing
/// is stored.
pub open spec fn loaded_set(stored: Option<Seq<Seq<char>>>) -> Set<Seq<char>> {
    match stored {
        Some(found) => found.to_set(),
        None => Set::empty(),
    }
}

/// The configuration to work with, given what the configuration file held:
/// the default where there was no file.
pub fn load_config_or_default(stored: Option<Config>) -> (config: Config)
    ensures
        config@ == effective_config(stored),
{
    Config::load_or_default(stored)
}

/// The seen set to work with, given the identities that the state file held:
/// the empty set where there was no file.
pub fn load_state(stored: Option<Vec<String>>) -> (state: State)
    ensures
        state@ == loaded_set(
            match stored {
                Some(found) => Some(texts_of(found@)),
                None => None,
            },
        ),
{
    match stored {
        Some(found) => State::from_ids(&found),
        None => State::new(),
    }
}

/// The identities to write to the state file, each once.
pub fn save_state(state: &State) -> (stored: Vec<String>)
    ensures
        is_stored_form(state@, texts_of(stored@)),
{
    state.to_ids()
}

/// The snapshot to show, given what the snapshot file held: the empty one
/// where there was no file.
pub fn load_latest_jobs(stored: Option<JobsSnapshot>) -> (snapshot: JobsSnapshot)
    ensures
        snapshot@ == match stored {
            Some(found) => found@,
            None => empty_snapshot(),
        },
{
    match stored {
        Some(found) => found,
        None => JobsSnapshot::empty(),
    }
}

/// What was written down of a seen set loads as the same set, with as many
/// identities as were written.
pub proof fn lemma_stored_loads_equal(
    seen: Set<Seq<char>>,
    stored: Seq<Seq<char>>,
)
    requires
        is_stored_form(seen, stored),
    ensures
        loaded_set(Some(stored)) == seen,
        loaded_set(Some(stored)).len() == stored.len(),
{
    stored.unique_seq_to_set();
}

/// Where nothing is stored, what loads is empty.
pub proof fn lemma_nothing_stored_loads_empty()
    ensures
        loaded_set(None) == Set::<Seq<char>>::empty(),
        loaded_set(None).len() == 0,
{
}

} // verus!
