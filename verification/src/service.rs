//! One run of the pipeline, as a machine that is told what happened outside
//! and says what to do next. The machine reads no file and sends no request:
//! whoever drives it does what it asks for and hands back the answer.
//!
//! A run goes once through these steps, in this order: load the configuration
//! and build the address of the search; read the cookies; fetch the page; save
//! the page for inspection; read the date and extract the postings of the day;
//! load the seen set and tell the new postings; save the seen set; read the
//! time; save the snapshot; report the figures. Any failure ends the run.

use vstd::prelude::*;

use crate::config::effective_config;
use crate::config::Config;
use crate::date::Date;
use crate::error::ScrapeError;
use crate::filters::filter_posted_on;
use crate::filters::posted_on;
use crate::models::ids;
use crate::models::views;
use crate::models::JobPosting;
use crate::models::JobPostingView;
use crate::scraper::build_search_url;
use crate::scraper::cookie_header;
use crate::scraper::cookie_header_of;
use crate::scraper::extract_jobs;
use crate::scraper::extractor_for;
use crate::scraper::fault_of;
use crate::scraper::is_success;
use crate::scraper::page_jobs;
use crate::scraper::response_body;
use crate::scraper::search_url;
use crate::state::marked;
use crate::state::unseen;
use crate::storage::is_stored_form;
use crate::storage::load_config_or_default;
use crate::storage::load_state;
use crate::storage::loaded_set;
use crate::storage::save_state;
use crate::storage::JobsSnapshot;
use crate::storage::JobsSnapshotView;
use crate::storage::Timestamp;
use crate::text::texts_of;

verus! {

/// What is said where an answer does not fit the step that the run is at.
pub const UNEXPECTED_REPLY: &'static str = "the reply does not answer the request";

/// The figures of a run.
#[derive(Debug)]
pub struct ScrapeSummary {
    /// The postings that the page held.
    pub total_jobs: usize,
    /// Those among them of the day of the run.
    pub today_jobs: usize,
    /// Those of the day that no earlier run had seen.
    pub new_jobs: usize,
    /// When the run finished.
    pub updated_at: Timestamp,
    /// The address that was asked.
    pub search_url: String,
}

/// What a run asks of its driver.
#[derive(Debug)]
pub enum Request {
    /// Load the stored configuration.
    LoadConfig,
    /// Read the text of the cookie file.
    ReadCookies,
    /// Get the page at `url`, with `cookies` as the cookie header if there is
    /// one.
    Fetch { url: String, cookies: Option<String> },
    /// Save the page that came back, for inspection.
    SavePage { html: String },
    /// Read the current date.
    ReadDate,
    /// Load the stored identities of the seen set.
    LoadState,
    /// Store these identities as the seen set.
    SaveState { ids: Vec<String> },
    /// Read the current time.
    ReadTime,
    /// Store this snapshot as the latest.
    SaveSnapshot { snapshot: JobsSnapshot },
    /// The run is over and went well: report these figures.
    Finish { summary: ScrapeSummary },
    /// The run is over and failed: report this error.
    Abort { error: ScrapeError },
}

/// What the driver tells a run.
#[derive(Debug)]
pub enum Reply {
    /// The stored configuration, or nothing where none is stored.
    Config(Option<Config>),
    /// The text of the cookie file, or nothing where there is no such file.
    Cookies(Option<String>),
    /// The status and the body of the response.
    Response { status: u16, body: String },
    /// The current date.
    Date(Date),
    /// The stored identities, or nothing where none are stored.
    State(Option<Vec<String>>),
    /// The current time.
    Time(Timestamp),
    /// What was to be saved is saved.
    Saved,
    /// What was asked for could not be done, and why.
    Failed(String),
}

/// Where a run stands: what it waits for, and what it has got so far.
#[derive(Debug)]
pub enum Run {
    /// Waits for the configuration.
    LoadingConfig,
    /// Has built the address; waits for the cookies.
    ReadingCookies { search_url: String },
    /// Waits for the page.
    Fetching { search_url: String },
    /// Has the page; waits for it to be saved.
    SavingPage { search_url: String, html: String },
    /// Waits for the date, to extract and filter the postings.
    ReadingDate { search_url: String, html: String },
    /// Has the postings of the day; waits for the seen set.
    LoadingState { search_url: String, total_jobs: usize, jobs: Vec<JobPosting> },
    /// Has told the new postings; waits for the seen set to be saved.
    SavingState {
        search_url: String,
        total_jobs: usize,
        jobs: Vec<JobPosting>,
        new_jobs: Vec<JobPosting>,
    },
    /// Waits for the time, to make the snapshot.
    ReadingTime {
        search_url: String,
        total_jobs: usize,
        jobs: Vec<JobPosting>,
        new_jobs: Vec<JobPosting>,
    },
    /// Waits for the snapshot to be saved.
    SavingSnapshot { summary: ScrapeSummary },
    /// The run is over.
    Over,
}

/// The snapshot of a run that found `all_jobs` on the day `today` and finished
/// at the moment `now`, with `seen` as the identities known before: the
/// postings of the day, and those of them that were not known.
pub open spec fn snapshot_of(
    all_jobs: Seq<JobPostingView>,
    seen: Set<Seq<char>>,
    today: Date,
    now: Timestamp,
) -> JobsSnapshotView {
    JobsSnapshotView {
        updated_at: Some(now),
        jobs: posted_on(all_jobs, today),
        new_jobs: unseen(seen, posted_on(all_jobs, today)),
    }
}

/// How far a run has come: the number of steps behind it.
pub open spec fn progress(run: Run) -> nat {
    match run {
        Run::LoadingConfig => 0,
        Run::ReadingCookies { .. } => 1,
        Run::Fetching { .. } => 2,
        Run::SavingPage { .. } => 3,
        Run::ReadingDate { .. } => 4,
        Run::LoadingState { .. } => 5,
        Run::SavingState { .. } => 6,
        Run::ReadingTime { .. } => 7,
        Run::SavingSnapshot { .. } => 8,
        Run::Over => 9,
    }
}

/// The error for outside work that failed while the run stood at `run`: a
/// configuration that cannot be loaded is a configuration error, a page that
/// cannot be fetched a transport error, and all else is about files.
pub open spec fn is_failure_at(run: Run, detail: Seq<char>, error: ScrapeError) -> bool {
    match run {
        Run::LoadingConfig => error matches ScrapeError::Config(text) && text@ == detail,
        Run::Fetching { .. } => error matches ScrapeError::Transport(text) && text@ == detail,
        _ => error matches ScrapeError::Persistence(text) && text@ == detail,
    }
}

/// Whether the step ends the run with the failure `detail`.
pub open spec fn fails_with(run: Run, detail: Seq<char>, next: Run, request: Request) -> bool {
    &&& next is Over
    &&& request matches Request::Abort { error }
    &&& is_failure_at(run, detail, error)
}

/// The steps of a run: whether a run that stands at `run` and is told `reply`
/// goes on to `next` and asks for `request`. For every `run` and `reply` this
/// holds of one `next` and one `request`, up to what the texts in them hold.
pub open spec fn steps_to(run: Run, reply: Reply, next: Run, request: Request) -> bool {
    match (run, reply) {
        (_, Reply::Failed(detail)) => fails_with(run, detail@, next, request),
        (Run::LoadingConfig, Reply::Config(stored)) => {
            let config = effective_config(stored);
            &&& next matches Run::ReadingCookies { search_url: address }
            &&& address@ == search_url(
                config.keywords,
                config.location,
                config.remote,
                config.salary_min,
            )
            &&& request is ReadCookies
        },
        (Run::ReadingCookies { search_url }, Reply::Cookies(content)) => {
            &&& next matches Run::Fetching { search_url: kept }
            &&& kept@ == search_url@
            &&& request matches Request::Fetch { url, cookies }
            &&& url@ == search_url@
            &&& match content {
                Some(text) => cookies matches Some(header) && header@ == cookie_header_of(text@),
                None => cookies is None,
            }
        },
        (Run::Fetching { search_url }, Reply::Response { status, body }) => {
            if is_success(status) {
                &&& next matches Run::SavingPage { search_url: kept, html }
                &&& kept@ == search_url@
                &&& html@ == body@
                &&& request matches Request::SavePage { html: page }
                &&& page@ == body@
            } else {
                &&& next is Over
                &&& request matches Request::Abort { error }
                &&& error == ScrapeError::Fetch(status)
            }
        },
        (Run::SavingPage { search_url, html }, Reply::Saved) => {
            &&& next matches Run::ReadingDate { search_url: kept, html: page }
            &&& kept@ == search_url@
            &&& page@ == html@
            &&& request is ReadDate
        },
        (Run::ReadingDate { search_url, html }, Reply::Date(today)) => {
            match page_jobs(html@, today) {
                Some(all_jobs) => {
                    &&& next matches Run::LoadingState { search_url: kept, total_jobs, jobs }
                    &&& kept@ == search_url@
                    &&& total_jobs == all_jobs.len()
                    &&& views(jobs@) == posted_on(all_jobs, today)
                    &&& request is LoadState
                },
                None => {
                    &&& next is Over
                    &&& request matches Request::Abort { error }
                    &&& error == ScrapeError::Extraction(fault_of(extractor_for(html@)))
                },
            }
        },
        (Run::LoadingState { search_url, total_jobs, jobs }, Reply::State(stored)) => {
            let seen = loaded_set(
                match stored {
                    Some(found) => Some(texts_of(found@)),
                    None => None,
                },
            );
            &&& next matches Run::SavingState {
                search_url: kept,
                total_jobs: total,
                jobs: of_day,
                new_jobs,
            }
            &&& kept@ == search_url@
            &&& total == total_jobs
            &&& views(of_day@) == views(jobs@)
            &&& views(new_jobs@) == unseen(seen, views(jobs@))
            &&& request matches Request::SaveState { ids }
            &&& is_stored_form(marked(seen, views(new_jobs@)), texts_of(ids@))
        },
        (Run::SavingState { search_url, total_jobs, jobs, new_jobs }, Reply::Saved) => {
            &&& next matches Run::ReadingTime {
                search_url: kept,
                total_jobs: total,
                jobs: of_day,
                new_jobs: fresh,
            }
            &&& kept@ == search_url@
            &&& total == total_jobs
            &&& views(of_day@) == views(jobs@)
            &&& views(fresh@) == views(new_jobs@)
            &&& request is ReadTime
        },
        (Run::ReadingTime { search_url, total_jobs, jobs, new_jobs }, Reply::Time(now)) => {
            &&& next matches Run::SavingSnapshot { summary }
            &&& summary.total_jobs == total_jobs
            &&& summary.today_jobs == jobs@.len()
            &&& summary.new_jobs == new_jobs@.len()
            &&& summary.updated_at == now
            &&& summary.search_url@ == search_url@
            &&& request matches Request::SaveSnapshot { snapshot }
            &&& snapshot@ == (JobsSnapshotView {
                updated_at: Some(now),
                jobs: views(jobs@),
                new_jobs: views(new_jobs@),
            })
        },
        (Run::SavingSnapshot { summary }, Reply::Saved) => {
            &&& next is Over
            &&& request matches Request::Finish { summary: report }
            &&& report.total_jobs == summary.total_jobs
            &&& report.today_jobs == summary.today_jobs
            &&& report.new_jobs == summary.new_jobs
            &&& report.updated_at == summary.updated_at
            &&& report.search_url@ == summary.search_url@
        },
        _ => fails_with(run, UNEXPECTED_REPLY@, next, request),
    }
}

fn failure_at(run: &Run, detail: String) -> (error: ScrapeError)
    ensures
        is_failure_at(*run, detail@, error),
{
    match run {
        Run::LoadingConfig => ScrapeError::Config(detail),
        Run::Fetching { .. } => ScrapeError::Transport(detail),
        _ => ScrapeError::Persistence(detail),
    }
}

impl Run {
    /// A run at its start, and the first thing it asks for.
    pub fn start() -> (r: (Run, Request))
        ensures
            r.0 is LoadingConfig,
            r.1 is LoadConfig,
    {
        (Run::LoadingConfig, Request::LoadConfig)
    }

    /// Takes the answer to what the run asked for last, and gives the run as
    /// it stands then and what it asks for next.
    pub fn step(self, reply: Reply) -> (r: (Run, Request))
        ensures
            steps_to(self, reply, r.0, r.1),
    {
        match (self, reply) {
            (run, Reply::Failed(detail)) => {
                let error = failure_at(&run, detail);
                (Run::Over, Request::Abort { error })
            },
            (Run::LoadingConfig, Reply::Config(stored)) => {
                let config = load_config_or_default(stored);
                let search_url = build_search_url(
                    config.search.keywords.as_str(),
                    config.search.location.as_str(),
                    config.search.remote,
                    config.search.salary_min,
                );
                (Run::ReadingCookies { search_url }, Request::ReadCookies)
            },
            (Run::ReadingCookies { search_url }, Reply::Cookies(content)) => {
                let cookies = match content {
                    Some(text) => Some(cookie_header(text.as_str())),
                    None => None,
                };
                let url = search_url.clone();
                (Run::Fetching { search_url }, Request::Fetch { url, cookies })
            },
            (Run::Fetching { search_url }, Reply::Response { status, body }) => {
                match response_body(status, body) {
                    Ok(html) => {
                        let page = html.clone();
                        (Run::SavingPage { search_url, html }, Request::SavePage { html: page })
                    },
                    Err(error) => (Run::Over, Request::Abort { error }),
                }
            },
            (Run::SavingPage { search_url, html }, Reply::Saved) => {
                (Run::ReadingDate { search_url, html }, Request::ReadDate)
            },
            (Run::ReadingDate { search_url, html }, Reply::Date(today)) => {
                match extract_jobs(html.as_str(), today) {
                    Ok(all_jobs) => {
                        let total_jobs = all_jobs.len();
                        let jobs = filter_posted_on(all_jobs, today);
                        (Run::LoadingState { search_url, total_jobs, jobs }, Request::LoadState)
                    },
                    Err(error) => (Run::Over, Request::Abort { error }),
                }
            },
            (Run::LoadingState { search_url, total_jobs, jobs }, Reply::State(stored)) => {
                let mut state = load_state(stored);
                let new_jobs = state.filter_new_jobs(jobs.as_slice());
                state.mark_jobs_seen(new_jobs.as_slice());
                let ids = save_state(&state);
                (
                    Run::SavingState { search_url, total_jobs, jobs, new_jobs },
                    Request::SaveState { ids },
                )
            },
            (Run::SavingState { search_url, total_jobs, jobs, new_jobs }, Reply::Saved) => {
                (Run::ReadingTime { search_url, total_jobs, jobs, new_jobs }, Request::ReadTime)
            },
            (Run::ReadingTime { search_url, total_jobs, jobs, new_jobs }, Reply::Time(now)) => {
                let summary = ScrapeSummary {
                    total_jobs,
                    today_jobs: jobs.len(),
                    new_jobs: new_jobs.len(),
                    updated_at: now,
                    search_url,
                };
                let snapshot = JobsSnapshot { updated_at: Some(now), jobs, new_jobs };
                (Run::SavingSnapshot { summary }, Request::SaveSnapshot { snapshot })
            },
            (Run::SavingSnapshot { summary }, Reply::Saved) => {
                (Run::Over, Request::Finish { summary })
            },
            (run, _) => {
                let error = failure_at(&run, UNEXPECTED_REPLY.to_owned());
                (Run::Over, Request::Abort { error })
            },
        }
    }
}

/// A run goes through its steps once and in order: each step either ends the
/// run or takes it exactly one step further. A run that is over stays over.
pub proof fn lemma_single_pass(run: Run, reply: Reply, next: Run, request: Request)
    requires
        steps_to(run, reply, next, request),
    ensures
        next is Over || progress(next) == progress(run) + 1,
        run is Over ==> next is Over,
        next is Over <==> (request is Abort || request is Finish),
{
}

/// Outside work that failed ends the run at once, with an error that tells at
/// which step it failed and why. Nothing is asked for after it.
pub proof fn lemma_failure_ends_run(run: Run, detail: String, next: Run, request: Request)
    requires
        steps_to(run, Reply::Failed(detail), next, request),
    ensures
        next is Over,
        request matches Request::Abort { error } && is_failure_at(run, detail@, error),
{
}

/// The two writes are the last two steps of a run and come only after all
/// before them went well: the seen set is saved only by a run that has loaded
/// it, the snapshot only after the seen set is saved, and the figures are
/// reported only after the snapshot is saved.
pub proof fn lemma_writes_come_last(run: Run, reply: Reply, next: Run, request: Request)
    requires
        steps_to(run, reply, next, request),
    ensures
        request is SaveState ==> run is LoadingState && reply is State && progress(run) == 5,
        request is SaveSnapshot ==> run is ReadingTime && reply is Time && progress(run) == 7,
        request is Finish ==> run is SavingSnapshot && reply is Saved && progress(run) == 8,
        run is SavingState && !(reply is Saved) ==> request is Abort,
{
}

/// What a run stores fits together. Take a run that has the page `html` and is
/// told the date `today`, the stored identities `stored` and, once the seen set
/// is saved, the time `now`. Then the snapshot that it asks to store is the one
/// of the page's postings for that day, seen set and time; the identities that
/// it asked to store are the stored ones and those of exactly the new postings
/// of that snapshot; and the figures count the postings of the page and of the
/// snapshot.
pub proof fn lemma_stored_fits_together(
    reading_date: Run,
    today: Date,
    loading_state: Run,
    stored: Option<Vec<String>>,
    saving_state: Run,
    ids: Vec<String>,
    reading_time: Run,
    now: Timestamp,
    saving_snapshot: Run,
    snapshot: JobsSnapshot,
)
    requires
        reading_date is ReadingDate,
        steps_to(reading_date, Reply::Date(today), loading_state, Request::LoadState),
        steps_to(loading_state, Reply::State(stored), saving_state, Request::SaveState { ids }),
        steps_to(saving_state, Reply::Saved, reading_time, Request::ReadTime),
        steps_to(reading_time, Reply::Time(now), saving_snapshot, Request::SaveSnapshot { snapshot }),
    ensures
        page_jobs(reading_date->ReadingDate_html@, today) is Some,
        snapshot@ == snapshot_of(
            page_jobs(reading_date->ReadingDate_html@, today)->0,
            loaded_set(
                match stored {
                    Some(found) => Some(texts_of(found@)),
                    None => None,
                },
            ),
            today,
            now,
        ),
        is_stored_form(
            marked(
                loaded_set(
                    match stored {
                        Some(found) => Some(texts_of(found@)),
                        None => None,
                    },
                ),
                snapshot@.new_jobs,
            ),
            texts_of(ids@),
        ),
        saving_snapshot matches Run::SavingSnapshot { summary } && summary.total_jobs == page_jobs(
            reading_date->ReadingDate_html@,
            today,
        )->0.len() && summary.today_jobs == snapshot@.jobs.len() && summary.new_jobs
            == snapshot@.new_jobs.len() && summary.updated_at == now,
{
}

/// After a run, every new posting of its snapshot is seen: a second run on the
/// same postings finds nothing new.
pub proof fn lemma_second_run_finds_nothing_new(
    all_jobs: Seq<JobPostingView>,
    seen: Set<Seq<char>>,
    today: Date,
    now: Timestamp,
    later: Timestamp,
)
    ensures
        snapshot_of(
            all_jobs,
            marked(seen, snapshot_of(all_jobs, seen, today, now).new_jobs),
            today,
            later,
        ).new_jobs == Seq::<JobPostingView>::empty(),
{
    let of_day = posted_on(all_jobs, today);
    let fresh = unseen(seen, of_day);
    let after = marked(seen, fresh);
    let keep = |job: JobPostingView| !after.contains(job.id);
    let was_new = |job: JobPostingView| !seen.contains(job.id);
    assert forall|i: int| 0 <= i < of_day.len() implies !keep(#[trigger] of_day[i]) by {
        let job = of_day[i];
        if !seen.contains(job.id) {
            of_day.lemma_filter_contains(was_new, i);
            let k = fresh.index_of(job);
            assert(ids(fresh)[k] == job.id);
            assert(ids(fresh).to_set().contains(job.id));
        }
    }
    of_day.lemma_all_neg_filter_empty(keep);
}

} // verus!
