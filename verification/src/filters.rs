//! The recency filter: of a run of postings, those of one day.

use vstd::prelude::*;

use crate::date::current_date;
use crate::date::Date;
use crate::models::views;
use crate::models::JobPosting;
use crate::models::JobPostingView;

verus! {

/// The postings dated `day`, in their order. A posting without a date is not
/// among them.
pub open spec fn posted_on(jobs: Seq<JobPostingView>, day: Date) -> Seq<JobPostingView> {
    jobs.filter(|job: JobPostingView| job.posted_date == Some(day))
}

/// The postings dated `day`, in their order.
pub fn filter_posted_on(jobs: Vec<JobPosting>, day: Date) -> (kept: Vec<JobPosting>)
    ensures
        views(kept@) == posted_on(views(jobs@), day),
{
    let ghost all = views(jobs@);
    let ghost keep = |job: JobPostingView| job.posted_date == Some(day);
    let mut kept: Vec<JobPosting> = Vec::new();
    let mut i: usize = 0;
    assert(all.take(0).filter(keep) == Seq::<JobPostingView>::empty()) by {
        reveal(Seq::filter);
    }
    while i < jobs.len()
        invariant
            i <= jobs.len(),
            all == views(jobs@),
            keep == |job: JobPostingView| job.posted_date == Some(day),
            views(kept@) == all.take(i as int).filter(keep),
        decreases jobs.len() - i,
    {
        proof {
            all.lemma_take_succ_push(i as int);
            all.take(i as int).lemma_filter_push(all[i as int], keep);
        }
        let dated = match jobs[i].posted_date {
            Some(date) => date == day,
            None => false,
        };
        if dated {
            let job = jobs[i].clone();
            proof {
                kept@.lemma_push_map_commute(|j: JobPosting| j@, job);
            }
            kept.push(job);
        }
        i += 1;
    }
    assert(all.take(jobs.len() as int) == all);
    kept
}

/// The postings dated with the current date of the machine, in their order.
/// The date is read once: the postings that are kept all bear it.
pub fn filter_today_only(jobs: Vec<JobPosting>) -> (kept: Vec<JobPosting>)
    ensures
        exists|today: Date| today.is_valid() && views(kept@) == #[trigger] posted_on(views(jobs@), today),
{
    filter_posted_on(jobs, current_date())
}

/// No posting comes out of none.
pub proof fn lemma_nothing_from_nothing(day: Date)
    ensures
        posted_on(Seq::empty(), day) == Seq::<JobPostingView>::empty(),
{
    reveal(Seq::filter);
}

/// A posting is kept exactly where it is dated with the day asked for: one of
/// another day or without a date is dropped, and the others stay as they are.
pub proof fn lemma_kept_iff_of_the_day(jobs: Seq<JobPostingView>, job: JobPostingView, day: Date)
    ensures
        posted_on(jobs.push(job), day) == if job.posted_date == Some(day) {
            posted_on(jobs, day).push(job)
        } else {
            posted_on(jobs, day)
        },
{
    jobs.lemma_filter_push(job, |j: JobPostingView| j.posted_date == Some(day));
}

/// What the filter gives is a part of what it was given: every posting that
/// comes out is dated with the day and stood in the input.
pub proof fn lemma_kept_are_of_the_day(jobs: Seq<JobPostingView>, day: Date, i: int)
    requires
        0 <= i < posted_on(jobs, day).len(),
    ensures
        posted_on(jobs, day)[i].posted_date == Some(day),
        jobs.contains(posted_on(jobs, day)[i]),
        posted_on(jobs, day).len() <= jobs.len(),
{
    let keep = |j: JobPostingView| j.posted_date == Some(day);
    jobs.lemma_filter_pred(keep, i);
    assert(jobs.filter(keep).contains(jobs.filter(keep)[i]));
    jobs.lemma_filter_contains_rev(keep, jobs.filter(keep)[i]);
    jobs.lemma_filter_len(keep);
}

/// Every posting of the input that is dated with the day comes out.
pub proof fn lemma_of_the_day_are_kept(jobs: Seq<JobPostingView>, day: Date, i: int)
    requires
        0 <= i < jobs.len(),
        jobs[i].posted_date == Some(day),
    ensures
        posted_on(jobs, day).contains(jobs[i]),
{
    jobs.lemma_filter_contains(|j: JobPostingView| j.posted_date == Some(day), i);
}

} // verus!
