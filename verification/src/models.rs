//! The job posting, and what makes two postings the same one.

use std::hash::Hash;
use std::hash::Hasher;
use vstd::prelude::*;
use vstd::std_specs::cmp::PartialEqSpecImpl;

use crate::date::Date;
use crate::ident::generate_job_id;
use crate::ident::job_id;

verus! {

/// One posting as it was read from a results page.
#[derive(Debug)]
pub struct JobPosting {
    pub id: String,
    pub title: String,
    pub company: String,
    pub location: String,
    pub url: String,
    pub posted_date: Option<Date>,
    pub description: Option<String>,
}

/// What a posting holds, as plain text.
pub struct JobPostingView {
    pub id: Seq<char>,
    pub title: Seq<char>,
    pub company: Seq<char>,
    pub location: Seq<char>,
    pub url: Seq<char>,
    pub posted_date: Option<Date>,
    pub description: Option<Seq<char>>,
}

impl View for JobPosting {
    type V = JobPostingView;

    open spec fn view(&self) -> JobPostingView {
        JobPostingView {
            id: self.id@,
            title: self.title@,
            company: self.company@,
            location: self.location@,
            url: self.url@,
            posted_date: self.posted_date,
            description: match self.description {
                Some(text) => Some(text@),
                None => None,
            },
        }
    }
}

/// The views of a run of postings, in order.
pub open spec fn views(jobs: Seq<JobPosting>) -> Seq<JobPostingView> {
    jobs.map_values(|job: JobPosting| job@)
}

/// The identities of a run of postings, in order.
pub open spec fn ids(jobs: Seq<JobPostingView>) -> Seq<Seq<char>> {
    jobs.map_values(|job: JobPostingView| job.id)
}

impl JobPosting {
    /// A posting with the given fields.
    pub fn new(
        id: String,
        title: String,
        company: String,
        location: String,
        url: String,
        posted_date: Option<Date>,
        description: Option<String>,
    ) -> (job: JobPosting)
        ensures
            job.id == id,
            job.title == title,
            job.company == company,
            job.location == location,
            job.url == url,
            job.posted_date == posted_date,
            job.description == description,
    {
        JobPosting { id, title, company, location, url, posted_date, description }
    }

    /// A posting as the extraction makes it: the identity follows from the
    /// address, and there is no description yet.
    pub fn extracted(
        title: String,
        company: String,
        location: String,
        url: String,
        posted_date: Option<Date>,
    ) -> (job: JobPosting)
        ensures
            job@ == (JobPostingView {
                id: job_id(url@),
                title: title@,
                company: company@,
                location: location@,
                url: url@,
                posted_date,
                description: None,
            }),
    {
        let id = generate_job_id(url.as_str());
        JobPosting { id, title, company, location, url, posted_date, description: None }
    }
}

impl Clone for JobPosting {
    fn clone(&self) -> (job: JobPosting)
        ensures
            job@ == self@,
    {
        let description = match &self.description {
            Some(text) => Some(text.clone()),
            None => None,
        };
        JobPosting {
            id: self.id.clone(),
            title: self.title.clone(),
            company: self.company.clone(),
            location: self.location.clone(),
            url: self.url.clone(),
            posted_date: self.posted_date,
            description,
        }
    }
}

/// Two postings are the same posting when their identities agree, whatever the
/// other fields hold.
impl PartialEq for JobPosting {
    fn eq(&self, other: &JobPosting) -> (r: bool) {
        self.id == other.id
    }
}

impl PartialEqSpecImpl for JobPosting {
    open spec fn obeys_eq_spec() -> bool {
        true
    }

    open spec fn eq_spec(&self, other: &JobPosting) -> bool {
        self.id@ == other.id@
    }
}

impl Eq for JobPosting {

}

/// A posting is hashed by its identity alone (`<String as Hash>::hash` on the
/// field `id`), so that postings that are equal hash alike.
impl Hash for JobPosting {
    #[verifier::external_body]
    fn hash<H: Hasher>(&self, state: &mut H) {
        self.id.hash(state)
    }
}

} // verus!
