//! The embedded-payload strategy: postings read from the data that a page for
//! a signed-in reader carries in its text.

use vstd::prelude::*;

use crate::date::Date;
use crate::error::ExtractionFault;
use crate::ident::job_id;
use crate::markup::item;
use crate::models::views;
use crate::models::JobPosting;
use crate::models::JobPostingView;
use crate::text::append;
use crate::text::begins_with;
use crate::text::chars_of;
use crate::text::contains;
use crate::text::has;
use crate::text::removed;
use crate::text::same_text;
use crate::text::starts_with;
use crate::text::string_of;
use crate::text::swap_char;
use crate::text::swapped;
use crate::text::trim;
use crate::text::trimmed;
use crate::text::without;

verus! {

/// A page that holds this text carries the payload.
pub const TITLE_MARKER: &'static str = "jobPostingTitle";

/// A page that holds this text carries the payload, too.
pub const CARD_MARKER: &'static str = "JobPostingCard";

/// Finds the titles; the first group holds the title.
pub const TITLE_PATTERN: &'static str =
    "jobPostingTitle[^:]*:\\s*[&quot;\"]?([^&\"]+?)(?:&quot;|\"|,|})";

/// Finds the companies; the first group holds the name.
pub const COMPANY_PATTERN: &'static str =
    "primaryDescription[^}]*?text[^:]*:\\s*[&quot;\"]([^&\"]+?)(?:&quot;|\"|,)";

/// Finds the places; the first group holds the place.
pub const LOCATION_PATTERN: &'static str =
    "secondaryDescription[^}]*?text[^:]*:\\s*[&quot;\"]([^&\"]+?)(?:&quot;|\"|,)";

/// Finds the identifiers of the postings; the first group holds the number.
pub const IDENTIFIER_PATTERN: &'static str = "urn:li:fsd_jobPosting:(\\d+)";

/// What is left of an escaped quotation mark, whole.
pub const ESCAPED_QUOTE: &'static str = "&quot;";

/// What is left of an escaped quotation mark whose first character a pattern
/// took.
pub const ESCAPED_QUOTE_TAIL: &'static str = "quot;";

/// What stands for a title that is missing.
pub const UNKNOWN_TITLE: &'static str = "Unknown";

/// What stands for a company that is missing or is no company's name.
pub const UNKNOWN_COMPANY: &'static str = "Unknown Company";

/// What stands for a place that is missing or is no place.
pub const UNKNOWN_LOCATION: &'static str = "Location TBD";

/// A posting with an identifier is shown at this address, followed by the
/// identifier.
pub const VIEW_ADDRESS: &'static str = "https://www.linkedin.com/jobs/view/";

/// A posting without an identifier gets this address, followed by its title.
pub const SEARCH_ADDRESS: &'static str = "https://www.linkedin.com/jobs/search/?keywords=";

/// For each match of `pattern` in `text`, in the order in which the `regex`
/// crate's `Regex::captures_iter` yields them: what the capture group with the
/// number `group` matched, or `None` where it took no part in the match.
/// `None` as a whole where `Regex::new` refuses the pattern.
pub uninterp spec fn captured(pattern: Seq<char>, group: nat, text: Seq<char>) -> Option<
    Seq<Option<Seq<char>>>,
>;

/// Compiles `pattern` with `regex::Regex::new`, walks the matches in `text`
/// with `Regex::captures_iter` and takes from each, with `Captures::get`, what
/// the group `group` matched. The result depends on the arguments alone.
#[verifier::external_body]
fn capture_all(pattern: &str, group: usize, text: &str) -> (found: Option<Vec<Option<String>>>)
    ensures
        found.deep_view() == captured(pattern@, group as nat, text@),
{
    let regex = regex::Regex::new(pattern).ok()?;
    Some(
        regex.captures_iter(text).map(|c| c.get(group).map(|m| m.as_str().to_string())).collect(),
    )
}

/// The pieces of text that the payload of a page yields, each list in the
/// order of the page.
#[derive(Debug)]
pub struct Fragments {
    pub titles: Vec<Option<String>>,
    pub companies: Vec<Option<String>>,
    pub locations: Vec<Option<String>>,
    pub identifiers: Vec<Option<String>>,
}

/// The fragments as plain text.
pub struct FragmentsView {
    pub titles: Seq<Option<Seq<char>>>,
    pub companies: Seq<Option<Seq<char>>>,
    pub locations: Seq<Option<Seq<char>>>,
    pub identifiers: Seq<Option<Seq<char>>>,
}

impl View for Fragments {
    type V = FragmentsView;

    open spec fn view(&self) -> FragmentsView {
        FragmentsView {
            titles: self.titles.deep_view(),
            companies: self.companies.deep_view(),
            locations: self.locations.deep_view(),
            identifiers: self.identifiers.deep_view(),
        }
    }
}

/// Whether a page carries the payload.
pub open spec fn has_payload(html: Seq<char>) -> bool {
    contains(html, TITLE_MARKER@) || contains(html, CARD_MARKER@)
}

/// A fragment without what escaping left in it and without the white space
/// around it.
pub open spec fn clean(fragment: Seq<char>) -> Seq<char> {
    trim(without(without(fragment, ESCAPED_QUOTE@), ESCAPED_QUOTE_TAIL@))
}

/// The title that a fragment gives.
pub open spec fn title_of(fragment: Option<Seq<char>>) -> Seq<char> {
    match fragment {
        Some(text) => clean(text),
        None => clean(UNKNOWN_TITLE@),
    }
}

/// Whether a text is the name of a type of the site rather than a company's.
pub open spec fn is_type_name(text: Seq<char>) -> bool {
    contains(text, "linkedin"@) || contains(text, "voyager"@) || contains(text, "TextViewModel"@)
}

/// The company that a fragment gives.
pub open spec fn company_of(fragment: Option<Seq<char>>) -> Seq<char> {
    match fragment {
        Some(text) => if is_type_name(clean(text)) {
            UNKNOWN_COMPANY@
        } else {
            clean(text)
        },
        None => UNKNOWN_COMPANY@,
    }
}

/// The place that a fragment gives.
pub open spec fn location_of(fragment: Option<Seq<char>>) -> Seq<char> {
    match fragment {
        Some(text) => if starts_with(clean(text), "urn:li:"@) {
            UNKNOWN_LOCATION@
        } else {
            clean(text)
        },
        None => UNKNOWN_LOCATION@,
    }
}

/// The identifier for the posting at position `i`: the one at that position,
/// else the first of all.
pub open spec fn identifier_for(identifiers: Seq<Option<Seq<char>>>, i: int) -> Option<
    Seq<char>,
> {
    match item(identifiers, i) {
        Some(identifier) => Some(identifier),
        None => item(identifiers, 0),
    }
}

/// The address of a posting: where its identifier is shown, or, without an
/// identifier, a search for its title with `+` for each space.
pub open spec fn address_of(identifier: Option<Seq<char>>, title: Seq<char>) -> Seq<char> {
    match identifier {
        Some(number) => VIEW_ADDRESS@ + number,
        None => SEARCH_ADDRESS@ + swap_char(title, ' ', '+'),
    }
}

/// The posting that the fragments give at position `i`, dated `today`. There
/// is none where the title is empty or unknown.
pub open spec fn fragment_job(fragments: FragmentsView, i: int, today: Date) -> Option<
    JobPostingView,
> {
    let title = title_of(item(fragments.titles, i));
    if title.len() == 0 || title == UNKNOWN_TITLE@ {
        None
    } else {
        let url = address_of(identifier_for(fragments.identifiers, i), title);
        Some(
            JobPostingView {
                id: job_id(url),
                title,
                company: company_of(item(fragments.companies, i)),
                location: location_of(item(fragments.locations, i)),
                url,
                posted_date: Some(today),
                description: None,
            },
        )
    }
}

/// The postings that the fragments give, one for each title that is not empty
/// or unknown, in the order of the titles, dated `today`.
pub open spec fn fragment_jobs(fragments: FragmentsView, today: Date) -> Seq<JobPostingView> {
    Seq::new(fragments.titles.len(), |i: int| fragment_job(fragments, i, today)).filter_map(
        |job: Option<JobPostingView>| job,
    )
}

fn entry(list: &Vec<Option<String>>, i: usize) -> (r: Option<&String>)
    ensures
        match r {
            Some(text) => item(list.deep_view(), i as int) == Some(text@),
            None => item(list.deep_view(), i as int) is None,
        },
{
    if i < list.len() {
        match &list[i] {
            Some(text) => Some(text),
            None => None,
        }
    } else {
        None
    }
}

fn cleaned(fragment: &str) -> (r: Vec<char>)
    ensures
        r@ == clean(fragment@),
{
    let whole = removed(&chars_of(fragment), &chars_of(ESCAPED_QUOTE));
    trimmed(&removed(&whole, &chars_of(ESCAPED_QUOTE_TAIL)))
}

fn company(fragment: Option<&String>) -> (r: String)
    ensures
        r@ == company_of(
            match fragment {
                Some(text) => Some(text@),
                None => None,
            },
        ),
{
    match fragment {
        Some(text) => {
            let name = cleaned(text.as_str());
            if has(&name, &chars_of("linkedin")) || has(&name, &chars_of("voyager")) || has(
                &name,
                &chars_of("TextViewModel"),
            ) {
                UNKNOWN_COMPANY.to_owned()
            } else {
                string_of(&name)
            }
        },
        None => UNKNOWN_COMPANY.to_owned(),
    }
}

fn location(fragment: Option<&String>) -> (r: String)
    ensures
        r@ == location_of(
            match fragment {
                Some(text) => Some(text@),
                None => None,
            },
        ),
{
    match fragment {
        Some(text) => {
            let place = cleaned(text.as_str());
            if begins_with(&place, &chars_of("urn:li:")) {
                UNKNOWN_LOCATION.to_owned()
            } else {
                string_of(&place)
            }
        },
        None => UNKNOWN_LOCATION.to_owned(),
    }
}

fn address(identifier: Option<&String>, title: &Vec<char>) -> (r: String)
    ensures
        r@ == address_of(
            match identifier {
                Some(text) => Some(text@),
                None => None,
            },
            title@,
        ),
{
    match identifier {
        Some(number) => {
            let mut url = chars_of(VIEW_ADDRESS);
            append(&mut url, &chars_of(number.as_str()));
            string_of(&url)
        },
        None => {
            let mut url = chars_of(SEARCH_ADDRESS);
            append(&mut url, &swapped(title, ' ', '+'));
            string_of(&url)
        },
    }
}

/// The posting that the fragments give at position `i`, dated `today`.
pub fn job_from_fragments(fragments: &Fragments, i: usize, today: Date) -> (r: Option<JobPosting>)
    ensures
        match r {
            Some(job) => fragment_job(fragments@, i as int, today) == Some(job@),
            None => fragment_job(fragments@, i as int, today) is None,
        },
{
    let title = match entry(&fragments.titles, i) {
        Some(text) => cleaned(text.as_str()),
        None => cleaned(UNKNOWN_TITLE),
    };
    if title.len() == 0 || same_text(&title, &chars_of(UNKNOWN_TITLE)) {
        return None;
    }
    let identifier = match entry(&fragments.identifiers, i) {
        Some(text) => Some(text),
        None => entry(&fragments.identifiers, 0),
    };
    Some(
        JobPosting::extracted(
            string_of(&title),
            company(entry(&fragments.companies, i)),
            location(entry(&fragments.locations, i)),
            address(identifier, &title),
            Some(today),
        ),
    )
}

/// The postings that the fragments give, in the order of the titles, dated
/// `today`.
pub fn jobs_from_fragments(fragments: &Fragments, today: Date) -> (jobs: Vec<JobPosting>)
    ensures
        views(jobs@) == fragment_jobs(fragments@, today),
{
    let mut jobs: Vec<JobPosting> = Vec::new();
    let ghost all = Seq::new(
        fragments@.titles.len(),
        |i: int| fragment_job(fragments@, i, today),
    );
    let ghost pick = |job: Option<JobPostingView>| job;
    let mut i: usize = 0;
    assert(all.take(0) == Seq::<Option<JobPostingView>>::empty());
    while i < fragments.titles.len()
        invariant
            i <= fragments.titles.len(),
            all == Seq::new(fragments@.titles.len(), |i: int| fragment_job(fragments@, i, today)),
            pick == |job: Option<JobPostingView>| job,
            views(jobs@) == all.take(i as int).filter_map(pick),
        decreases fragments.titles.len() - i,
    {
        proof {
            all.lemma_filter_map_take_succ(pick, i as int);
        }
        match job_from_fragments(fragments, i, today) {
            Some(job) => {
                proof {
                    jobs@.lemma_push_map_commute(|j: JobPosting| j@, job);
                }
                jobs.push(job);
            },
            None => {},
        }
        i += 1;
    }
    assert(all.take(fragments.titles.len() as int) == all);
    jobs
}

/// The fragments that the patterns find in a page, or `None` where a pattern
/// was not accepted.
pub open spec fn page_fragments(html: Seq<char>) -> Option<FragmentsView> {
    let titles = captured(TITLE_PATTERN@, 1, html);
    let companies = captured(COMPANY_PATTERN@, 1, html);
    let locations = captured(LOCATION_PATTERN@, 1, html);
    let identifiers = captured(IDENTIFIER_PATTERN@, 1, html);
    if titles is Some && companies is Some && locations is Some && identifiers is Some {
        Some(
            FragmentsView {
                titles: titles->0,
                companies: companies->0,
                locations: locations->0,
                identifiers: identifiers->0,
            },
        )
    } else {
        None
    }
}

/// Finds the fragments of a page's payload. Fails where a pattern is not
/// accepted.
pub fn read_fragments(html: &str) -> (r: Result<Fragments, ExtractionFault>)
    ensures
        match r {
            Ok(fragments) => page_fragments(html@) == Some(fragments@),
            Err(fault) => fault == ExtractionFault::Pattern && page_fragments(html@) is None,
        },
{
    let titles = match capture_all(TITLE_PATTERN, 1, html) {
        Some(found) => found,
        None => { return Err(ExtractionFault::Pattern); },
    };
    let companies = match capture_all(COMPANY_PATTERN, 1, html) {
        Some(found) => found,
        None => { return Err(ExtractionFault::Pattern); },
    };
    let locations = match capture_all(LOCATION_PATTERN, 1, html) {
        Some(found) => found,
        None => { return Err(ExtractionFault::Pattern); },
    };
    let identifiers = match capture_all(IDENTIFIER_PATTERN, 1, html) {
        Some(found) => found,
        None => { return Err(ExtractionFault::Pattern); },
    };
    Ok(Fragments { titles, companies, locations, identifiers })
}

/// The postings of a page by its payload, dated `today`.
pub open spec fn payload_jobs(html: Seq<char>, today: Date) -> Option<Seq<JobPostingView>> {
    match page_fragments(html) {
        Some(fragments) => Some(fragment_jobs(fragments, today)),
        None => None,
    }
}

/// Whether a page carries the payload.
pub fn carries_payload(html: &str) -> (r: bool)
    ensures
        r == has_payload(html@),
{
    let page = chars_of(html);
    has(&page, &chars_of(TITLE_MARKER)) || has(&page, &chars_of(CARD_MARKER))
}

/// Reads the postings of a page from its payload and dates them `today`. Fails
/// where a pattern is not accepted.
pub fn parse_jobs_from_json(html: &str, today: Date) -> (r: Result<
    Vec<JobPosting>,
    ExtractionFault,
>)
    ensures
        match r {
            Ok(jobs) => payload_jobs(html@, today) == Some(views(jobs@)),
            Err(fault) => fault == ExtractionFault::Pattern && payload_jobs(html@, today) is None,
        },
{
    match read_fragments(html) {
        Ok(fragments) => Ok(jobs_from_fragments(&fragments, today)),
        Err(fault) => Err(fault),
    }
}

} // verus!
