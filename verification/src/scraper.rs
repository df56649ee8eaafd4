//! The search request and what comes back: the address to ask, the cookies to
//! send, and the postings in the answer.

use vstd::prelude::*;
use vstd::utf8::encode_utf8;

pub use crate::ident::generate_job_id;
pub use crate::relative::parse_relative_date;

use crate::config::checked_salary_min;
use crate::config::salary_floor;
use crate::config::LOWEST_SALARY_FLOOR;
use crate::date::current_date;
use crate::date::Date;
use crate::error::ExtractionFault;
use crate::error::ScrapeError;
use crate::markup::markup_jobs;
use crate::markup::parse_jobs_from_markup;
use crate::models::views;
use crate::models::JobPosting;
use crate::models::JobPostingView;
use crate::numeral::decimal;
use crate::numeral::to_decimal;
use crate::payload::carries_payload;
use crate::payload::has_payload;
use crate::payload::parse_jobs_from_json;
use crate::payload::payload_jobs;
use crate::text::append;
use crate::text::chars_of;
use crate::text::contains;
use crate::text::join;
use crate::text::lemma_join_contains;
use crate::text::occurs_at;
use crate::text::joined;
use crate::text::lines;
use crate::text::split_lines;
use crate::text::string_of;
use crate::text::texts_of;
use crate::text::trim;
use crate::text::trimmed;

verus! {

/// The page that answers a search.
pub const SEARCH_PAGE: &'static str = "https://www.linkedin.com/jobs/search";

/// The dollars between one salary floor of the site and the next.
pub const SALARY_STEP: u32 = 20000;

/// Whether `application/x-www-form-urlencoded` leaves a byte as it is: the
/// letters and digits of ASCII and `*`, `-`, `.` and `_`.
pub open spec fn is_plain(byte: u8) -> bool {
    ||| byte == 0x2a
    ||| byte == 0x2d
    ||| byte == 0x2e
    ||| 0x30 <= byte <= 0x39
    ||| 0x41 <= byte <= 0x5a
    ||| byte == 0x5f
    ||| 0x61 <= byte <= 0x7a
}

/// The digit for a value below sixteen, in upper case.
pub open spec fn upper_digit(value: int) -> char {
    if 0 <= value < 10 {
        (0x30 + value) as char
    } else {
        (0x41 + value - 10) as char
    }
}

/// How `application/x-www-form-urlencoded` writes one byte: a plain byte as
/// itself, a space as `+`, any other as `%` and its two digits in hexadecimal.
pub open spec fn encoded_byte(byte: u8) -> Seq<char> {
    if is_plain(byte) {
        seq![byte as char]
    } else if byte == 0x20 {
        seq!['+']
    } else {
        seq!['%', upper_digit(byte as int / 16), upper_digit(byte as int % 16)]
    }
}

/// How `application/x-www-form-urlencoded` writes a text: its bytes in UTF-8,
/// each written as `encoded_byte` says.
pub open spec fn form_encoded(text: Seq<char>) -> Seq<char> {
    encode_utf8(text).flat_map(|byte: u8| encoded_byte(byte))
}

/// Writes `text` as `application/x-www-form-urlencoded` does, with the `url`
/// crate's `form_urlencoded::byte_serialize` on the bytes of the text.
#[verifier::external_body]
fn form_encode(text: &str) -> (r: String)
    ensures
        r@ == form_encoded(text@),
{
    url::form_urlencoded::byte_serialize(text.as_bytes()).collect()
}

/// A parameter of a request as it stands in the address: name and value, each
/// written as `application/x-www-form-urlencoded` does, with `=` between.
pub open spec fn parameter_text(name: Seq<char>, value: Seq<char>) -> Seq<char> {
    form_encoded(name) + seq!['='] + form_encoded(value)
}

/// The query of a request: its parameters with `&` between each two.
pub open spec fn query_text(parameters: Seq<(Seq<char>, Seq<char>)>) -> Seq<char> {
    join(
        parameters.map_values(|p: (Seq<char>, Seq<char>)| parameter_text(p.0, p.1)),
        seq!['&'],
    )
}

/// The number by which the site knows a salary floor: 1 for 40000 dollars, and
/// one more for each further 20000.
pub open spec fn salary_level(floor: u32) -> nat {
    ((floor - LOWEST_SALARY_FLOOR) / SALARY_STEP as int + 1) as nat
}

/// The parameters of a search: keywords, place and the restriction to the last
/// 24 hours always, the restriction to remote work where it is asked for, and
/// the salary floor where one is set within the range.
pub open spec fn search_parameters(
    keywords: Seq<char>,
    location: Seq<char>,
    remote: bool,
    salary_min: Option<u32>,
) -> Seq<(Seq<char>, Seq<char>)> {
    seq![("keywords"@, keywords), ("location"@, location), ("f_TPR"@, "r86400"@)] + (if remote {
        seq![("f_WT"@, "2"@)]
    } else {
        Seq::empty()
    }) + (match salary_floor(salary_min) {
        Some(floor) => seq![("f_SB2"@, decimal(salary_level(floor)))],
        None => Seq::empty(),
    })
}

/// The address of a search.
pub open spec fn search_url(
    keywords: Seq<char>,
    location: Seq<char>,
    remote: bool,
    salary_min: Option<u32>,
) -> Seq<char> {
    SEARCH_PAGE@ + seq!['?'] + query_text(
        search_parameters(keywords, location, remote, salary_min),
    )
}

/// The names and values behind a run of parameters.
pub open spec fn parameter_views(parameters: Seq<(String, String)>) -> Seq<
    (Seq<char>, Seq<char>),
> {
    parameters.map_values(|p: (String, String)| (p.0@, p.1@))
}

/// The query that holds the given parameters.
pub fn query_of(parameters: &Vec<(String, String)>) -> (query: Vec<char>)
    ensures
        query@ == query_text(parameter_views(parameters@)),
{
    let ghost texts = parameter_views(parameters@).map_values(
        |p: (Seq<char>, Seq<char>)| parameter_text(p.0, p.1),
    );
    let mut query: Vec<char> = Vec::new();
    let mut i: usize = 0;
    assert(texts.take(0) == Seq::<Seq<char>>::empty());
    while i < parameters.len()
        invariant
            i <= parameters.len(),
            texts == parameter_views(parameters@).map_values(
                |p: (Seq<char>, Seq<char>)| parameter_text(p.0, p.1),
            ),
            query@ == join(texts.take(i as int), seq!['&']),
        decreases parameters.len() - i,
    {
        let ghost next = texts.take(i + 1);
        assert(next.drop_last() == texts.take(i as int));
        assert(next.last() == parameter_text(parameters@[i as int].0@, parameters@[i as int].1@));
        let ghost before = query@;
        if i > 0 {
            query.push('&');
            assert(query@ == before + seq!['&']);
        }
        let name = form_encode(parameters[i].0.as_str());
        append(&mut query, &chars_of(name.as_str()));
        query.push('=');
        let value = form_encode(parameters[i].1.as_str());
        append(&mut query, &chars_of(value.as_str()));
        assert(query@ == (if i > 0 {
            before + seq!['&']
        } else {
            before
        }) + next.last());
        assert(i == 0 ==> Seq::<char>::empty() + next.last() == next.last());
        i += 1;
    }
    assert(texts.take(parameters.len() as int) == texts);
    query
}

fn push_parameter(parameters: &mut Vec<(String, String)>, name: &str, value: String)
    ensures
        parameter_views(final(parameters)@) == parameter_views(old(parameters)@).push(
            (name@, value@),
        ),
{
    let parameter = (name.to_owned(), value);
    proof {
        parameters@.lemma_push_map_commute(|p: (String, String)| (p.0@, p.1@), parameter);
    }
    parameters.push(parameter);
}

/// The parameters of a search.
pub fn search_parameters_of(
    keywords: &str,
    location: &str,
    remote: bool,
    salary_min: Option<u32>,
) -> (parameters: Vec<(String, String)>)
    ensures
        parameter_views(parameters@) == search_parameters(
            keywords@,
            location@,
            remote,
            salary_min,
        ),
{
    let mut parameters: Vec<(String, String)> = Vec::new();
    assert(parameter_views(parameters@) == Seq::<(Seq<char>, Seq<char>)>::empty());
    push_parameter(&mut parameters, "keywords", keywords.to_owned());
    push_parameter(&mut parameters, "location", location.to_owned());
    push_parameter(&mut parameters, "f_TPR", "r86400".to_owned());
    let ghost always = parameter_views(parameters@);
    assert(always == seq![("keywords"@, keywords@), ("location"@, location@), ("f_TPR"@, "r86400"@)]);
    if remote {
        push_parameter(&mut parameters, "f_WT", "2".to_owned());
        assert(parameter_views(parameters@) == always + seq![("f_WT"@, "2"@)]);
    } else {
        assert(always + Seq::empty() == always);
    }
    let ghost before = parameter_views(parameters@);
    match checked_salary_min(salary_min) {
        Some(floor) => {
            let level: u32 = (floor - LOWEST_SALARY_FLOOR) / SALARY_STEP + 1;
            push_parameter(&mut parameters, "f_SB2", to_decimal(level as u64));
            assert(parameter_views(parameters@) == before + seq![
                ("f_SB2"@, decimal(salary_level(floor))),
            ]);
        },
        None => {
            assert(before + Seq::empty() == before);
        },
    }
    parameters
}

/// The address that answers a search for `keywords` at `location` among the
/// postings of the last 24 hours, for remote work only where `remote` is set,
/// and with `salary_min` as the least salary where it lies between 40000 and
/// 200000.
pub fn build_search_url(keywords: &str, location: &str, remote: bool, salary_min: Option<u32>) -> (url:
    String)
    ensures
        url@ == search_url(keywords@, location@, remote, salary_min),
{
    let parameters = search_parameters_of(keywords, location, remote, salary_min);
    let mut url = chars_of(SEARCH_PAGE);
    url.push('?');
    append(&mut url, &query_of(&parameters));
    string_of(&url)
}

/// Whether a line of a cookie file, without the white space around it, holds
/// a cookie: it is not empty and does not begin with `#`.
pub open spec fn is_cookie_line(line: Seq<char>) -> bool {
    line.len() > 0 && line[0] != '#'
}

/// The cookies of a cookie file: its lines without the white space around
/// them, but for the empty ones and the comments.
pub open spec fn cookie_lines(content: Seq<char>) -> Seq<Seq<char>> {
    lines(content).map_values(|line: Seq<char>| trim(line)).filter(
        |line: Seq<char>| is_cookie_line(line),
    )
}

/// The cookie header for a cookie file: its cookies with `; ` between each two.
pub open spec fn cookie_header_of(content: Seq<char>) -> Seq<char> {
    join(cookie_lines(content), "; "@)
}

/// The value of the cookie header for the text of a cookie file, which holds
/// one `name=value` on a line. Empty lines and lines that begin with `#` do not
/// count.
pub fn cookie_header(content: &str) -> (header: String)
    ensures
        header@ == cookie_header_of(content@),
{
    let parts = split_lines(&chars_of(content));
    let ghost all = lines(content@);
    let ghost strip = |line: Seq<char>| trim(line);
    let ghost keep = |line: Seq<char>| is_cookie_line(line);
    let mut cookies: Vec<String> = Vec::new();
    let mut i: usize = 0;
    assert(all.take(0).map_values(strip).filter(keep) == Seq::<Seq<char>>::empty()) by {
        reveal(Seq::filter);
    }
    while i < parts.len()
        invariant
            i <= parts.len(),
            all == parts@.map_values(|part: Vec<char>| part@),
            strip == |line: Seq<char>| trim(line),
            keep == |line: Seq<char>| is_cookie_line(line),
            texts_of(cookies@) == all.take(i as int).map_values(strip).filter(keep),
        decreases parts.len() - i,
    {
        let line = trimmed(&parts[i]);
        proof {
            all.lemma_take_succ_push(i as int);
            all.take(i as int).lemma_push_map_commute(strip, all[i as int]);
            all.take(i as int).map_values(strip).lemma_filter_push(line@, keep);
        }
        if line.len() > 0 && line[0] != '#' {
            let cookie = string_of(&line);
            proof {
                cookies@.lemma_push_map_commute(|part: String| part@, cookie);
            }
            cookies.push(cookie);
        }
        i += 1;
    }
    assert(all.take(parts.len() as int) == all);
    string_of(&joined(&cookies, "; "))
}

/// Whether a status says that the request succeeded: 200 to 299.
pub open spec fn is_success(status: u16) -> bool {
    200 <= status <= 299
}

/// What a response amounts to: its body where the status says success, and
/// the status as a failure where it does not.
pub fn response_body(status: u16, body: String) -> (r: Result<String, ScrapeError>)
    ensures
        match r {
            Ok(text) => is_success(status) && text == body,
            Err(error) => !is_success(status) && error == ScrapeError::Fetch(status),
        },
{
    if 200 <= status && status <= 299 {
        Ok(body)
    } else {
        Err(ScrapeError::Fetch(status))
    }
}

/// The two ways to read postings from a page.
#[derive(Clone, Copy, Debug, PartialEq, Eq, Structural)]
pub enum Extractor {
    /// From the data that a page for a signed-in reader carries in its text.
    EmbeddedPayload,
    /// From the cards of the page's markup.
    Markup,
}

/// The way to read a page: by its payload where it carries one, by its markup
/// where it does not.
pub open spec fn extractor_for(html: Seq<char>) -> Extractor {
    if has_payload(html) {
        Extractor::EmbeddedPayload
    } else {
        Extractor::Markup
    }
}

/// The fault that keeps an extractor from working.
pub open spec fn fault_of(extractor: Extractor) -> ExtractionFault {
    match extractor {
        Extractor::EmbeddedPayload => ExtractionFault::Pattern,
        Extractor::Markup => ExtractionFault::Selector,
    }
}

/// The postings of a page, read in the one way that `extractor_for` gives for
/// it, with `today` as the current date; `None` where that way cannot be set
/// up.
pub open spec fn page_jobs(html: Seq<char>, today: Date) -> Option<Seq<JobPostingView>> {
    match extractor_for(html) {
        Extractor::EmbeddedPayload => payload_jobs(html, today),
        Extractor::Markup => markup_jobs(html, today),
    }
}

/// The way to read the page.
pub fn choose_extractor(html: &str) -> (extractor: Extractor)
    ensures
        extractor == extractor_for(html@),
{
    if carries_payload(html) {
        Extractor::EmbeddedPayload
    } else {
        Extractor::Markup
    }
}

/// Reads the postings of a results page, with `today` as the current date. A
/// page is read in one way only: a page with a payload is never read by its
/// markup, whatever the payload yields.
pub fn extract_jobs(html: &str, today: Date) -> (r: Result<Vec<JobPosting>, ScrapeError>)
    ensures
        match r {
            Ok(jobs) => page_jobs(html@, today) == Some(views(jobs@)),
            Err(error) => page_jobs(html@, today) is None && error == ScrapeError::Extraction(
                fault_of(extractor_for(html@)),
            ),
        },
{
    let outcome = match choose_extractor(html) {
        Extractor::EmbeddedPayload => parse_jobs_from_json(html, today),
        Extractor::Markup => parse_jobs_from_markup(html, today),
    };
    match outcome {
        Ok(jobs) => Ok(jobs),
        Err(fault) => Err(ScrapeError::Extraction(fault)),
    }
}

/// Reads the postings of a results page, with the current date of the machine
/// as today: whatever that date is, the result is what `extract_jobs` gives
/// for it.
pub fn parse_jobs_from_html(html: &str) -> (r: Result<Vec<JobPosting>, ScrapeError>)
    ensures
        exists|today: Date|
            today.is_valid() && match r {
                Ok(jobs) => #[trigger] page_jobs(html@, today) == Some(views(jobs@)),
                Err(error) => page_jobs(html@, today) is None && error == ScrapeError::Extraction(
                    fault_of(extractor_for(html@)),
                ),
            },
{
    extract_jobs(html, current_date())
}

/// A page with a payload is read by its payload alone and a page without one
/// by its markup alone: what the other way would give plays no part.
pub proof fn lemma_one_way_per_page(html: Seq<char>, today: Date)
    ensures
        has_payload(html) ==> page_jobs(html, today) == payload_jobs(html, today),
        !has_payload(html) ==> page_jobs(html, today) == markup_jobs(html, today),
        extractor_for(html) == Extractor::EmbeddedPayload <==> has_payload(html),
{
}

/// The parameters of every search: keywords, place and the restriction to the
/// last 24 hours are among them; the restriction to remote work is among them
/// exactly where it is asked for; and a salary floor is among them exactly
/// where one is set between 40000 and 200000.
pub proof fn lemma_search_parameters(
    keywords: Seq<char>,
    location: Seq<char>,
    remote: bool,
    salary_min: Option<u32>,
)
    ensures
        search_parameters(keywords, location, remote, salary_min).contains(
            ("keywords"@, keywords),
        ),
        search_parameters(keywords, location, remote, salary_min).contains(
            ("location"@, location),
        ),
        search_parameters(keywords, location, remote, salary_min).contains(
            ("f_TPR"@, "r86400"@),
        ),
        remote <==> search_parameters(keywords, location, remote, salary_min).contains(
            ("f_WT"@, "2"@),
        ),
        (salary_min matches Some(floor) && 40000 <= floor <= 200000) <==> (exists|i: int|
            0 <= i < search_parameters(keywords, location, remote, salary_min).len()
                && #[trigger] search_parameters(keywords, location, remote, salary_min)[i].0
                == "f_SB2"@),
{
    reveal_strlit("keywords");
    reveal_strlit("location");
    reveal_strlit("f_TPR");
    reveal_strlit("f_WT");
    reveal_strlit("f_SB2");
    let all = search_parameters(keywords, location, remote, salary_min);
    assert(all[0] == ("keywords"@, keywords));
    assert(all[1] == ("location"@, location));
    assert(all[2] == ("f_TPR"@, "r86400"@));
    assert("keywords"@.len() == 8 && "location"@.len() == 8 && "f_TPR"@.len() == 5 && "f_WT"@.len()
        == 4 && "f_SB2"@.len() == 5);
    assert("f_TPR"@[2] == 'T' && "f_SB2"@[2] == 'S');
    if remote {
        assert(all[3] == ("f_WT"@, "2"@));
    }
    if salary_floor(salary_min) is Some {
        let last = all.len() - 1;
        assert(all[last].0 == "f_SB2"@);
    }
}

/// The address of every search holds each of its parameters as text.
pub proof fn lemma_search_url_holds_parameters(
    keywords: Seq<char>,
    location: Seq<char>,
    remote: bool,
    salary_min: Option<u32>,
    i: int,
)
    requires
        0 <= i < search_parameters(keywords, location, remote, salary_min).len(),
    ensures
        contains(
            search_url(keywords, location, remote, salary_min),
            parameter_text(
                search_parameters(keywords, location, remote, salary_min)[i].0,
                search_parameters(keywords, location, remote, salary_min)[i].1,
            ),
        ),
        occurs_at(search_url(keywords, location, remote, salary_min), SEARCH_PAGE@, 0),
{
    let all = search_parameters(keywords, location, remote, salary_min);
    let texts = all.map_values(|p: (Seq<char>, Seq<char>)| parameter_text(p.0, p.1));
    let query = join(texts, seq!['&']);
    let lead = SEARCH_PAGE@ + seq!['?'];
    let url = search_url(keywords, location, remote, salary_min);
    lemma_join_contains(texts, seq!['&'], i);
    let at = choose|at: int| occurs_at(query, texts[i], at);
    assert(url == lead + query);
    assert(url.subrange(lead.len() + at, lead.len() + at + texts[i].len()) == query.subrange(
        at,
        at + texts[i].len(),
    ));
    assert(occurs_at(url, texts[i], lead.len() + at));
    assert(url.subrange(0, SEARCH_PAGE@.len() as int) == SEARCH_PAGE@);
}

} // verus!
