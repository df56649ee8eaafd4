//! The markup strategy: postings read from the cards of a results page.

use vstd::prelude::*;

use crate::date::parse_date;
use crate::date::parsed_date;
use crate::date::Date;
use crate::error::ExtractionFault;
use crate::ident::job_id;
use crate::models::views;
use crate::models::JobPosting;
use crate::models::JobPostingView;
use crate::relative::lowercase;
use crate::relative::relative_date_on;
use crate::relative::relative_day;
use crate::text::begins_with;
use crate::text::chars_of;
use crate::text::append;
use crate::text::join;
use crate::text::joined;
use crate::text::starts_with;
use crate::text::string_of;
use crate::text::texts_of;
use crate::text::trim;
use crate::text::trimmed;

verus! {

/// The elements that hold one posting each.
pub const CARD_SELECTOR: &'static str = ".base-card, .job-card-container, [data-job-id]";

/// Within a card, the element with the title.
pub const TITLE_SELECTOR: &'static str =
    "h3.base-search-card__title, .job-card-list__title, a.job-card-list__title";

/// Within a card, the element with the company's name.
pub const COMPANY_SELECTOR: &'static str =
    "h4.base-search-card__subtitle, .job-card-container__company-name, a.job-card-container__company-name";

/// Within a card, the element with the place.
pub const LOCATION_SELECTOR: &'static str =
    ".job-search-card__location, .job-card-container__metadata-item";

/// Within a card, the link to the posting.
pub const LINK_SELECTOR: &'static str = "a.base-card__full-link, a.job-card-list__title";

/// Within a card, the element with the date.
pub const DATE_SELECTOR: &'static str =
    "time[class*='job-search-card__listdate'], time.job-search-card__listdate, .job-search-card__listdate, .job-search-card__listdate--new";

/// The attribute of a link that holds its target.
pub const LINK_ATTRIBUTE: &'static str = "href";

/// The attribute of a date element that holds the date for machines.
pub const DATE_ATTRIBUTE: &'static str = "datetime";

/// How the date for machines is written.
pub const DATE_FORMAT: &'static str = "%Y-%m-%d";

/// The site that relative links belong to.
pub const SITE_ORIGIN: &'static str = "https://www.linkedin.com";

/// What stands for a title, a company or a place that a card does not show.
pub const UNKNOWN: &'static str = "Unknown";

/// For each element of the document `html` that matches the selector group
/// `scope`, in the order in which the `scraper` crate's `Html::select` yields
/// them: the text nodes below the first element under it that matches
/// `target`, by `ElementRef::select` and `ElementRef::text`, or `None` where
/// none matches. `None` as a whole where `Selector::parse` refuses one of the
/// two selector groups.
pub uninterp spec fn selected_texts(html: Seq<char>, scope: Seq<char>, target: Seq<char>) -> Option<
    Seq<Option<Seq<Seq<char>>>>,
>;

/// As `selected_texts`, but in place of the text nodes the value of the
/// attribute `attribute` of that first element, by `Element::attr`: `None`
/// where no element matches or the element has no such attribute.
pub uninterp spec fn selected_attribute(
    html: Seq<char>,
    scope: Seq<char>,
    target: Seq<char>,
    attribute: Seq<char>,
) -> Option<Seq<Option<Seq<char>>>>;

/// Parses `html` with `scraper::Html::parse_document` and both selector groups
/// with `scraper::Selector::parse`, and reads off what `selected_texts`
/// describes. The result depends on the three texts alone.
#[verifier::external_body]
fn select_texts(html: &str, scope: &str, target: &str) -> (found: Option<
    Vec<Option<Vec<String>>>,
>)
    ensures
        found.deep_view() == selected_texts(html@, scope@, target@),
{
    let scope = ::scraper::Selector::parse(scope).ok()?;
    let target = ::scraper::Selector::parse(target).ok()?;
    let document = ::scraper::Html::parse_document(html);
    Some(
        document.select(&scope).map(
            |card| card.select(&target).next().map(|e| e.text().map(|t| t.to_string()).collect()),
        ).collect(),
    )
}

/// Parses `html` with `scraper::Html::parse_document` and both selector groups
/// with `scraper::Selector::parse`, and reads off what `selected_attribute`
/// describes. The result depends on the four texts alone.
#[verifier::external_body]
fn select_attribute(html: &str, scope: &str, target: &str, attribute: &str) -> (found: Option<
    Vec<Option<String>>,
>)
    ensures
        found.deep_view() == selected_attribute(html@, scope@, target@, attribute@),
{
    let scope = ::scraper::Selector::parse(scope).ok()?;
    let target = ::scraper::Selector::parse(target).ok()?;
    let document = ::scraper::Html::parse_document(html);
    Some(
        document.select(&scope).map(
            |card|
                card.select(&target).next().and_then(|e| e.value().attr(attribute)).map(
                    |value| value.to_string(),
                ),
        ).collect(),
    )
}

/// What the extraction reads from one card of a results page.
#[derive(Debug)]
pub struct Card {
    /// The first text node of the title element.
    pub title: Option<String>,
    /// The text nodes of the company element, in order.
    pub company: Option<Vec<String>>,
    /// The first text node of the location element.
    pub location: Option<String>,
    /// The target of the link to the posting.
    pub href: Option<String>,
    /// The date for machines of the date element.
    pub datetime: Option<String>,
    /// The first text node of the date element.
    pub date_text: Option<String>,
}

/// A card as plain text.
pub struct CardView {
    pub title: Option<Seq<char>>,
    pub company: Option<Seq<Seq<char>>>,
    pub location: Option<Seq<char>>,
    pub href: Option<Seq<char>>,
    pub datetime: Option<Seq<char>>,
    pub date_text: Option<Seq<char>>,
}

/// The text behind a string that may be missing.
pub open spec fn text_of(text: Option<String>) -> Option<Seq<char>> {
    match text {
        Some(t) => Some(t@),
        None => None,
    }
}

impl View for Card {
    type V = CardView;

    open spec fn view(&self) -> CardView {
        CardView {
            title: text_of(self.title),
            company: match self.company {
                Some(parts) => Some(texts_of(parts@)),
                None => None,
            },
            location: text_of(self.location),
            href: text_of(self.href),
            datetime: text_of(self.datetime),
            date_text: text_of(self.date_text),
        }
    }
}

/// The views of a run of cards, in order.
pub open spec fn card_views(cards: Seq<Card>) -> Seq<CardView> {
    cards.map_values(|card: Card| card@)
}

/// A title or a place as a posting shows it: the text without the white space
/// around it, or "Unknown" where the card has none.
pub open spec fn label_of(text: Option<Seq<char>>) -> Seq<char> {
    match text {
        Some(t) => trim(t),
        None => UNKNOWN@,
    }
}

/// A company's name as a posting shows it: all text of the element, its pieces
/// joined by one space, without the white space around the whole; or "Unknown"
/// where the card has no such element.
pub open spec fn company_of(texts: Option<Seq<Seq<char>>>) -> Seq<char> {
    match texts {
        Some(parts) => trim(join(parts, " "@)),
        None => UNKNOWN@,
    }
}

/// The address that a link's target stands for: the target itself where it
/// begins with "http", else the site's origin followed by the target.
pub open spec fn absolute_url(href: Seq<char>) -> Seq<char> {
    if starts_with(href, "http"@) {
        href
    } else {
        SITE_ORIGIN@ + href
    }
}

/// The day that a date text names, seen from `today`: the calendar date that it
/// writes as year, month and day, else the day that it names as a phrase.
pub open spec fn day_of(text: Seq<char>, today: Date) -> Option<Date> {
    match parsed_date(text, DATE_FORMAT@) {
        Some(day) => Some(day),
        None => relative_day(lowercase(text), today),
    }
}

/// The day a card was posted: read from the date for machines where the card
/// has one, else from the date's visible text.
pub open spec fn posted_day(card: CardView, today: Date) -> Option<Date> {
    match card.datetime {
        Some(text) => day_of(text, today),
        None => match card.date_text {
            Some(text) => day_of(text, today),
            None => None,
        },
    }
}

/// The posting that a card shows. A card without a link shows none.
pub open spec fn card_job(card: CardView, today: Date) -> Option<JobPostingView> {
    match card.href {
        Some(href) => Some(
            JobPostingView {
                id: job_id(absolute_url(href)),
                title: label_of(card.title),
                company: company_of(card.company),
                location: label_of(card.location),
                url: absolute_url(href),
                posted_date: posted_day(card, today),
                description: None,
            },
        ),
        None => None,
    }
}

/// The postings that a run of cards shows, in the order of the cards.
pub open spec fn card_jobs(cards: Seq<CardView>, today: Date) -> Seq<JobPostingView> {
    cards.filter_map(|card: CardView| card_job(card, today))
}

fn label(text: &Option<String>) -> (r: String)
    ensures
        r@ == label_of(text_of(*text)),
{
    match text {
        Some(t) => string_of(&trimmed(&chars_of(t.as_str()))),
        None => UNKNOWN.to_owned(),
    }
}

fn company(texts: &Option<Vec<String>>) -> (r: String)
    ensures
        r@ == company_of(
            match *texts {
                Some(parts) => Some(texts_of(parts@)),
                None => None,
            },
        ),
{
    match texts {
        Some(parts) => string_of(&trimmed(&joined(parts, " "))),
        None => UNKNOWN.to_owned(),
    }
}

/// The address that a link's target stands for.
pub fn absolute(href: &str) -> (url: String)
    ensures
        url@ == absolute_url(href@),
{
    let target = chars_of(href);
    if begins_with(&target, &chars_of("http")) {
        string_of(&target)
    } else {
        let mut url = chars_of(SITE_ORIGIN);
        append(&mut url, &target);
        string_of(&url)
    }
}

/// The day that a date text names, seen from `today`.
pub fn day_named(text: &str, today: Date) -> (r: Option<Date>)
    ensures
        r == day_of(text@, today),
{
    match parse_date(text, DATE_FORMAT) {
        Some(day) => Some(day),
        None => relative_date_on(text, today),
    }
}

fn posted(card: &Card, today: Date) -> (r: Option<Date>)
    ensures
        r == posted_day(card@, today),
{
    match &card.datetime {
        Some(text) => day_named(text.as_str(), today),
        None => match &card.date_text {
            Some(text) => day_named(text.as_str(), today),
            None => None,
        },
    }
}

/// The posting that a card shows, with `today` as the current date.
pub fn job_from_card(card: &Card, today: Date) -> (r: Option<JobPosting>)
    ensures
        match r {
            Some(job) => card_job(card@, today) == Some(job@),
            None => card_job(card@, today) is None,
        },
{
    match &card.href {
        Some(href) => Some(
            JobPosting::extracted(
                label(&card.title),
                company(&card.company),
                label(&card.location),
                absolute(href.as_str()),
                posted(card, today),
            ),
        ),
        None => None,
    }
}

/// The postings that the cards show, in the order of the cards, with `today`
/// as the current date. A card without a link is passed over.
pub fn jobs_from_cards(cards: &Vec<Card>, today: Date) -> (jobs: Vec<JobPosting>)
    ensures
        views(jobs@) == card_jobs(card_views(cards@), today),
{
    let mut jobs: Vec<JobPosting> = Vec::new();
    let ghost all = card_views(cards@);
    let ghost pick = |card: CardView| card_job(card, today);
    let mut i: usize = 0;
    assert(all.take(0) == Seq::<CardView>::empty());
    while i < cards.len()
        invariant
            i <= cards.len(),
            all == card_views(cards@),
            pick == |card: CardView| card_job(card, today),
            views(jobs@) == all.take(i as int).filter_map(pick),
        decreases cards.len() - i,
    {
        proof {
            all.lemma_filter_map_take_succ(pick, i as int);
        }
        match job_from_card(&cards[i], today) {
            Some(job) => {
                proof {
                    jobs@.lemma_push_map_commute(|j: JobPosting| j@, job);
                }
                jobs.push(job);
            },
            None => {},
        }
        i += 1;
    }
    assert(all.take(cards.len() as int) == all);
    jobs
}

/// The entry of a list at position `i`, or `None` where the list is shorter.
pub open spec fn item<T>(list: Seq<Option<T>>, i: int) -> Option<T> {
    if 0 <= i < list.len() {
        list[i]
    } else {
        None
    }
}

/// The first of the texts, if there is one.
pub open spec fn first_text(texts: Option<Seq<Seq<char>>>) -> Option<Seq<char>> {
    match texts {
        Some(parts) => if parts.len() > 0 {
            Some(parts[0])
        } else {
            None
        },
        None => None,
    }
}

/// What a page's markup holds, card by card, or `None` where a selector was not
/// accepted. There is one card for each entry of the list of titles, which has
/// an entry for each element that matches the card selector; a list that is
/// shorter than that counts as having nothing at the positions it lacks.
pub open spec fn page_cards(html: Seq<char>) -> Option<Seq<CardView>> {
    let titles = selected_texts(html, CARD_SELECTOR@, TITLE_SELECTOR@);
    let companies = selected_texts(html, CARD_SELECTOR@, COMPANY_SELECTOR@);
    let locations = selected_texts(html, CARD_SELECTOR@, LOCATION_SELECTOR@);
    let links = selected_attribute(html, CARD_SELECTOR@, LINK_SELECTOR@, LINK_ATTRIBUTE@);
    let dates = selected_attribute(html, CARD_SELECTOR@, DATE_SELECTOR@, DATE_ATTRIBUTE@);
    let date_texts = selected_texts(html, CARD_SELECTOR@, DATE_SELECTOR@);
    if titles is Some && companies is Some && locations is Some && links is Some && dates is Some
        && date_texts is Some {
        Some(
            Seq::new(
                titles->0.len(),
                |i: int|
                    CardView {
                        title: first_text(item(titles->0, i)),
                        company: item(companies->0, i),
                        location: first_text(item(locations->0, i)),
                        href: item(links->0, i),
                        datetime: item(dates->0, i),
                        date_text: first_text(item(date_texts->0, i)),
                    },
            ),
        )
    } else {
        None
    }
}

fn texts_at(list: &Vec<Option<Vec<String>>>, i: usize) -> (r: Option<Vec<String>>)
    ensures
        r.deep_view() == item(list.deep_view(), i as int),
        r matches Some(parts) ==> parts.deep_view() == texts_of(parts@),
{
    if i < list.len() {
        match &list[i] {
            Some(parts) => {
                let copy = parts.clone();
                assert(copy@ =~= parts@);
                assert(copy.deep_view() =~= texts_of(copy@));
                Some(copy)
            },
            None => None,
        }
    } else {
        None
    }
}

fn first_text_at(list: &Vec<Option<Vec<String>>>, i: usize) -> (r: Option<String>)
    ensures
        text_of(r) == first_text(item(list.deep_view(), i as int)),
{
    if i < list.len() {
        match &list[i] {
            Some(parts) => if parts.len() > 0 {
                Some(parts[0].clone())
            } else {
                None
            },
            None => None,
        }
    } else {
        None
    }
}

fn text_at(list: &Vec<Option<String>>, i: usize) -> (r: Option<String>)
    ensures
        text_of(r) == item(list.deep_view(), i as int),
{
    if i < list.len() {
        match &list[i] {
            Some(text) => Some(text.clone()),
            None => None,
        }
    } else {
        None
    }
}

/// Reads the cards of a results page. Fails where a selector is not accepted.
pub fn read_cards(html: &str) -> (r: Result<Vec<Card>, ExtractionFault>)
    ensures
        match r {
            Ok(cards) => page_cards(html@) == Some(card_views(cards@)),
            Err(fault) => fault == ExtractionFault::Selector && page_cards(html@) is None,
        },
{
    let titles = match select_texts(html, CARD_SELECTOR, TITLE_SELECTOR) {
        Some(found) => found,
        None => { return Err(ExtractionFault::Selector); },
    };
    let companies = match select_texts(html, CARD_SELECTOR, COMPANY_SELECTOR) {
        Some(found) => found,
        None => { return Err(ExtractionFault::Selector); },
    };
    let locations = match select_texts(html, CARD_SELECTOR, LOCATION_SELECTOR) {
        Some(found) => found,
        None => { return Err(ExtractionFault::Selector); },
    };
    let links = match select_attribute(html, CARD_SELECTOR, LINK_SELECTOR, LINK_ATTRIBUTE) {
        Some(found) => found,
        None => { return Err(ExtractionFault::Selector); },
    };
    let dates = match select_attribute(html, CARD_SELECTOR, DATE_SELECTOR, DATE_ATTRIBUTE) {
        Some(found) => found,
        None => { return Err(ExtractionFault::Selector); },
    };
    let date_texts = match select_texts(html, CARD_SELECTOR, DATE_SELECTOR) {
        Some(found) => found,
        None => { return Err(ExtractionFault::Selector); },
    };
    let ghost expected = page_cards(html@)->0;
    let mut cards: Vec<Card> = Vec::new();
    let mut i: usize = 0;
    while i < titles.len()
        invariant
            i <= titles.len(),
            page_cards(html@) == Some(expected),
            expected.len() == titles.len(),
            selected_texts(html@, CARD_SELECTOR@, TITLE_SELECTOR@) == Some(titles.deep_view()),
            selected_texts(html@, CARD_SELECTOR@, COMPANY_SELECTOR@) == Some(
                companies.deep_view(),
            ),
            selected_texts(html@, CARD_SELECTOR@, LOCATION_SELECTOR@) == Some(
                locations.deep_view(),
            ),
            selected_attribute(html@, CARD_SELECTOR@, LINK_SELECTOR@, LINK_ATTRIBUTE@) == Some(
                links.deep_view(),
            ),
            selected_attribute(html@, CARD_SELECTOR@, DATE_SELECTOR@, DATE_ATTRIBUTE@) == Some(
                dates.deep_view(),
            ),
            selected_texts(html@, CARD_SELECTOR@, DATE_SELECTOR@) == Some(date_texts.deep_view()),
            card_views(cards@) == expected.take(i as int),
        decreases titles.len() - i,
    {
        let card = Card {
            title: first_text_at(&titles, i),
            company: texts_at(&companies, i),
            location: first_text_at(&locations, i),
            href: text_at(&links, i),
            datetime: text_at(&dates, i),
            date_text: first_text_at(&date_texts, i),
        };
        proof {
            assert(card@ == expected[i as int]);
            cards@.lemma_push_map_commute(|c: Card| c@, card);
            expected.lemma_take_succ_push(i as int);
        }
        cards.push(card);
        i += 1;
    }
    assert(expected.take(titles.len() as int) == expected);
    Ok(cards)
}

/// The postings of a page by its markup, with `today` as the current date.
pub open spec fn markup_jobs(html: Seq<char>, today: Date) -> Option<Seq<JobPostingView>> {
    match page_cards(html) {
        Some(cards) => Some(card_jobs(cards, today)),
        None => None,
    }
}

/// Reads the postings of a results page from its markup, with `today` as the
/// current date. Fails where a selector is not accepted.
pub fn parse_jobs_from_markup(html: &str, today: Date) -> (r: Result<
    Vec<JobPosting>,
    ExtractionFault,
>)
    ensures
        match r {
            Ok(jobs) => markup_jobs(html@, today) == Some(views(jobs@)),
            Err(fault) => fault == ExtractionFault::Selector && markup_jobs(html@, today) is None,
        },
{
    match read_cards(html) {
        Ok(cards) => Ok(jobs_from_cards(&cards, today)),
        Err(fault) => Err(fault),
    }
}

} // verus!
