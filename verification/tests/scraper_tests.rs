use chrono::Datelike;
use std::hash::Hash;
use std::hash::Hasher;
use fresh_post::date::Date;
use fresh_post::error::ExtractionFault;
use fresh_post::error::ScrapeError;
use fresh_post::scraper::build_search_url;
use fresh_post::scraper::choose_extractor;
use fresh_post::scraper::cookie_header;
use fresh_post::scraper::extract_jobs;
use fresh_post::scraper::generate_job_id;
use fresh_post::scraper::parse_jobs_from_html;
use fresh_post::scraper::parse_relative_date;
use fresh_post::scraper::response_body;
use fresh_post::scraper::Extractor;

fn today() -> Date {
    let now = chrono::Local::now().date_naive();
    Date::new(now.year(), now.month(), now.day()).unwrap()
}

fn by_url_crate(keywords: &str, location: &str, extra: &[(&str, &str)]) -> String {
    let mut url = url::Url::parse("https://www.linkedin.com/jobs/search").unwrap();
    url.query_pairs_mut()
        .append_pair("keywords", keywords)
        .append_pair("location", location)
        .append_pair("f_TPR", "r86400");
    for (name, value) in extra {
        url.query_pairs_mut().append_pair(name, value);
    }
    url.to_string()
}

#[test]
fn scraper_test_build_search_url() {
    let url = build_search_url("rust developer", "San Francisco", false, None);
    assert!(url.contains("keywords=rust+developer"));
    assert!(url.contains("location=San+Francisco"));
    assert!(url.contains("f_TPR=r86400"));
}

#[test]
fn integration_test_test_build_search_url() {
    let url = build_search_url("rust", "SF", false, None);
    assert!(url.starts_with("https://www.linkedin.com/jobs/search"));
    assert!(url.contains("keywords=rust"));
    assert!(url.contains("location=SF"));
}

#[test]
fn search_url_is_exact() {
    assert_eq!(
        build_search_url("rust developer", "San Francisco", false, None),
        "https://www.linkedin.com/jobs/search?keywords=rust+developer&location=San+Francisco&f_TPR=r86400"
    );
}

#[test]
fn search_url_with_remote_and_salary() {
    assert_eq!(
        build_search_url("rust", "SF", true, Some(100000)),
        "https://www.linkedin.com/jobs/search?keywords=rust&location=SF&f_TPR=r86400&f_WT=2&f_SB2=4"
    );
    assert_eq!(
        build_search_url("rust", "SF", false, Some(40000)),
        "https://www.linkedin.com/jobs/search?keywords=rust&location=SF&f_TPR=r86400&f_SB2=1"
    );
    assert_eq!(
        build_search_url("rust", "SF", false, Some(200000)),
        "https://www.linkedin.com/jobs/search?keywords=rust&location=SF&f_TPR=r86400&f_SB2=9"
    );
    assert_eq!(
        build_search_url("rust", "SF", false, Some(59999)),
        "https://www.linkedin.com/jobs/search?keywords=rust&location=SF&f_TPR=r86400&f_SB2=1"
    );
}

#[test]
fn search_url_leaves_out_a_salary_outside_the_range() {
    let plain = build_search_url("rust", "SF", false, None);
    assert_eq!(build_search_url("rust", "SF", false, Some(0)), plain);
    assert_eq!(build_search_url("rust", "SF", false, Some(39999)), plain);
    assert_eq!(build_search_url("rust", "SF", false, Some(200001)), plain);
    assert!(!plain.contains("f_SB2"));
    assert!(!plain.contains("f_WT"));
    assert!(build_search_url("rust", "SF", true, None).contains("f_WT=2"));
}

#[test]
fn search_url_escapes_what_is_not_plain() {
    assert_eq!(
        build_search_url("c++ & rust/go", "Zürich, CH", false, None),
        "https://www.linkedin.com/jobs/search?keywords=c%2B%2B+%26+rust%2Fgo&location=Z%C3%BCrich%2C+CH&f_TPR=r86400"
    );
}

#[test]
fn search_url_agrees_with_the_url_crate() {
    let cases = [
        ("rust developer", "San Francisco"),
        ("", ""),
        ("a=b&c=d", "#here?"),
        ("*-._~", "ÄÖÜ 東京"),
        ("100% remote", "New\nYork\t"),
    ];
    for (keywords, location) in cases {
        assert_eq!(
            build_search_url(keywords, location, false, None),
            by_url_crate(keywords, location, &[])
        );
        assert_eq!(
            build_search_url(keywords, location, true, Some(120000)),
            by_url_crate(keywords, location, &[("f_WT", "2"), ("f_SB2", "5")])
        );
    }
}

#[test]
fn test_generate_job_id() {
    let url1 = "https://linkedin.com/jobs/view/123";
    let url2 = "https://linkedin.com/jobs/view/123";
    let url3 = "https://linkedin.com/jobs/view/456";

    assert_eq!(generate_job_id(url1), generate_job_id(url2));
    assert_ne!(generate_job_id(url1), generate_job_id(url3));
}

#[test]
fn job_id_is_the_hash_in_hexadecimal() {
    let url = "https://www.linkedin.com/jobs/view/4012345678";
    let mut hasher = std::collections::hash_map::DefaultHasher::new();
    url.hash(&mut hasher);
    assert_eq!(generate_job_id(url), format!("{:x}", hasher.finish()));
    assert_ne!(generate_job_id(url), url);
}

#[test]
fn test_parse_relative_date() {
    assert_eq!(parse_relative_date("2 hours ago"), Some(today()));
    assert_eq!(parse_relative_date("1 day ago"), Some(today()));
    assert_eq!(parse_relative_date("5 days ago"), None);
}

#[test]
fn relative_dates_at_the_edges() {
    assert_eq!(parse_relative_date("Just now"), Some(today()));
    assert_eq!(parse_relative_date("30 MINUTES ago"), Some(today()));
    assert_eq!(parse_relative_date("0 days ago"), Some(today()));
    assert_eq!(parse_relative_date("  1 day ago"), Some(today()));
    assert_eq!(parse_relative_date("+1 day ago"), Some(today()));
    assert_eq!(parse_relative_date("-0 days ago"), Some(today()));
    assert_eq!(parse_relative_date("01 day ago"), Some(today()));
    assert_eq!(parse_relative_date("-1 days ago"), None);
    assert_eq!(parse_relative_date("2 days ago"), None);
    assert_eq!(parse_relative_date("10 days ago"), None);
    assert_eq!(parse_relative_date("a day ago"), None);
    assert_eq!(parse_relative_date("yesterday"), None);
    assert_eq!(parse_relative_date("1 week ago"), None);
    assert_eq!(parse_relative_date("Dec 15"), None);
    assert_eq!(parse_relative_date(""), None);
    assert_eq!(parse_relative_date("99999999999999999999999 days ago"), None);
}

#[test]
fn test_parse_jobs_from_html() {
    let html = r#"
            <div class="base-card" data-job-id="123">
                <a class="base-card__full-link" href="/jobs/view/123">
                    <h3 class="base-search-card__title">Software Engineer</h3>
                    <h4 class="base-search-card__subtitle">Tech Corp</h4>
                    <span class="job-search-card__location">San Francisco, CA</span>
                    <time class="job-search-card__listdate" datetime="2024-01-15">1 day ago</time>
                </a>
            </div>
        "#;

    let jobs = parse_jobs_from_html(html).unwrap();
    assert_eq!(jobs.len(), 1);
    assert_eq!(jobs[0].title, "Software Engineer");
    assert_eq!(jobs[0].company, "Tech Corp");
}

#[test]
fn test_parse_empty_html() {
    let html = "<html><body></body></html>";
    let jobs = parse_jobs_from_html(html).unwrap();
    assert_eq!(jobs.len(), 0);
}

#[test]
fn markup_card_in_full() {
    let html = r#"
        <ul>
          <li><div class="base-card">
            <a class="base-card__full-link" href="/jobs/view/123?x=1"></a>
            <h3 class="base-search-card__title">
                Software Engineer
            </h3>
            <h4 class="base-search-card__subtitle"><a href="/c/tech"> Tech <b>Corp</b></a> Inc </h4>
            <span class="job-search-card__location"> San Francisco, CA </span>
            <time class="job-search-card__listdate" datetime="2024-01-15">1 day ago</time>
          </div></li>
        </ul>
    "#;
    let day = Date::new(2024, 1, 16).unwrap();
    let jobs = extract_jobs(html, day).unwrap();
    assert_eq!(jobs.len(), 1);
    let job = &jobs[0];
    assert_eq!(job.url, "https://www.linkedin.com/jobs/view/123?x=1");
    assert_eq!(job.id, generate_job_id("https://www.linkedin.com/jobs/view/123?x=1"));
    assert_eq!(job.title, "Software Engineer");
    assert_eq!(job.company, "Tech  Corp  Inc");
    assert_eq!(job.location, "San Francisco, CA");
    assert_eq!(job.posted_date, Date::new(2024, 1, 15));
    assert_eq!(job.description, None);
}

#[test]
fn markup_card_with_missing_pieces() {
    let html = r#"
        <div class="job-card-container">
            <a class="job-card-list__title" href="https://example.org/jobs/9">Data Engineer</a>
        </div>
        <div class="base-card"><h3 class="base-search-card__title">No link here</h3></div>
        <div data-job-id="7">
            <a class="base-card__full-link" href="http://example.org/7"></a>
            <time class="job-search-card__listdate--new">3 hours ago</time>
        </div>
        <div data-job-id="8">
            <a class="base-card__full-link" href="/jobs/view/8"></a>
            <time class="job-search-card__listdate" datetime="Jan 15">2 days ago</time>
        </div>
    "#;
    let day = Date::new(2024, 1, 16).unwrap();
    let jobs = extract_jobs(html, day).unwrap();
    assert_eq!(jobs.len(), 3);
    assert_eq!(jobs[0].url, "https://example.org/jobs/9");
    assert_eq!(jobs[0].title, "Data Engineer");
    assert_eq!(jobs[0].company, "Unknown");
    assert_eq!(jobs[0].location, "Unknown");
    assert_eq!(jobs[0].posted_date, None);
    assert_eq!(jobs[1].url, "http://example.org/7");
    assert_eq!(jobs[1].title, "Unknown");
    assert_eq!(jobs[1].posted_date, Some(day));
    assert_eq!(jobs[2].url, "https://www.linkedin.com/jobs/view/8");
    assert_eq!(jobs[2].posted_date, None);
}

#[test]
fn payload_is_read_where_the_page_carries_one() {
    let html = "<code>{&quot;jobPostingTitle&quot;:&quot;Rust Engineer&quot;,\
        &quot;primaryDescription&quot;:{&quot;text&quot;:&quot;Ferrous Ltd&quot;},\
        &quot;secondaryDescription&quot;:{&quot;text&quot;:&quot;Berlin, Germany&quot;},\
        &quot;entityUrn&quot;:&quot;urn:li:fsd_jobPosting:4011223344&quot;}\
        {&quot;jobPostingTitle&quot;:&quot;Go Engineer&quot;,\
        &quot;primaryDescription&quot;:{&quot;text&quot;:&quot;com.linkedin.voyager.Thing&quot;},\
        &quot;secondaryDescription&quot;:{&quot;text&quot;:&quot;urn:li:fsd_geo:1&quot;}}</code>\
        <div class=\"base-card\"><a class=\"base-card__full-link\" href=\"/jobs/view/1\"></a></div>";
    assert_eq!(choose_extractor(html), Extractor::EmbeddedPayload);
    let day = Date::new(2024, 1, 16).unwrap();
    let jobs = extract_jobs(html, day).unwrap();
    assert_eq!(jobs.len(), 2);
    assert_eq!(jobs[0].title, "Rust Engineer");
    assert_eq!(jobs[0].company, "Ferrous Ltd");
    assert_eq!(jobs[0].location, "Berlin");
    assert_eq!(jobs[0].url, "https://www.linkedin.com/jobs/view/4011223344");
    assert_eq!(jobs[0].id, generate_job_id("https://www.linkedin.com/jobs/view/4011223344"));
    assert_eq!(jobs[0].posted_date, Some(day));
    assert_eq!(jobs[0].description, None);
    assert_eq!(jobs[1].title, "Go Engineer");
    assert_eq!(jobs[1].company, "Unknown Company");
    assert_eq!(jobs[1].location, "Location TBD");
    assert_eq!(jobs[1].url, "https://www.linkedin.com/jobs/view/4011223344");
}

#[test]
fn payload_without_identifier_gets_a_search_address() {
    let html = r#"{"jobPostingTitle":"Senior Rust Dev","other":1}"#;
    let day = Date::new(2024, 1, 16).unwrap();
    let jobs = extract_jobs(html, day).unwrap();
    assert_eq!(jobs.len(), 1);
    assert_eq!(jobs[0].title, "Senior Rust Dev");
    assert_eq!(jobs[0].company, "Unknown Company");
    assert_eq!(jobs[0].location, "Location TBD");
    assert_eq!(
        jobs[0].url,
        "https://www.linkedin.com/jobs/search/?keywords=Senior+Rust+Dev"
    );
}

#[test]
fn page_with_markers_is_never_read_by_its_markup() {
    let html = "<!-- JobPostingCard -->\
        <div class=\"base-card\"><a class=\"base-card__full-link\" href=\"/jobs/view/1\"></a></div>";
    assert_eq!(choose_extractor(html), Extractor::EmbeddedPayload);
    let jobs = parse_jobs_from_html(html).unwrap();
    assert_eq!(jobs.len(), 0);
    let without = "<div class=\"base-card\"><a class=\"base-card__full-link\" href=\"/jobs/view/1\"></a></div>";
    assert_eq!(choose_extractor(without), Extractor::Markup);
    assert_eq!(parse_jobs_from_html(without).unwrap().len(), 1);
}

#[test]
fn cookie_header_joins_the_cookies() {
    assert_eq!(
        cookie_header("# my cookies\nli_at=abc\n\n  JSESSIONID=\"ajax:1\"  \r\n#x=y\nlang=en\n"),
        "li_at=abc; JSESSIONID=\"ajax:1\"; lang=en"
    );
    assert_eq!(cookie_header(""), "");
    assert_eq!(cookie_header("\n\n# only a comment\n   \n"), "");
    assert_eq!(cookie_header("a=b"), "a=b");
    assert_eq!(cookie_header(" # indented comment\nc=d"), "c=d");
}

#[test]
fn response_body_goes_by_the_status() {
    assert!(matches!(response_body(200, "ok".to_string()), Ok(body) if body == "ok"));
    assert!(matches!(response_body(204, String::new()), Ok(body) if body.is_empty()));
    assert!(matches!(response_body(299, "x".to_string()), Ok(_)));
    assert!(matches!(response_body(199, "x".to_string()), Err(ScrapeError::Fetch(199))));
    assert!(matches!(response_body(300, "x".to_string()), Err(ScrapeError::Fetch(300))));
    assert!(matches!(response_body(404, "x".to_string()), Err(ScrapeError::Fetch(404))));
    assert!(matches!(response_body(503, "x".to_string()), Err(ScrapeError::Fetch(503))));
}

#[test]
fn extraction_faults_are_told_apart() {
    assert_ne!(ExtractionFault::Pattern, ExtractionFault::Selector);
}
