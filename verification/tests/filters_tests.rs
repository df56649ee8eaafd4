use chrono::Datelike;
use fresh_post::date::Date;
use fresh_post::filters::filter_posted_on;
use fresh_post::filters::filter_today_only;
use fresh_post::models::JobPosting;

fn date_of(day: chrono::NaiveDate) -> Date {
    Date::new(day.year(), day.month(), day.day()).unwrap()
}

#[test]
fn test_filter_today_only() {
    let today = chrono::Local::now().date_naive();
    let yesterday = today - chrono::Duration::days(1);

    let jobs = vec![
        JobPosting::new(
            "1".to_string(),
            "Today Job".to_string(),
            "Company A".to_string(),
            "Location".to_string(),
            "https://example.com/1".to_string(),
            Some(date_of(today)),
            None,
        ),
        JobPosting::new(
            "2".to_string(),
            "Yesterday Job".to_string(),
            "Company B".to_string(),
            "Location".to_string(),
            "https://example.com/2".to_string(),
            Some(date_of(yesterday)),
            None,
        ),
        JobPosting::new(
            "3".to_string(),
            "No Date Job".to_string(),
            "Company C".to_string(),
            "Location".to_string(),
            "https://example.com/3".to_string(),
            None,
            None,
        ),
    ];

    let filtered = filter_today_only(jobs);

    assert_eq!(filtered.len(), 1);
    assert_eq!(filtered[0].title, "Today Job");
}

#[test]
fn test_filter_empty_list() {
    let jobs = vec![];
    let filtered = filter_today_only(jobs);
    assert_eq!(filtered.len(), 0);
}

#[test]
fn filter_keeps_the_order_and_every_posting_of_the_day() {
    let day = Date::new(2024, 2, 29).unwrap();
    let before = Date::new(2024, 2, 28).unwrap();
    let after = Date::new(2024, 3, 1).unwrap();
    let dates = [Some(day), Some(before), None, Some(day), Some(after), Some(day)];
    let mut jobs = Vec::new();
    for (i, date) in dates.iter().enumerate() {
        jobs.push(JobPosting::new(
            format!("{}", i),
            format!("Job {}", i),
            "Company".to_string(),
            "Location".to_string(),
            format!("https://example.com/{}", i),
            *date,
            Some("text".to_string()),
        ));
    }
    let kept = filter_posted_on(jobs, day);
    assert_eq!(kept.len(), 3);
    assert_eq!(kept[0].id, "0");
    assert_eq!(kept[1].id, "3");
    assert_eq!(kept[2].id, "5");
    assert_eq!(kept[1].title, "Job 3");
    assert_eq!(kept[1].url, "https://example.com/3");
    assert_eq!(kept[1].posted_date, Some(day));
    assert_eq!(kept[1].description, Some("text".to_string()));
    assert_eq!(filter_posted_on(Vec::new(), day).len(), 0);
}
