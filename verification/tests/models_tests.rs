use fresh_post::date::Date;
use fresh_post::models::JobPosting;
use std::collections::hash_map::DefaultHasher;
use std::hash::Hash;
use std::hash::Hasher;

#[test]
fn test_job_posting_hash() {
    let job1 = JobPosting::new(
        "123".to_string(),
        "Engineer".to_string(),
        "Corp".to_string(),
        "SF".to_string(),
        "https://example.com".to_string(),
        None,
        None,
    );

    let job2 = JobPosting::new(
        "123".to_string(),
        "Different Title".to_string(),
        "Different Corp".to_string(),
        "NYC".to_string(),
        "https://example.com".to_string(),
        None,
        None,
    );

    // Same ID should produce same hash
    let mut hasher1 = DefaultHasher::new();
    let mut hasher2 = DefaultHasher::new();
    job1.hash(&mut hasher1);
    job2.hash(&mut hasher2);

    assert_eq!(hasher1.finish(), hasher2.finish());
}

#[test]
fn postings_are_equal_by_identity() {
    let a = JobPosting::new(
        "1".to_string(),
        "Engineer".to_string(),
        "Corp".to_string(),
        "SF".to_string(),
        "https://example.com/1".to_string(),
        None,
        None,
    );
    let same = JobPosting::new(
        "1".to_string(),
        "Other".to_string(),
        "Other".to_string(),
        "NYC".to_string(),
        "https://example.com/2".to_string(),
        Date::new(2024, 1, 1),
        Some("text".to_string()),
    );
    let other = JobPosting::new(
        "2".to_string(),
        "Engineer".to_string(),
        "Corp".to_string(),
        "SF".to_string(),
        "https://example.com/1".to_string(),
        None,
        None,
    );
    assert!(a == same);
    assert!(a != other);
    let copy = same.clone();
    assert_eq!(copy.id, "1");
    assert_eq!(copy.title, "Other");
    assert_eq!(copy.company, "Other");
    assert_eq!(copy.location, "NYC");
    assert_eq!(copy.url, "https://example.com/2");
    assert_eq!(copy.posted_date, Date::new(2024, 1, 1));
    assert_eq!(copy.description, Some("text".to_string()));
}

#[test]
fn extracted_posting_gets_its_identity_from_the_address() {
    let job = JobPosting::extracted(
        "Engineer".to_string(),
        "Corp".to_string(),
        "SF".to_string(),
        "https://example.com/1".to_string(),
        None,
    );
    assert_eq!(job.id, fresh_post::ident::generate_job_id("https://example.com/1"));
    assert_eq!(job.description, None);
}

#[test]
fn dates_are_days_of_the_calendar() {
    assert!(Date::new(2024, 2, 29).is_some());
    assert!(Date::new(2023, 2, 29).is_none());
    assert!(Date::new(1900, 2, 29).is_none());
    assert!(Date::new(2000, 2, 29).is_some());
    assert!(Date::new(2024, 4, 31).is_none());
    assert!(Date::new(2024, 12, 31).is_some());
    assert!(Date::new(2024, 13, 1).is_none());
    assert!(Date::new(2024, 0, 1).is_none());
    assert!(Date::new(2024, 1, 0).is_none());
    assert!(Date::new(-4, 2, 29).is_some());
    let day = Date::new(2024, 7, 9).unwrap();
    assert_eq!((day.year(), day.month(), day.day()), (2024, 7, 9));
}
