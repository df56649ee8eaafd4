use fresh_post::models::JobPosting;
use fresh_post::state::State;
use fresh_post::storage::load_state;
use fresh_post::storage::save_state;

fn job(id: &str, title: &str, url: &str) -> JobPosting {
    JobPosting::new(
        id.to_string(),
        title.to_string(),
        "Company".to_string(),
        "Location".to_string(),
        url.to_string(),
        None,
        None,
    )
}

#[test]
fn test_new_state() {
    let state = State::new();
    assert_eq!(state.seen_count(), 0);
}

#[test]
fn test_mark_jobs_seen() {
    let mut state = State::new();
    let jobs = vec![
        JobPosting::new(
            "1".to_string(),
            "Job 1".to_string(),
            "Company".to_string(),
            "Location".to_string(),
            "https://example.com/1".to_string(),
            None,
            None,
        ),
        JobPosting::new(
            "2".to_string(),
            "Job 2".to_string(),
            "Company".to_string(),
            "Location".to_string(),
            "https://example.com/2".to_string(),
            None,
            None,
        ),
    ];

    state.mark_jobs_seen(&jobs);
    assert_eq!(state.seen_count(), 2);
}

#[test]
fn test_filter_new_jobs() {
    let mut state = State::new();
    let job1 = JobPosting::new(
        "1".to_string(),
        "Seen Job".to_string(),
        "Company".to_string(),
        "Location".to_string(),
        "https://example.com/1".to_string(),
        None,
        None,
    );
    let job2 = JobPosting::new(
        "2".to_string(),
        "New Job".to_string(),
        "Company".to_string(),
        "Location".to_string(),
        "https://example.com/2".to_string(),
        None,
        None,
    );

    state.mark_jobs_seen(&[job1.clone()]);

    let all_jobs = vec![job1, job2.clone()];
    let new_jobs = state.filter_new_jobs(&all_jobs);

    assert_eq!(new_jobs.len(), 1);
    assert_eq!(new_jobs[0].id, job2.id);
}

#[test]
fn test_save_and_load_state() {
    let mut state = State::new();
    let job = JobPosting::new(
        "123".to_string(),
        "Test Job".to_string(),
        "Company".to_string(),
        "Location".to_string(),
        "https://example.com".to_string(),
        None,
        None,
    );
    state.mark_jobs_seen(&[job]);

    let stored = save_state(&state);
    assert_eq!(stored, vec!["123".to_string()]);

    let loaded_state = load_state(Some(stored));
    assert_eq!(loaded_state.seen_count(), 1);
}

#[test]
fn test_load_nonexistent_file() {
    let state = load_state(None);
    assert_eq!(state.seen_count(), 0);
}

#[test]
fn marking_twice_changes_nothing() {
    let mut state = State::new();
    let a = job("a", "A", "https://example.com/a");
    state.mark_jobs_seen(&[a.clone()]);
    assert_eq!(state.seen_count(), 1);
    state.mark_jobs_seen(&[a.clone()]);
    assert_eq!(state.seen_count(), 1);
    state.mark_jobs_seen(&[a.clone(), a.clone()]);
    assert_eq!(state.seen_count(), 1);
    assert!(!state.is_new(&a));
}

#[test]
fn identity_alone_decides_what_is_new() {
    let mut state = State::new();
    let a = job("a", "A", "https://example.com/a");
    let a_again = job("a", "Another title", "https://example.com/elsewhere");
    let b = job("b", "B", "https://example.com/b");
    state.mark_jobs_seen(&[a.clone()]);
    let fresh = state.filter_new_jobs(&[b.clone(), a_again, a, b.clone()]);
    assert_eq!(fresh.len(), 2);
    assert_eq!(fresh[0].id, "b");
    assert_eq!(fresh[1].id, "b");
    assert_eq!(fresh[0].title, "B");
    assert!(state.is_new(&b));
    assert_eq!(state.filter_new_jobs(&[]).len(), 0);
}

#[test]
fn stored_identities_come_back_as_the_same_set() {
    let mut state = State::new();
    state.mark_jobs_seen(&[
        job("x", "X", "u1"),
        job("y", "Y", "u2"),
        job("x", "X", "u1"),
        job("z", "Z", "u3"),
    ]);
    let stored = save_state(&state);
    assert_eq!(stored, vec!["x".to_string(), "y".to_string(), "z".to_string()]);
    let loaded = load_state(Some(stored));
    assert_eq!(loaded.seen_count(), 3);
    assert!(!loaded.is_new(&job("x", "", "")));
    assert!(!loaded.is_new(&job("y", "", "")));
    assert!(!loaded.is_new(&job("z", "", "")));
    assert!(loaded.is_new(&job("w", "", "")));
    let twice = State::from_ids(&vec!["p".to_string(), "p".to_string(), "q".to_string()]);
    assert_eq!(twice.seen_count(), 2);
    assert_eq!(twice.to_ids(), vec!["p".to_string(), "q".to_string()]);
}
