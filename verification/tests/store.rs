use jobtracker_core::{JobSource, JobStatus, JobStore};

const DAY: u64 = 86400;

fn store_with(entries: &[(&str, &str, &str, &str, u64)]) -> JobStore {
    let mut store = JobStore::default();
    for (company, role, location, source, ts) in entries {
        store.add_job_at(
            company.to_string(),
            role.to_string(),
            location.to_string(),
            source.to_string(),
            *ts,
        );
    }
    store
}

#[test]
fn add_assigns_increasing_unique_ids() {
    let mut store = JobStore::default();
    let l1 = store.add_job_at(
        "Acme".to_string(),
        "Engineer".to_string(),
        "Remote".to_string(),
        "LinkedIn".to_string(),
        10 * DAY,
    );
    assert_eq!(l1.len(), 1);
    assert_eq!(l1[0].id, 1);
    let l2 = store.add_job_at(
        "Globex".to_string(),
        "PM".to_string(),
        "NYC".to_string(),
        "Indeed".to_string(),
        11 * DAY,
    );
    assert_eq!(l2[1].id, 2);
    let l3 = store.add_job_at(
        "Initech".to_string(),
        "Analyst".to_string(),
        "Austin".to_string(),
        "Monster".to_string(),
        12 * DAY,
    );
    assert_eq!(l3[2].id, 3);
    let ids: Vec<u32> = l3.iter().map(|j| j.id).collect();
    assert_eq!(ids, vec![1, 2, 3]);
}

#[test]
fn add_sets_initial_fields() {
    let store = store_with(&[("Acme", "Engineer", "Remote", "LinkedIn", 5 * DAY)]);
    let jobs = store.list_jobs();
    assert_eq!(jobs.len(), 1);
    let j = &jobs[0];
    assert_eq!(j.id, 1);
    assert_eq!(j.company, "Acme");
    assert_eq!(j.role, "Engineer");
    assert_eq!(j.role_location.as_deref(), Some("Remote"));
    assert_eq!(j.status, JobStatus::Applied);
    assert_eq!(j.source, Some(JobSource::LinkedIn));
    assert_eq!(j.timestamp, 5 * DAY);
}

#[test]
fn add_job_uses_the_clock() {
    let mut store = JobStore::default();
    let jobs = store.add_job(
        "Acme".to_string(),
        "Engineer".to_string(),
        "Remote".to_string(),
        "LinkedIn".to_string(),
    );
    assert_eq!(jobs[0].id, 1);
    assert_eq!(jobs[0].status, JobStatus::Applied);
    // A real clock reading, not a placeholder value.
    assert!(jobs[0].timestamp > 1_600_000_000);
}

#[test]
fn delete_removes_at_position() {
    let mut store = store_with(&[
        ("Acme", "Engineer", "Remote", "LinkedIn", DAY),
        ("Globex", "PM", "NYC", "Indeed", 2 * DAY),
        ("Initech", "Analyst", "Austin", "Monster", 3 * DAY),
    ]);
    let jobs = store.delete_job(1);
    assert_eq!(jobs.len(), 2);
    assert_eq!(jobs[0].company, "Acme");
    assert_eq!(jobs[1].company, "Initech");
    assert_eq!(jobs[1].id, 3);
}

#[test]
fn delete_out_of_range_is_a_no_op() {
    let mut store = store_with(&[
        ("Acme", "Engineer", "Remote", "LinkedIn", DAY),
        ("Globex", "PM", "NYC", "Indeed", 2 * DAY),
    ]);
    let before = store.list_jobs();
    let after = store.delete_job(2);
    assert_eq!(after.len(), before.len());
    for (a, b) in before.iter().zip(after.iter()) {
        assert_eq!(a.id, b.id);
        assert_eq!(a.company, b.company);
    }
    let after = store.delete_job(usize::MAX);
    assert_eq!(after.len(), 2);
}

#[test]
fn ids_are_not_position_bound_after_delete() {
    let mut store = store_with(&[
        ("Acme", "Engineer", "Remote", "LinkedIn", DAY),
        ("Globex", "PM", "NYC", "Indeed", 2 * DAY),
    ]);
    store.delete_job(0);
    let jobs = store.add_job_at(
        "Initech".to_string(),
        "Analyst".to_string(),
        "Austin".to_string(),
        "Monster".to_string(),
        3 * DAY,
    );
    // Largest id in use is 2, so the new record gets 3.
    assert_eq!(jobs[0].id, 2);
    assert_eq!(jobs[1].id, 3);
}

#[test]
fn update_status_changes_only_that_field() {
    let mut store = store_with(&[
        ("Acme", "Engineer", "Remote", "LinkedIn", DAY),
        ("Globex", "PM", "NYC", "Indeed", 2 * DAY),
    ]);
    let jobs = store.update_status(2, JobStatus::Interview);
    assert_eq!(jobs[1].status, JobStatus::Interview);
    assert_eq!(jobs[1].id, 2);
    assert_eq!(jobs[1].company, "Globex");
    assert_eq!(jobs[1].role, "PM");
    assert_eq!(jobs[1].role_location.as_deref(), Some("NYC"));
    assert_eq!(jobs[1].source, Some(JobSource::Indeed));
    assert_eq!(jobs[1].timestamp, 2 * DAY);
    assert_eq!(jobs[0].status, JobStatus::Applied);
    assert_eq!(jobs[0].company, "Acme");
}

#[test]
fn update_status_unknown_id_is_a_no_op() {
    let mut store = store_with(&[
        ("Acme", "Engineer", "Remote", "LinkedIn", DAY),
        ("Globex", "PM", "NYC", "Indeed", 2 * DAY),
    ]);
    let jobs = store.update_status(99, JobStatus::Offer);
    assert_eq!(jobs.len(), 2);
    assert_eq!(jobs[0].status, JobStatus::Applied);
    assert_eq!(jobs[1].status, JobStatus::Applied);
}

#[test]
fn update_source_and_company_and_timestamp() {
    let mut store = store_with(&[
        ("Acme", "Engineer", "Remote", "LinkedIn", DAY),
        ("Globex", "PM", "NYC", "Indeed", 2 * DAY),
    ]);
    let jobs = store.update_source(1, JobSource::Glassdoor);
    assert_eq!(jobs[0].source, Some(JobSource::Glassdoor));
    assert_eq!(jobs[0].company, "Acme");
    let jobs = store.update_company(1, "Acme Corp".to_string());
    assert_eq!(jobs[0].company, "Acme Corp");
    assert_eq!(jobs[0].source, Some(JobSource::Glassdoor));
    let jobs = store.update_timestamp(1, 9 * DAY);
    assert_eq!(jobs[0].timestamp, 9 * DAY);
    assert_eq!(jobs[0].company, "Acme Corp");
    assert_eq!(jobs[1].timestamp, 2 * DAY);
    let jobs = store.update_company(42, "Nobody".to_string());
    assert_eq!(jobs[0].company, "Acme Corp");
    assert_eq!(jobs[1].company, "Globex");
}

#[test]
fn list_jobs_returns_a_snapshot() {
    let store = store_with(&[("Acme", "Engineer", "Remote", "LinkedIn", DAY)]);
    let mut snapshot = store.list_jobs();
    snapshot[0].company = "Changed".to_string();
    assert_eq!(store.list_jobs()[0].company, "Acme");
}

#[test]
fn end_to_end_add_summarize_delete() {
    let mut store = JobStore::default();
    let jobs = store.add_job_at(
        "Acme".to_string(),
        "Engineer".to_string(),
        "Remote".to_string(),
        "LinkedIn".to_string(),
        10 * DAY,
    );
    assert_eq!(jobs[0].id, 1);
    assert_eq!(jobs[0].status, JobStatus::Applied);
    let jobs = store.add_job_at(
        "Globex".to_string(),
        "PM".to_string(),
        "NYC".to_string(),
        "Indeed".to_string(),
        11 * DAY,
    );
    assert_eq!(jobs[1].id, 2);
    store.calculate_summary_stats();
    assert_eq!(store.summary_stats.total, 2);
    assert_eq!(store.summary_stats.applied, 2);
    assert_eq!(store.summary_stats.interviews, 0);
    assert_eq!(store.summary_stats.offers, 0);
    assert_eq!(store.summary_stats.rejected, 0);
    assert_eq!(store.summary_stats.ghosted, 0);
    let jobs = store.delete_job(0);
    assert_eq!(jobs.len(), 1);
    assert_eq!(jobs[0].company, "Globex");
    assert_eq!(jobs[0].id, 2);
}
