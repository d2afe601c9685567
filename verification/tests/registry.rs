use eigen_kernel::counts::Counts;
use eigen_kernel::record::JobRecord;
use eigen_kernel::registry::{ApplyError, Registry};
use eigen_kernel::state_machine::{JobEvent, JobState, TransitionError};

fn same(a: &JobRecord, b: &JobRecord) -> bool {
    a.job_id == b.job_id
        && a.name == b.name
        && a.state == b.state
        && a.created_at_unix_ms == b.created_at_unix_ms
        && a.updated_at_unix_ms == b.updated_at_unix_ms
        && a.error_code == b.error_code
        && a.error_summary == b.error_summary
        && a.error_details_ref == b.error_details_ref
        && a.counts.to_vec() == b.counts.to_vec()
}

#[test]
fn a_created_job_is_pending_with_equal_timestamps() {
    let mut reg = Registry::new();
    let rec = reg.create_job("job-1".to_string(), "bell-state".to_string(), 1_000);
    assert_eq!(rec.job_id, "job-1");
    assert_eq!(rec.name, "bell-state");
    assert_eq!(rec.state, JobState::Pending);
    assert_eq!(rec.created_at_unix_ms, 1_000);
    assert_eq!(rec.updated_at_unix_ms, 1_000);
    assert_eq!(rec.error_code, None);
    assert_eq!(rec.error_summary, None);
    assert_eq!(rec.error_details_ref, None);
    assert!(rec.counts.is_empty());
    let stored = reg.get("job-1").unwrap();
    assert!(same(&stored, &rec));
}

#[test]
fn any_name_is_stored_as_given() {
    let mut reg = Registry::new();
    let rec = reg.create_job("a".to_string(), "".to_string(), 0);
    assert_eq!(rec.name, "");
    let rec = reg.create_job("b".to_string(), " \t".to_string(), 0);
    assert_eq!(rec.name, " \t");
}

#[test]
fn an_unknown_id_is_not_found() {
    let mut reg = Registry::new();
    assert!(reg.get("nobody").is_none());
    assert_eq!(
        reg.apply_event("nobody", JobEvent::Cancel, 5).unwrap_err(),
        ApplyError::NotFound
    );
    reg.create_job("job-1".to_string(), "n".to_string(), 1);
    assert!(reg.get("job-2").is_none());
    assert_eq!(
        reg.apply_event("job-2", JobEvent::StartCompiling, 5).unwrap_err(),
        ApplyError::NotFound
    );
}

#[test]
fn an_applied_event_moves_the_state_and_the_update_time() {
    let mut reg = Registry::new();
    reg.create_job("job-1".to_string(), "n".to_string(), 100);
    let rec = reg.apply_event("job-1", JobEvent::StartCompiling, 150).unwrap();
    assert_eq!(rec.state, JobState::Compiling);
    assert_eq!(rec.created_at_unix_ms, 100);
    assert_eq!(rec.updated_at_unix_ms, 150);
    assert_eq!(rec.job_id, "job-1");
    assert_eq!(rec.name, "n");
    assert!(same(&reg.get("job-1").unwrap(), &rec));
}

#[test]
fn a_refused_event_leaves_the_record_unchanged() {
    let mut reg = Registry::new();
    reg.create_job("job-1".to_string(), "n".to_string(), 100);
    reg.apply_event("job-1", JobEvent::StartCompiling, 150).unwrap();
    let before = reg.get("job-1").unwrap();
    let err = reg.apply_event("job-1", JobEvent::StartRunning, 900).unwrap_err();
    assert_eq!(
        err,
        ApplyError::InvalidTransition(TransitionError::Invalid {
            from: JobState::Compiling,
            event: JobEvent::StartRunning
        })
    );
    let after = reg.get("job-1").unwrap();
    assert!(same(&before, &after));
    assert_eq!(after.updated_at_unix_ms, 150);
}

#[test]
fn the_canonical_sequence_ends_in_done() {
    let mut reg = Registry::new();
    reg.create_job("job-1".to_string(), "n".to_string(), 10);
    let mut now = 10;
    let mut last = JobState::Pending;
    for event in [
        JobEvent::StartCompiling,
        JobEvent::FinishCompiling,
        JobEvent::StartRunning,
        JobEvent::FinishRunningOk,
    ] {
        now += 7;
        last = reg.apply_event("job-1", event, now).unwrap().state;
    }
    assert_eq!(last, JobState::Done);
    let rec = reg.get("job-1").unwrap();
    assert_eq!(rec.state, JobState::Done);
    assert_eq!(rec.updated_at_unix_ms, 38);
}

#[test]
fn a_terminal_job_is_frozen() {
    let mut reg = Registry::new();
    reg.create_job("job-1".to_string(), "n".to_string(), 10);
    reg.apply_event("job-1", JobEvent::Cancel, 20).unwrap();
    let before = reg.get("job-1").unwrap();
    assert_eq!(before.state, JobState::Cancelled);
    for event in [
        JobEvent::Enqueued,
        JobEvent::StartCompiling,
        JobEvent::FinishCompiling,
        JobEvent::StartRunning,
        JobEvent::FinishRunningOk,
        JobEvent::Fail,
        JobEvent::Cancel,
    ] {
        assert_eq!(
            reg.apply_event("job-1", event, 99).unwrap_err(),
            ApplyError::InvalidTransition(TransitionError::Invalid {
                from: JobState::Cancelled,
                event
            })
        );
    }
    assert!(same(&before, &reg.get("job-1").unwrap()));
}

#[test]
fn the_update_time_never_goes_back() {
    let mut reg = Registry::new();
    reg.create_job("job-1".to_string(), "n".to_string(), 1_000);
    let rec = reg.apply_event("job-1", JobEvent::StartCompiling, 400).unwrap();
    assert_eq!(rec.state, JobState::Compiling);
    assert_eq!(rec.created_at_unix_ms, 1_000);
    assert_eq!(rec.updated_at_unix_ms, 1_000);
    let rec = reg.apply_event("job-1", JobEvent::FinishCompiling, 1_200).unwrap();
    assert_eq!(rec.updated_at_unix_ms, 1_200);
    reg.set_counts("job-1", Counts::new(), 1_100);
    assert_eq!(reg.get("job-1").unwrap().updated_at_unix_ms, 1_200);
    reg.set_error("job-1", "E".to_string(), "s".to_string(), None, i64::MIN);
    assert_eq!(reg.get("job-1").unwrap().updated_at_unix_ms, 1_200);
    reg.set_error("job-1", "E".to_string(), "s".to_string(), None, i64::MAX);
    assert_eq!(reg.get("job-1").unwrap().updated_at_unix_ms, i64::MAX);
}

#[test]
fn set_error_attaches_details_and_keeps_the_state() {
    let mut reg = Registry::new();
    reg.create_job("job-1".to_string(), "n".to_string(), 10);
    reg.set_error(
        "job-1",
        "E_COMPILE".to_string(),
        "syntax error".to_string(),
        Some("results/error.json".to_string()),
        20,
    );
    let rec = reg.get("job-1").unwrap();
    assert_eq!(rec.state, JobState::Pending);
    assert_eq!(rec.error_code.as_deref(), Some("E_COMPILE"));
    assert_eq!(rec.error_summary.as_deref(), Some("syntax error"));
    assert_eq!(rec.error_details_ref.as_deref(), Some("results/error.json"));
    assert_eq!(rec.updated_at_unix_ms, 20);
    assert_eq!(rec.created_at_unix_ms, 10);
}

#[test]
fn error_details_are_never_cleared() {
    let mut reg = Registry::new();
    reg.create_job("job-1".to_string(), "n".to_string(), 10);
    reg.set_error("job-1", "A".to_string(), "a".to_string(), Some("ref".to_string()), 20);
    reg.set_error("job-1", "B".to_string(), "b".to_string(), None, 30);
    let rec = reg.get("job-1").unwrap();
    assert_eq!(rec.error_code.as_deref(), Some("B"));
    assert_eq!(rec.error_summary.as_deref(), Some("b"));
    assert_eq!(rec.error_details_ref.as_deref(), Some("ref"));
    reg.set_error("job-1", "C".to_string(), "c".to_string(), Some("ref2".to_string()), 40);
    assert_eq!(
        reg.get("job-1").unwrap().error_details_ref.as_deref(),
        Some("ref2")
    );
}

#[test]
fn metadata_for_an_unknown_job_is_dropped() {
    let mut reg = Registry::new();
    reg.create_job("job-1".to_string(), "n".to_string(), 10);
    let before = reg.get("job-1").unwrap();
    let mut counts = Counts::new();
    counts.insert("0".to_string(), 4);
    reg.set_counts("job-2", counts, 50);
    reg.set_error("job-2", "E".to_string(), "s".to_string(), None, 50);
    assert!(reg.get("job-2").is_none());
    assert!(same(&before, &reg.get("job-1").unwrap()));
}

#[test]
fn set_counts_attaches_the_counts() {
    let mut reg = Registry::new();
    reg.create_job("job-1".to_string(), "n".to_string(), 10);
    let mut counts = Counts::new();
    counts.insert("00".to_string(), 3);
    counts.insert("11".to_string(), 5);
    reg.set_counts("job-1", counts, 60);
    let rec = reg.get("job-1").unwrap();
    assert_eq!(rec.counts.get("00"), Some(3));
    assert_eq!(rec.counts.get("11"), Some(5));
    assert_eq!(rec.counts.len(), 2);
    assert_eq!(rec.updated_at_unix_ms, 60);
    assert_eq!(rec.state, JobState::Pending);
}

#[test]
fn a_snapshot_does_not_follow_later_changes() {
    let mut reg = Registry::new();
    reg.create_job("job-1".to_string(), "n".to_string(), 10);
    let snapshot = reg.get("job-1").unwrap();
    reg.apply_event("job-1", JobEvent::Fail, 20).unwrap();
    assert_eq!(snapshot.state, JobState::Pending);
    assert_eq!(snapshot.updated_at_unix_ms, 10);
    assert_eq!(reg.get("job-1").unwrap().state, JobState::Error);
}

#[test]
fn jobs_do_not_touch_each_other() {
    let mut reg = Registry::new();
    reg.create_job("a".to_string(), "first".to_string(), 1);
    reg.create_job("b".to_string(), "second".to_string(), 2);
    reg.apply_event("a", JobEvent::StartCompiling, 3).unwrap();
    let b = reg.get("b").unwrap();
    assert_eq!(b.state, JobState::Pending);
    assert_eq!(b.updated_at_unix_ms, 2);
    assert_eq!(b.name, "second");
}

#[test]
fn of_many_equal_events_in_a_row_one_is_applied() {
    let mut reg = Registry::new();
    reg.create_job("job-1".to_string(), "n".to_string(), 10);
    let mut applied = 0;
    for i in 0..8 {
        match reg.apply_event("job-1", JobEvent::StartCompiling, 20 + i) {
            Ok(rec) => {
                applied += 1;
                assert_eq!(rec.state, JobState::Compiling);
            }
            Err(e) => assert_eq!(
                e,
                ApplyError::InvalidTransition(TransitionError::Invalid {
                    from: JobState::Compiling,
                    event: JobEvent::StartCompiling
                })
            ),
        }
    }
    assert_eq!(applied, 1);
    let rec = reg.get("job-1").unwrap();
    assert_eq!(rec.state, JobState::Compiling);
    assert_eq!(rec.updated_at_unix_ms, 20);
}

#[test]
fn a_record_filed_under_a_used_id_replaces_the_old_one() {
    let mut reg = Registry::new();
    reg.create_job("job-1".to_string(), "first".to_string(), 10);
    reg.apply_event("job-1", JobEvent::StartCompiling, 20).unwrap();
    let rec = reg.create_job("job-1".to_string(), "second".to_string(), 30);
    assert_eq!(rec.state, JobState::Pending);
    let stored = reg.get("job-1").unwrap();
    assert_eq!(stored.name, "second");
    assert_eq!(stored.state, JobState::Pending);
    assert_eq!(stored.created_at_unix_ms, 30);
}

#[test]
fn a_cloned_record_is_equal_and_independent() {
    let mut counts = Counts::new();
    counts.insert("00".to_string(), 2);
    let rec = JobRecord {
        job_id: "job-9".to_string(),
        name: "n".to_string(),
        state: JobState::Running,
        created_at_unix_ms: 1,
        updated_at_unix_ms: 2,
        error_code: Some("E".to_string()),
        error_summary: None,
        error_details_ref: Some("ref".to_string()),
        counts,
    };
    let mut copy = rec.clone();
    assert!(same(&rec, &copy));
    copy.counts.insert("11".to_string(), 1);
    copy.name.push('!');
    assert_eq!(rec.counts.len(), 1);
    assert_eq!(rec.name, "n");
}
