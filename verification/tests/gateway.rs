use eigen_kernel::counts::Counts;
use eigen_kernel::gateway::{
    cancel_answer, cancel_step, progress_for, results_from_record, stage_label,
    status_from_record, to_proto_state, CancelJobResponse, CancelStep, ErrorCode, GatewayError,
    KernelGatewaySvc, TaskState, Timestamp,
};
use eigen_kernel::job_store::JobStore;
use eigen_kernel::pipeline::DriverAction;
use eigen_kernel::record::JobRecord;
use eigen_kernel::registry::ApplyError;
use eigen_kernel::state_machine::{transition, JobEvent, JobState, TransitionError};

const STATES: [JobState; 7] = [
    JobState::Pending,
    JobState::Compiling,
    JobState::Queued,
    JobState::Running,
    JobState::Done,
    JobState::Error,
    JobState::Cancelled,
];

fn service() -> KernelGatewaySvc {
    KernelGatewaySvc::new(JobStore::new())
}

fn progress(state: JobState) -> f32 {
    progress_for(state) as f32 / 100.0
}

#[test]
fn a_new_job_is_pending_with_no_progress() {
    let svc = service();
    let made = svc.enqueue_job("bell-state".to_string()).unwrap();
    assert_eq!(made.response.state, TaskState::Pending);
    assert!(made.response.created_at.is_some());
    let status = svc.get_job_status(&made.response.job_id).unwrap();
    assert_eq!(status.job_id, made.response.job_id);
    assert_eq!(status.state, TaskState::Pending);
    assert_eq!(status.stage, "PENDING");
    assert_eq!(status.progress_percent, 0);
    assert_eq!(status.progress_percent as f32 / 100.0, 0.0);
    assert_eq!(status.message, "");
    assert_eq!(status.error_code, "");
    assert_eq!(status.error_summary, "");
    assert_eq!(status.error_details_ref, "");
    let rec = svc.store().get(&made.response.job_id).unwrap();
    assert_eq!(rec.name, "bell-state");
    assert_eq!(
        status.updated_at,
        Some(Timestamp {
            seconds: rec.updated_at_unix_ms / 1_000,
            nanos: ((rec.updated_at_unix_ms % 1_000) * 1_000_000) as i32
        })
    );
}

#[test]
fn a_driven_job_is_done_with_counts() {
    let svc = service();
    let made = svc.enqueue_job("bell-state".to_string()).unwrap();
    let job_id = made.response.job_id.clone();
    let mut driver = made.driver;
    let mut steps = 0;
    loop {
        steps += 1;
        match driver.step(svc.store()) {
            DriverAction::Pause { millis } => assert_eq!(millis, 50),
            DriverAction::Completed => break,
            DriverAction::Stopped => panic!("the driver was stopped"),
        }
    }
    assert_eq!(steps, 4);
    let results = svc.get_job_results(&job_id).unwrap();
    assert_eq!(results.job_id, job_id);
    assert_eq!(results.state, TaskState::Done);
    assert!(!results.counts.is_empty());
    assert_eq!(results.counts.get("0"), Some(0));
    assert!(results.metadata.is_empty());
    assert_eq!(results.error_code, "");
    let rec = svc.store().get(&job_id).unwrap();
    assert_eq!(
        results.completed_at,
        Some(Timestamp {
            seconds: rec.updated_at_unix_ms / 1_000,
            nanos: ((rec.updated_at_unix_ms % 1_000) * 1_000_000) as i32
        })
    );
    let status = svc.get_job_status(&job_id).unwrap();
    assert_eq!(status.state, TaskState::Done);
    assert_eq!(status.stage, "DONE");
    assert_eq!(status.progress_percent as f32 / 100.0, 1.0);
}

#[test]
fn a_cancel_is_accepted_once() {
    let svc = service();
    let made = svc.enqueue_job("bell-state".to_string()).unwrap();
    let job_id = made.response.job_id.clone();
    assert!(svc.cancel_job(&job_id).unwrap().accepted);
    let status = svc.get_job_status(&job_id).unwrap();
    assert_eq!(status.state, TaskState::Cancelled);
    assert_eq!(status.stage, "CANCELLED");
    assert_eq!(status.progress_percent, 100);
    assert!(!svc.cancel_job(&job_id).unwrap().accepted);
    assert_eq!(
        svc.get_job_status(&job_id).unwrap().state,
        TaskState::Cancelled
    );
    let results = svc.get_job_results(&job_id).unwrap();
    assert_eq!(results.state, TaskState::Cancelled);
    assert!(results.counts.is_empty());
    assert_eq!(results.completed_at, None);
}

#[test]
fn an_unknown_job_is_not_found() {
    let svc = service();
    svc.enqueue_job("other".to_string()).unwrap();
    let unknown = "550e8400-e29b-41d4-a716-446655440000";
    assert_eq!(svc.get_job_status(unknown).unwrap_err(), GatewayError::JobNotFound);
    assert_eq!(svc.get_job_results(unknown).unwrap_err(), GatewayError::JobNotFound);
    assert_eq!(svc.cancel_job(unknown).unwrap_err(), GatewayError::JobNotFound);
    assert_eq!(GatewayError::JobNotFound.code(), ErrorCode::NotFound);
}

#[test]
fn an_empty_name_is_refused_and_nothing_is_created() {
    let store = JobStore::new();
    let svc = KernelGatewaySvc::new(store.clone_handle());
    assert_eq!(
        svc.enqueue_job(String::new()).unwrap_err(),
        GatewayError::NameRequired
    );
    assert_eq!(
        svc.enqueue_job("  \t\n".to_string()).unwrap_err(),
        GatewayError::NameRequired
    );
    assert_eq!(GatewayError::NameRequired.code(), ErrorCode::InvalidArgument);
    assert_eq!(
        svc.get_job_status("550e8400-e29b-41d4-a716-446655440000").unwrap_err(),
        GatewayError::JobNotFound
    );
    assert!(store.get("").is_none());
}

#[test]
fn a_blank_job_id_is_an_invalid_argument() {
    let svc = service();
    for id in ["", " ", "\t\n "] {
        assert_eq!(svc.get_job_status(id).unwrap_err(), GatewayError::JobIdRequired);
        assert_eq!(svc.get_job_results(id).unwrap_err(), GatewayError::JobIdRequired);
        assert_eq!(svc.cancel_job(id).unwrap_err(), GatewayError::JobIdRequired);
    }
    assert_eq!(GatewayError::JobIdRequired.code(), ErrorCode::InvalidArgument);
}

#[test]
fn error_messages_name_the_missing_field() {
    assert_eq!(GatewayError::NameRequired.message(), "name is required");
    assert_eq!(GatewayError::JobIdRequired.message(), "job_id is required");
    assert_eq!(GatewayError::JobNotFound.message(), "job not found");
}

#[test]
fn progress_is_a_quarter_per_phase() {
    assert_eq!(progress(JobState::Pending), 0.0);
    assert_eq!(progress(JobState::Compiling), 0.25);
    assert_eq!(progress(JobState::Queued), 0.5);
    assert_eq!(progress(JobState::Running), 0.75);
    assert_eq!(progress(JobState::Done), 1.0);
    assert_eq!(progress(JobState::Error), 1.0);
    assert_eq!(progress(JobState::Cancelled), 1.0);
}

#[test]
fn progress_never_falls_along_an_edge() {
    let events = [
        JobEvent::Enqueued,
        JobEvent::StartCompiling,
        JobEvent::FinishCompiling,
        JobEvent::StartRunning,
        JobEvent::FinishRunningOk,
        JobEvent::Fail,
        JobEvent::Cancel,
    ];
    for from in STATES {
        for event in events {
            if let Ok(to) = transition(from, event) {
                assert!(progress_for(to) >= progress_for(from));
            }
        }
    }
}

#[test]
fn the_stage_label_is_the_state_in_capitals() {
    for state in STATES {
        assert_eq!(stage_label(state), format!("{:?}", state).to_uppercase());
    }
}

#[test]
fn wire_states_mirror_job_states() {
    assert_eq!(to_proto_state(JobState::Pending), TaskState::Pending);
    assert_eq!(to_proto_state(JobState::Compiling), TaskState::Compiling);
    assert_eq!(to_proto_state(JobState::Queued), TaskState::Queued);
    assert_eq!(to_proto_state(JobState::Running), TaskState::Running);
    assert_eq!(to_proto_state(JobState::Done), TaskState::Done);
    assert_eq!(to_proto_state(JobState::Error), TaskState::Error);
    assert_eq!(to_proto_state(JobState::Cancelled), TaskState::Cancelled);
}

fn failed_record() -> JobRecord {
    let mut counts = Counts::new();
    counts.insert("00".to_string(), 2);
    JobRecord {
        job_id: "job-9".to_string(),
        name: "n".to_string(),
        state: JobState::Error,
        created_at_unix_ms: 1_000,
        updated_at_unix_ms: 2_345,
        error_code: Some("E_RUN".to_string()),
        error_summary: Some("backend lost".to_string()),
        error_details_ref: None,
        counts,
    }
}

#[test]
fn the_status_view_copies_the_record() {
    let status = status_from_record(&failed_record());
    assert_eq!(status.job_id, "job-9");
    assert_eq!(status.state, TaskState::Error);
    assert_eq!(status.stage, "ERROR");
    assert_eq!(status.progress_percent, 100);
    assert_eq!(status.message, "");
    assert_eq!(status.error_code, "E_RUN");
    assert_eq!(status.error_summary, "backend lost");
    assert_eq!(status.error_details_ref, "");
    assert_eq!(
        status.updated_at,
        Some(Timestamp { seconds: 2, nanos: 345_000_000 })
    );
}

#[test]
fn the_results_view_has_a_completion_time_only_when_done() {
    let mut rec = failed_record();
    let results = results_from_record(&rec);
    assert_eq!(results.job_id, "job-9");
    assert_eq!(results.state, TaskState::Error);
    assert_eq!(results.counts.get("00"), Some(2));
    assert!(results.metadata.is_empty());
    assert_eq!(results.error_code, "E_RUN");
    assert_eq!(results.error_summary, "backend lost");
    assert_eq!(results.error_details_ref, "");
    assert_eq!(results.completed_at, None);
    for state in STATES {
        rec.state = state;
        let expected = if state == JobState::Done {
            Some(Timestamp { seconds: 2, nanos: 345_000_000 })
        } else {
            None
        };
        assert_eq!(results_from_record(&rec).completed_at, expected);
    }
}

#[test]
fn a_cancel_that_loses_the_race_is_not_accepted() {
    let svc = service();
    let made = svc.enqueue_job("n".to_string()).unwrap();
    let job_id = made.response.job_id.clone();
    let mut driver = made.driver;
    while let DriverAction::Pause { .. } = driver.step(svc.store()) {}
    assert!(!svc.cancel_job(&job_id).unwrap().accepted);
    assert_eq!(svc.get_job_status(&job_id).unwrap().state, TaskState::Done);
}

#[test]
fn status_follows_the_driver() {
    let svc = service();
    let made = svc.enqueue_job("n".to_string()).unwrap();
    let job_id = made.response.job_id.clone();
    let mut driver = made.driver;
    let mut seen = vec![svc.get_job_status(&job_id).unwrap().progress_percent];
    loop {
        let action = driver.step(svc.store());
        seen.push(svc.get_job_status(&job_id).unwrap().progress_percent);
        if action != (DriverAction::Pause { millis: 50 }) {
            break;
        }
    }
    assert_eq!(seen, vec![0, 25, 50, 75, 100]);
}

#[test]
fn a_cancellation_of_an_unknown_job_is_answered_at_once() {
    assert_eq!(
        cancel_step(&None),
        CancelStep::Answer(Err(GatewayError::JobNotFound))
    );
}

#[test]
fn a_cancellation_is_tried_only_on_live_jobs() {
    let mut rec = failed_record();
    for state in STATES {
        rec.state = state;
        let expected = if state.is_terminal() {
            CancelStep::Answer(Ok(CancelJobResponse { accepted: false }))
        } else {
            CancelStep::Apply
        };
        assert_eq!(cancel_step(&Some(rec.clone())), expected);
    }
}

#[test]
fn a_cancellation_is_accepted_exactly_when_it_was_applied() {
    let mut rec = failed_record();
    rec.state = JobState::Cancelled;
    assert!(cancel_answer(&Ok(rec)).accepted);
    assert!(!cancel_answer(&Err(ApplyError::NotFound)).accepted);
    assert!(
        !cancel_answer(&Err(ApplyError::InvalidTransition(TransitionError::Invalid {
            from: JobState::Done,
            event: JobEvent::Cancel
        })))
        .accepted
    );
}
