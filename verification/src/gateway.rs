//! The gateway service: the four request/response operations on jobs.
//!
//! The gateway validates the required string of each request before it
//! touches the store, maps what the store answers to a response, and tells
//! an unknown job from a malformed request. It is the only place where a
//! pipeline driver is made: one per created job.

use vstd::prelude::*;
use vstd::string::StringExecFns;

use crate::clock::unix_ms;
use crate::counts::Counts;
use crate::job_store::{is_hyphenated_uuid, is_lower_hex, JobStore};
use crate::pipeline::{DriverView, PipelineDriver};
use crate::record::{record_wf, text_of, JobRecord, RecordView};
use crate::registry::{lookup_view, ApplyError};
use crate::state_machine::{edge, is_terminal, JobEvent, JobState};
use crate::text::{is_blank, is_whitespace, text_is_blank};

verus! {

/// A job state as the wire schema names it.
#[derive(Debug, Clone, Copy, PartialEq, Eq, Structural)]
pub enum TaskState {
    Pending,
    Compiling,
    Queued,
    Running,
    Done,
    Error,
    Cancelled,
}

/// A point in time as seconds and nanoseconds since the Unix epoch.
#[derive(Debug, Clone, Copy, PartialEq, Eq, Structural)]
pub struct Timestamp {
    pub seconds: i64,
    pub nanos: i32,
}

/// The boundary error codes.
#[derive(Debug, Clone, Copy, PartialEq, Eq, Structural)]
pub enum ErrorCode {
    InvalidArgument,
    NotFound,
}

/// Why a request was refused.
#[derive(Debug, Clone, Copy, PartialEq, Eq, Structural)]
pub enum GatewayError {
    /// The name of the job to create is missing.
    NameRequired,
    /// The id of the job to look at is missing.
    JobIdRequired,
    /// The store has no job with that id.
    JobNotFound,
}

/// The answer to a creation request.
#[derive(Debug)]
pub struct EnqueueJobResponse {
    pub job_id: String,
    pub state: TaskState,
    pub created_at: Option<Timestamp>,
}

/// The answer to a status query.
#[derive(Debug)]
pub struct GetJobStatusResponse {
    pub job_id: String,
    pub state: TaskState,
    pub stage: String,
    /// Progress in hundredths: 0 for a pending job, 100 for a finished one.
    pub progress_percent: u32,
    pub message: String,
    pub error_code: String,
    pub error_summary: String,
    pub error_details_ref: String,
    pub updated_at: Option<Timestamp>,
}

/// The answer to a cancellation request.
#[derive(Debug, Clone, Copy, PartialEq, Eq, Structural)]
pub struct CancelJobResponse {
    pub accepted: bool,
}

/// What a cancellation does after the job was looked up.
#[derive(Debug, Clone, Copy, PartialEq, Eq)]
pub enum CancelStep {
    /// The request is answered as it stands: the job is unknown, or it is
    /// terminal already and the request is not accepted.
    Answer(Result<CancelJobResponse, GatewayError>),
    /// The job is still live: `Cancel` is to be applied, and that call
    /// decides.
    Apply,
}

/// The answer to a results query.
#[derive(Debug)]
pub struct GetJobResultsResponse {
    pub job_id: String,
    pub state: TaskState,
    pub counts: Counts,
    pub metadata: Vec<(String, String)>,
    pub error_code: String,
    pub error_summary: String,
    pub error_details_ref: String,
    pub completed_at: Option<Timestamp>,
}

/// A created job: the response for the client, and the driver that the
/// caller has to run.
#[derive(Debug)]
pub struct Enqueued {
    pub response: EnqueueJobResponse,
    pub driver: PipelineDriver,
}

/// The wire name of a job state.
pub open spec fn wire_state(state: JobState) -> TaskState {
    match state {
        JobState::Pending => TaskState::Pending,
        JobState::Compiling => TaskState::Compiling,
        JobState::Queued => TaskState::Queued,
        JobState::Running => TaskState::Running,
        JobState::Done => TaskState::Done,
        JobState::Error => TaskState::Error,
        JobState::Cancelled => TaskState::Cancelled,
    }
}

/// Progress in hundredths, a function of the state alone: a quarter for each
/// phase that was entered, and everything once the job is terminal.
pub open spec fn progress_of(state: JobState) -> u32 {
    match state {
        JobState::Pending => 0,
        JobState::Compiling => 25,
        JobState::Queued => 50,
        JobState::Running => 75,
        JobState::Done => 100,
        JobState::Error => 100,
        JobState::Cancelled => 100,
    }
}

/// The stage label of a state: its name in capitals.
pub open spec fn stage_of(state: JobState) -> Seq<char> {
    match state {
        JobState::Pending => "PENDING"@,
        JobState::Compiling => "COMPILING"@,
        JobState::Queued => "QUEUED"@,
        JobState::Running => "RUNNING"@,
        JobState::Done => "DONE"@,
        JobState::Error => "ERROR"@,
        JobState::Cancelled => "CANCELLED"@,
    }
}

/// The time `ms` milliseconds from the epoch: whole seconds, and the rest in
/// nanoseconds. Both parts round toward the epoch, so for a time before it
/// neither is positive.
pub open spec fn timestamp_of(ms: i64) -> Timestamp {
    if ms >= 0 {
        Timestamp { seconds: (ms / 1000) as i64, nanos: ((ms % 1000) * 1_000_000) as i32 }
    } else {
        Timestamp {
            seconds: (-((-ms) / 1000)) as i64,
            nanos: (-((-ms) % 1000) * 1_000_000) as i32,
        }
    }
}

/// The text of an optional field on the wire: absent reads as empty.
pub open spec fn text_or_empty(s: Option<Seq<char>>) -> Seq<char> {
    match s {
        Some(t) => t,
        None => Seq::empty(),
    }
}

/// What a cancellation does after the lookup found `seen`.
pub open spec fn cancel_step_of(seen: Option<RecordView>) -> CancelStep {
    match seen {
        None => CancelStep::Answer(Err(GatewayError::JobNotFound)),
        Some(rec) => if is_terminal(rec.state) {
            CancelStep::Answer(Ok(CancelJobResponse { accepted: false }))
        } else {
            CancelStep::Apply
        },
    }
}

/// `resp` is the status view of the record `rec`.
pub open spec fn is_status_of(resp: GetJobStatusResponse, rec: RecordView) -> bool {
    &&& resp.job_id@ == rec.job_id
    &&& resp.state == wire_state(rec.state)
    &&& resp.stage@ == stage_of(rec.state)
    &&& resp.progress_percent == progress_of(rec.state)
    &&& resp.message@ == Seq::<char>::empty()
    &&& resp.error_code@ == text_or_empty(rec.error_code)
    &&& resp.error_summary@ == text_or_empty(rec.error_summary)
    &&& resp.error_details_ref@ == text_or_empty(rec.error_details_ref)
    &&& resp.updated_at == Some(timestamp_of(rec.updated_at_unix_ms))
}

/// `resp` is the results view of the record `rec`. The completion time is
/// there exactly when the job is `Done`.
pub open spec fn is_results_of(resp: GetJobResultsResponse, rec: RecordView) -> bool {
    &&& resp.job_id@ == rec.job_id
    &&& resp.state == wire_state(rec.state)
    &&& resp.counts@ == rec.counts
    &&& resp.metadata@.len() == 0
    &&& resp.error_code@ == text_or_empty(rec.error_code)
    &&& resp.error_summary@ == text_or_empty(rec.error_summary)
    &&& resp.error_details_ref@ == text_or_empty(rec.error_details_ref)
    &&& resp.completed_at == (if rec.state is Done {
        Some(timestamp_of(rec.updated_at_unix_ms))
    } else {
        None::<Timestamp>
    })
}

impl GatewayError {
    /// The boundary code of the error: a missing field is an invalid
    /// argument, an unknown job is not found.
    pub fn code(&self) -> (r: ErrorCode)
        ensures
            r == (match *self {
                GatewayError::NameRequired => ErrorCode::InvalidArgument,
                GatewayError::JobIdRequired => ErrorCode::InvalidArgument,
                GatewayError::JobNotFound => ErrorCode::NotFound,
            }),
    {
        match self {
            GatewayError::NameRequired => ErrorCode::InvalidArgument,
            GatewayError::JobIdRequired => ErrorCode::InvalidArgument,
            GatewayError::JobNotFound => ErrorCode::NotFound,
        }
    }

    /// The message that goes with the error.
    pub fn message(&self) -> (r: &'static str)
        ensures
            r@ == (match *self {
                GatewayError::NameRequired => "name is required"@,
                GatewayError::JobIdRequired => "job_id is required"@,
                GatewayError::JobNotFound => "job not found"@,
            }),
    {
        match self {
            GatewayError::NameRequired => "name is required",
            GatewayError::JobIdRequired => "job_id is required",
            GatewayError::JobNotFound => "job not found",
        }
    }
}

/// The wire name of a job state.
pub fn to_proto_state(state: JobState) -> (r: TaskState)
    ensures
        r == wire_state(state),
{
    match state {
        JobState::Pending => TaskState::Pending,
        JobState::Compiling => TaskState::Compiling,
        JobState::Queued => TaskState::Queued,
        JobState::Running => TaskState::Running,
        JobState::Done => TaskState::Done,
        JobState::Error => TaskState::Error,
        JobState::Cancelled => TaskState::Cancelled,
    }
}

/// The progress estimate of a state, in hundredths. It is derived from the
/// state alone and never stored.
pub fn progress_for(state: JobState) -> (r: u32)
    ensures
        r == progress_of(state),
        r <= 100,
        is_terminal(state) <==> r == 100,
{
    match state {
        JobState::Pending => 0,
        JobState::Compiling => 25,
        JobState::Queued => 50,
        JobState::Running => 75,
        JobState::Done => 100,
        JobState::Error | JobState::Cancelled => 100,
    }
}

/// The stage label of a state.
pub fn stage_label(state: JobState) -> (r: &'static str)
    ensures
        r@ == stage_of(state),
{
    match state {
        JobState::Pending => "PENDING",
        JobState::Compiling => "COMPILING",
        JobState::Queued => "QUEUED",
        JobState::Running => "RUNNING",
        JobState::Done => "DONE",
        JobState::Error => "ERROR",
        JobState::Cancelled => "CANCELLED",
    }
}

/// Splits a time in milliseconds since the epoch into seconds and
/// nanoseconds.
pub fn ts_from_unix_ms(ms: i64) -> (t: Timestamp)
    ensures
        t == timestamp_of(ms),
        t.seconds * 1_000_000_000 + t.nanos == ms * 1_000_000,
        -1_000_000_000 < t.nanos < 1_000_000_000,
        ms >= 0 ==> t.seconds >= 0 && t.nanos >= 0,
        ms <= 0 ==> t.seconds <= 0 && t.nanos <= 0,
{
    let secs: i64 = ms / 1_000;
    let rest: i64 = ms % 1_000;
    let nanos: i32 = (rest * 1_000_000) as i32;
    Timestamp { seconds: secs, nanos }
}

/// The current time as a timestamp.
pub fn ts_now() -> (t: Timestamp)
    ensures
        exists|ms: i64| ms >= 0 && t == #[trigger] timestamp_of(ms),
        t.seconds >= 0,
        0 <= t.nanos < 1_000_000_000,
{
    let ms = unix_ms();
    ts_from_unix_ms(ms)
}

/// The text of an optional field on the wire: absent reads as empty.
pub fn wire_text(s: &Option<String>) -> (r: String)
    ensures
        r@ == text_or_empty(text_of(*s)),
{
    match s {
        Some(t) => t.clone(),
        None => String::new(),
    }
}

/// The status view of a record.
pub fn status_from_record(rec: &JobRecord) -> (r: GetJobStatusResponse)
    ensures
        is_status_of(r, rec@),
{
    GetJobStatusResponse {
        job_id: rec.job_id.clone(),
        state: to_proto_state(rec.state),
        stage: String::from_str(stage_label(rec.state)),
        progress_percent: progress_for(rec.state),
        message: String::new(),
        error_code: wire_text(&rec.error_code),
        error_summary: wire_text(&rec.error_summary),
        error_details_ref: wire_text(&rec.error_details_ref),
        updated_at: Some(ts_from_unix_ms(rec.updated_at_unix_ms)),
    }
}

/// The results view of a record.
pub fn results_from_record(rec: &JobRecord) -> (r: GetJobResultsResponse)
    ensures
        is_results_of(r, rec@),
{
    let completed_at = match rec.state {
        JobState::Done => Some(ts_from_unix_ms(rec.updated_at_unix_ms)),
        _ => None,
    };
    GetJobResultsResponse {
        job_id: rec.job_id.clone(),
        state: to_proto_state(rec.state),
        counts: rec.counts.clone(),
        metadata: Vec::new(),
        error_code: wire_text(&rec.error_code),
        error_summary: wire_text(&rec.error_summary),
        error_details_ref: wire_text(&rec.error_details_ref),
        completed_at,
    }
}

/// Decides what a cancellation does once the job was looked up: an unknown
/// job is an error, a terminal job is left alone with the request not
/// accepted, and for a live job `Cancel` is to be applied.
pub fn cancel_step(seen: &Option<JobRecord>) -> (r: CancelStep)
    ensures
        r == cancel_step_of(lookup_view(*seen)),
{
    match seen {
        None => CancelStep::Answer(Err(GatewayError::JobNotFound)),
        Some(rec) => {
            if rec.state.is_terminal() {
                CancelStep::Answer(Ok(CancelJobResponse { accepted: false }))
            } else {
                CancelStep::Apply
            }
        },
    }
}

/// The answer to a cancellation from what applying `Cancel` gave: accepted
/// exactly when the event was applied.
pub fn cancel_answer(applied: &Result<JobRecord, ApplyError>) -> (r: CancelJobResponse)
    ensures
        r.accepted == (*applied is Ok),
{
    CancelJobResponse { accepted: applied.is_ok() }
}

/// The answer to a creation request from the record that the store made and
/// the time `created_at` of the answer, together with the driver for the new
/// job. This is the one place where a driver is made.
fn enqueued(record: JobRecord, created_at: Timestamp) -> (r: Enqueued)
    ensures
        r.response.job_id@ == record.job_id@,
        r.response.state == TaskState::Pending,
        r.response.created_at == Some(created_at),
        r.driver@ == (DriverView { job_id: record.job_id@, issued: 0, finished: false }),
{
    let driver = PipelineDriver::new(record.job_id.clone());
    let response = EnqueueJobResponse {
        job_id: record.job_id,
        state: TaskState::Pending,
        created_at: Some(created_at),
    };
    Enqueued { response, driver }
}

/// The gateway service over one job store.
#[derive(Clone)]
pub struct KernelGatewaySvc {
    store: JobStore,
}

impl KernelGatewaySvc {
    /// The store that the service works on.
    pub closed spec fn store_of(&self) -> JobStore {
        self.store
    }

    /// A service over `store`.
    pub fn new(store: JobStore) -> (r: KernelGatewaySvc)
        ensures
            r.store_of() == store,
    {
        KernelGatewaySvc { store }
    }

    /// The store that the service works on.
    pub fn store(&self) -> (r: &JobStore)
        ensures
            *r == self.store_of(),
    {
        &self.store
    }

    /// Creates a job.
    ///
    /// A blank name is refused before the store is touched, so no record is
    /// made for it. Otherwise the job is created in state `Pending`, and the
    /// result holds its id together with the one driver that this job will
    /// ever have, which has not issued anything yet.
    pub fn enqueue_job(&self, name: String) -> (r: Result<Enqueued, GatewayError>)
        ensures
            match r {
                Ok(made) => {
                    &&& !is_blank(name@)
                    &&& is_hyphenated_uuid(made.response.job_id@)
                    &&& made.response.state == TaskState::Pending
                    &&& made.response.created_at matches Some(t) && t.seconds >= 0 && 0 <= t.nanos
                        < 1_000_000_000
                    &&& made.driver@ == (DriverView {
                        job_id: made.response.job_id@,
                        issued: 0,
                        finished: false,
                    })
                },
                Err(e) => is_blank(name@) && e == GatewayError::NameRequired,
            },
    {
        if text_is_blank(name.as_str()) {
            return Err(GatewayError::NameRequired);
        }
        let record = self.store.create_job(name);
        Ok(enqueued(record, ts_now()))
    }

    /// The status of a job.
    ///
    /// A blank id is refused before the store is touched. An id that the
    /// store does not know is `JobNotFound`. Otherwise the response is the
    /// status view of the record as the store held it during the call.
    pub fn get_job_status(&self, job_id: &str) -> (r: Result<GetJobStatusResponse, GatewayError>)
        ensures
            match r {
                Ok(resp) => !is_blank(job_id@) && exists|rec: RecordView|
                    record_wf(rec) && rec.job_id == job_id@ && #[trigger] is_status_of(resp, rec),
                Err(e) => e == (if is_blank(job_id@) {
                    GatewayError::JobIdRequired
                } else {
                    GatewayError::JobNotFound
                }),
            },
    {
        if text_is_blank(job_id) {
            return Err(GatewayError::JobIdRequired);
        }
        match self.store.get(job_id) {
            Some(rec) => {
                let resp = status_from_record(&rec);
                assert(is_status_of(resp, rec@));
                Ok(resp)
            },
            None => Err(GatewayError::JobNotFound),
        }
    }

    /// Asks for a job to be cancelled.
    ///
    /// A blank id is refused before the store is touched, and an unknown id
    /// is `JobNotFound`. A job that is seen in a terminal state is left
    /// alone and the request is not accepted, which is no error. Otherwise
    /// `Cancel` is applied, and the request is accepted exactly when that
    /// transition succeeds: a driver that finishes the job in between wins.
    pub fn cancel_job(&self, job_id: &str) -> (r: Result<CancelJobResponse, GatewayError>)
        ensures
            match r {
                Ok(_) => !is_blank(job_id@),
                Err(e) => e == (if is_blank(job_id@) {
                    GatewayError::JobIdRequired
                } else {
                    GatewayError::JobNotFound
                }),
            },
    {
        if text_is_blank(job_id) {
            return Err(GatewayError::JobIdRequired);
        }
        let seen = self.store.get(job_id);
        match cancel_step(&seen) {
            CancelStep::Answer(answer) => answer,
            CancelStep::Apply => {
                let applied = self.store.apply_event(job_id, JobEvent::Cancel);
                Ok(cancel_answer(&applied))
            },
        }
    }

    /// The results of a job.
    ///
    /// A blank id is refused before the store is touched. An id that the
    /// store does not know is `JobNotFound`. Otherwise the response is the
    /// results view of the record as the store held it during the call.
    pub fn get_job_results(&self, job_id: &str) -> (r: Result<
        GetJobResultsResponse,
        GatewayError,
    >)
        ensures
            match r {
                Ok(resp) => !is_blank(job_id@) && exists|rec: RecordView|
                    record_wf(rec) && rec.job_id == job_id@ && #[trigger] is_results_of(resp, rec),
                Err(e) => e == (if is_blank(job_id@) {
                    GatewayError::JobIdRequired
                } else {
                    GatewayError::JobNotFound
                }),
            },
    {
        if text_is_blank(job_id) {
            return Err(GatewayError::JobIdRequired);
        }
        match self.store.get(job_id) {
            Some(rec) => {
                let resp = results_from_record(&rec);
                assert(is_results_of(resp, rec@));
                Ok(resp)
            },
            None => Err(GatewayError::JobNotFound),
        }
    }
}

/// An id of the shape that the store hands out is not blank, so a query for
/// a job that was just created is never refused as malformed.
pub proof fn lemma_job_ids_are_not_blank(id: Seq<char>)
    requires
        is_hyphenated_uuid(id),
    ensures
        !is_blank(id),
{
    assert(is_lower_hex(id[0]));
    assert(!is_whitespace(id[0]));
}

/// Progress never falls: along every edge of the lifecycle graph the
/// estimate stays or grows, and it is complete exactly in the terminal
/// states.
pub proof fn lemma_progress_never_falls(from: JobState, event: JobEvent, to: JobState)
    requires
        edge(from, event, to),
    ensures
        progress_of(from) <= progress_of(to) <= 100,
        progress_of(to) == 100 <==> is_terminal(to),
{
}

} // verus!
