//! Job records: what the registry keeps about one job.

use vstd::prelude::*;

use crate::counts::Counts;
use crate::state_machine::JobState;

verus! {

/// A job record as a mathematical value.
pub struct RecordView {
    pub job_id: Seq<char>,
    pub name: Seq<char>,
    pub state: JobState,
    pub created_at_unix_ms: i64,
    pub updated_at_unix_ms: i64,
    pub error_code: Option<Seq<char>>,
    pub error_summary: Option<Seq<char>>,
    pub error_details_ref: Option<Seq<char>>,
    pub counts: Map<Seq<char>, i64>,
}

/// A stored job record.
///
/// `job_id` and `name` are fixed at creation. `state` changes only along the
/// lifecycle graph. The error fields are set on the failure path and the
/// counts on successful completion.
#[derive(Debug)]
pub struct JobRecord {
    pub job_id: String,
    pub name: String,
    pub state: JobState,
    pub created_at_unix_ms: i64,
    pub updated_at_unix_ms: i64,
    pub error_code: Option<String>,
    pub error_summary: Option<String>,
    pub error_details_ref: Option<String>,
    pub counts: Counts,
}

/// The characters of an optional string.
pub open spec fn text_of(s: Option<String>) -> Option<Seq<char>> {
    match s {
        Some(t) => Some(t@),
        None => None,
    }
}

/// The later of two timestamps.
pub open spec fn later(a: i64, b: i64) -> i64 {
    if a >= b {
        a
    } else {
        b
    }
}

/// A record was never updated before it was created.
pub open spec fn record_wf(rec: RecordView) -> bool {
    rec.created_at_unix_ms <= rec.updated_at_unix_ms
}

/// The record of a job that was just created at time `now`.
pub open spec fn new_record(job_id: Seq<char>, name: Seq<char>, now: i64) -> RecordView {
    RecordView {
        job_id,
        name,
        state: JobState::Pending,
        created_at_unix_ms: now,
        updated_at_unix_ms: now,
        error_code: None,
        error_summary: None,
        error_details_ref: None,
        counts: Map::empty(),
    }
}

/// `rec` after a mutation at time `now`: the update time moves forward to
/// `now`, and stays where it is if the clock has gone backwards.
pub open spec fn touched(rec: RecordView, now: i64) -> RecordView {
    RecordView { updated_at_unix_ms: later(rec.updated_at_unix_ms, now), ..rec }
}

/// `rec` after a transition to `to` at time `now`.
pub open spec fn with_state(rec: RecordView, to: JobState, now: i64) -> RecordView {
    RecordView { state: to, ..touched(rec, now) }
}

/// `rec` after error details were attached at time `now`. A reference to the
/// details that was recorded earlier survives a call that brings none.
pub open spec fn with_error(
    rec: RecordView,
    code: Seq<char>,
    summary: Seq<char>,
    details_ref: Option<Seq<char>>,
    now: i64,
) -> RecordView {
    RecordView {
        error_code: Some(code),
        error_summary: Some(summary),
        error_details_ref: if details_ref is Some {
            details_ref
        } else {
            rec.error_details_ref
        },
        ..touched(rec, now)
    }
}

/// `rec` after `counts` were attached at time `now`.
pub open spec fn with_counts(rec: RecordView, counts: Map<Seq<char>, i64>, now: i64) -> RecordView {
    RecordView { counts, ..touched(rec, now) }
}

impl View for JobRecord {
    type V = RecordView;

    open spec fn view(&self) -> RecordView {
        RecordView {
            job_id: self.job_id@,
            name: self.name@,
            state: self.state,
            created_at_unix_ms: self.created_at_unix_ms,
            updated_at_unix_ms: self.updated_at_unix_ms,
            error_code: text_of(self.error_code),
            error_summary: text_of(self.error_summary),
            error_details_ref: text_of(self.error_details_ref),
            counts: self.counts@,
        }
    }
}

/// A copy of an optional string.
pub fn clone_text(s: &Option<String>) -> (r: Option<String>)
    ensures
        r == *s,
{
    match s {
        Some(t) => Some(t.clone()),
        None => None,
    }
}

/// The later of two timestamps.
pub fn later_of(a: i64, b: i64) -> (r: i64)
    ensures
        r == later(a, b),
{
    if a >= b {
        a
    } else {
        b
    }
}

impl JobRecord {
    /// The record of a job created at time `now`: pending, with no error and
    /// no counts.
    pub fn new(job_id: String, name: String, now: i64) -> (r: JobRecord)
        ensures
            r@ == new_record(job_id@, name@, now),
            record_wf(r@),
    {
        JobRecord {
            job_id,
            name,
            state: JobState::Pending,
            created_at_unix_ms: now,
            updated_at_unix_ms: now,
            error_code: None,
            error_summary: None,
            error_details_ref: None,
            counts: Counts::new(),
        }
    }
}

impl Clone for JobRecord {
    fn clone(&self) -> (r: JobRecord)
        ensures
            r@ == self@,
    {
        JobRecord {
            job_id: self.job_id.clone(),
            name: self.name.clone(),
            state: self.state,
            created_at_unix_ms: self.created_at_unix_ms,
            updated_at_unix_ms: self.updated_at_unix_ms,
            error_code: clone_text(&self.error_code),
            error_summary: clone_text(&self.error_summary),
            error_details_ref: clone_text(&self.error_details_ref),
            counts: self.counts.clone(),
        }
    }
}

} // verus!
