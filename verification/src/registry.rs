//! The job registry: every job record, keyed by job id.
//!
//! The registry is the sole mutator of a job's state. It is an ordinary
//! single-owner value; [`crate::job_store::JobStore`] shares one between
//! tasks behind a lock. Each operation is one step on the map of records,
//! and the spec functions of this module say which.

use vstd::hash_map::StringHashMap;
use vstd::prelude::*;

use crate::counts::Counts;
use crate::record::{
    later, later_of, new_record, record_wf, text_of, with_counts, with_error, with_state,
    JobRecord, RecordView,
};
use crate::state_machine::{
    canonical_events, edge, is_terminal, lemma_next_state_is_edge, lemma_non_edge_is_rejected,
    next_state, transition, JobEvent, JobState, TransitionError,
};

verus! {

/// Why the registry did not apply an event.
#[derive(Debug, Clone, Copy, PartialEq, Eq, Structural)]
pub enum ApplyError {
    /// No job has that id.
    NotFound,
    /// The job exists, and the event does not apply to its current state.
    InvalidTransition(TransitionError),
}

/// Every record is filed under its own id, and none was updated before it
/// was created.
pub open spec fn registry_wf(jobs: Map<Seq<char>, RecordView>) -> bool {
    forall|id: Seq<char>| #[trigger]
        jobs.contains_key(id) ==> jobs[id].job_id == id && record_wf(jobs[id])
}

/// What `apply_event` returns on the registry `jobs`.
pub open spec fn apply_event_outcome(
    jobs: Map<Seq<char>, RecordView>,
    job_id: Seq<char>,
    event: JobEvent,
    now: i64,
) -> Result<RecordView, ApplyError> {
    if !jobs.contains_key(job_id) {
        Err(ApplyError::NotFound)
    } else {
        match next_state(jobs[job_id].state, event) {
            Some(to) => Ok(with_state(jobs[job_id], to, now)),
            None => Err(
                ApplyError::InvalidTransition(
                    TransitionError::Invalid { from: jobs[job_id].state, event },
                ),
            ),
        }
    }
}

/// The registry after `apply_event`: the updated record replaces the old
/// one, and a refused event leaves every record as it was.
pub open spec fn after_apply_event(
    jobs: Map<Seq<char>, RecordView>,
    job_id: Seq<char>,
    event: JobEvent,
    now: i64,
) -> Map<Seq<char>, RecordView> {
    match apply_event_outcome(jobs, job_id, event, now) {
        Ok(rec) => jobs.insert(job_id, rec),
        Err(_) => jobs,
    }
}

/// The registry after `set_error`; an unknown id changes nothing.
pub open spec fn after_set_error(
    jobs: Map<Seq<char>, RecordView>,
    job_id: Seq<char>,
    code: Seq<char>,
    summary: Seq<char>,
    details_ref: Option<Seq<char>>,
    now: i64,
) -> Map<Seq<char>, RecordView> {
    if jobs.contains_key(job_id) {
        jobs.insert(job_id, with_error(jobs[job_id], code, summary, details_ref, now))
    } else {
        jobs
    }
}

/// The registry after `set_counts`; an unknown id changes nothing.
pub open spec fn after_set_counts(
    jobs: Map<Seq<char>, RecordView>,
    job_id: Seq<char>,
    counts: Map<Seq<char>, i64>,
    now: i64,
) -> Map<Seq<char>, RecordView> {
    if jobs.contains_key(job_id) {
        jobs.insert(job_id, with_counts(jobs[job_id], counts, now))
    } else {
        jobs
    }
}

/// The outcome of `apply_event` with the record as a mathematical value.
pub open spec fn outcome_view(r: Result<JobRecord, ApplyError>) -> Result<RecordView, ApplyError> {
    match r {
        Ok(rec) => Ok(rec@),
        Err(e) => Err(e),
    }
}

/// The result of a lookup with the record as a mathematical value.
pub open spec fn lookup_view(r: Option<JobRecord>) -> Option<RecordView> {
    match r {
        Some(rec) => Some(rec@),
        None => None,
    }
}

/// What a lookup of `job_id` finds in `jobs`.
pub open spec fn lookup(jobs: Map<Seq<char>, RecordView>, job_id: Seq<char>) -> Option<
    RecordView,
> {
    if jobs.contains_key(job_id) {
        Some(jobs[job_id])
    } else {
        None
    }
}

/// All job records, keyed by job id.
pub struct Registry {
    jobs: StringHashMap<JobRecord>,
}

impl View for Registry {
    type V = Map<Seq<char>, RecordView>;

    closed spec fn view(&self) -> Map<Seq<char>, RecordView> {
        Map::new(|id: Seq<char>| self.jobs@.contains_key(id), |id: Seq<char>| self.jobs@[id]@)
    }
}

impl Registry {
    #[verifier::type_invariant]
    spec fn well_formed(self) -> bool {
        registry_wf(self@)
    }

    /// A registry without jobs.
    pub fn new() -> (r: Registry)
        ensures
            r@ == Map::<Seq<char>, RecordView>::empty(),
    {
        let r = Registry { jobs: StringHashMap::new() };
        assert(r@ =~= Map::<Seq<char>, RecordView>::empty());
        r
    }

    /// Files `rec` under its own id, in place of any record that was there.
    fn put(&mut self, rec: JobRecord)
        requires
            record_wf(rec@),
        ensures
            final(self)@ == old(self)@.insert(rec.job_id@, rec@),
    {
        proof {
            use_type_invariant(&*self);
        }
        let ghost before = self@;
        let key = rec.job_id.clone();
        // The map is taken out while it changes, so that the registry in
        // `self` is well formed at every moment.
        let mut jobs: StringHashMap<JobRecord> = StringHashMap::new();
        std::mem::swap(&mut self.jobs, &mut jobs);
        jobs.insert(key, rec);
        proof {
            let after = Map::new(
                |id: Seq<char>| jobs@.contains_key(id),
                |id: Seq<char>| jobs@[id]@,
            );
            assert(after =~= before.insert(rec.job_id@, rec@));
            assert(registry_wf(after)) by {
                assert forall|id: Seq<char>| #[trigger] after.contains_key(id) implies after[id].job_id
                    == id && record_wf(after[id]) by {
                    if id != rec.job_id@ {
                        assert(before.contains_key(id));
                    }
                }
            }
        }
        self.jobs = jobs;
    }

    /// Creates the record of a new job in state `Pending`, with both
    /// timestamps at `now`, files it under `job_id` and returns a copy.
    ///
    /// Ids are meant to be unique. A record that is already filed under
    /// `job_id` is replaced.
    pub fn create_job(&mut self, job_id: String, name: String, now: i64) -> (r: JobRecord)
        ensures
            r@ == new_record(job_id@, name@, now),
            final(self)@ == old(self)@.insert(job_id@, r@),
            registry_wf(final(self)@),
    {
        let record = JobRecord::new(job_id, name, now);
        let snapshot = record.clone();
        self.put(record);
        proof {
            use_type_invariant(&*self);
        }
        snapshot
    }

    /// A copy of the record of `job_id` as it is now, if there is one.
    pub fn get(&self, job_id: &str) -> (r: Option<JobRecord>)
        ensures
            lookup_view(r) == lookup(self@, job_id@),
            registry_wf(self@),
    {
        proof {
            use_type_invariant(self);
        }
        match self.jobs.get(job_id) {
            Some(rec) => Some(rec.clone()),
            None => None,
        }
    }

    /// Moves job `job_id` along the edge that `event` names and returns a
    /// copy of the updated record.
    ///
    /// Read, transition and write are one step on the registry. An unknown
    /// id and a refused event are told apart, and both leave every record
    /// exactly as it was.
    pub fn apply_event(&mut self, job_id: &str, event: JobEvent, now: i64) -> (r: Result<
        JobRecord,
        ApplyError,
    >)
        ensures
            outcome_view(r) == apply_event_outcome(old(self)@, job_id@, event, now),
            final(self)@ == after_apply_event(old(self)@, job_id@, event, now),
            registry_wf(old(self)@),
            registry_wf(final(self)@),
    {
        proof {
            use_type_invariant(&*self);
        }
        let mut updated = match self.jobs.get(job_id) {
            Some(rec) => rec.clone(),
            None => {
                return Err(ApplyError::NotFound);
            },
        };
        let next = match transition(updated.state, event) {
            Ok(to) => to,
            Err(e) => {
                return Err(ApplyError::InvalidTransition(e));
            },
        };
        updated.state = next;
        updated.updated_at_unix_ms = later_of(updated.updated_at_unix_ms, now);
        let snapshot = updated.clone();
        self.put(updated);
        proof {
            use_type_invariant(&*self);
        }
        Ok(snapshot)
    }

    /// Attaches error details to job `job_id`. The state is not touched: the
    /// `Fail` transition is issued separately. An unknown id changes nothing.
    pub fn set_error(
        &mut self,
        job_id: &str,
        code: String,
        summary: String,
        details_ref: Option<String>,
        now: i64,
    )
        ensures
            final(self)@ == after_set_error(
                old(self)@,
                job_id@,
                code@,
                summary@,
                text_of(details_ref),
                now,
            ),
            registry_wf(final(self)@),
    {
        proof {
            use_type_invariant(&*self);
        }
        let mut updated = match self.jobs.get(job_id) {
            Some(rec) => rec.clone(),
            None => {
                return ;
            },
        };
        assert(self@.contains_key(job_id@) && updated@ == self@[job_id@]);
        updated.error_code = Some(code);
        updated.error_summary = Some(summary);
        if details_ref.is_some() {
            updated.error_details_ref = details_ref;
        }
        updated.updated_at_unix_ms = later_of(updated.updated_at_unix_ms, now);
        self.put(updated);
        proof {
            use_type_invariant(&*self);
        }
    }

    /// Attaches the result counts to job `job_id`. An unknown id changes
    /// nothing.
    pub fn set_counts(&mut self, job_id: &str, counts: Counts, now: i64)
        ensures
            final(self)@ == after_set_counts(old(self)@, job_id@, counts@, now),
            registry_wf(final(self)@),
    {
        proof {
            use_type_invariant(&*self);
        }
        let mut updated = match self.jobs.get(job_id) {
            Some(rec) => rec.clone(),
            None => {
                return ;
            },
        };
        assert(self@.contains_key(job_id@) && updated@ == self@[job_id@]);
        updated.counts = counts;
        updated.updated_at_unix_ms = later_of(updated.updated_at_unix_ms, now);
        self.put(updated);
        proof {
            use_type_invariant(&*self);
        }
    }
}

/// The registry after `events` were applied to job `job_id` one after the
/// other, the `i`-th at time `times[i]`.
pub open spec fn after_events(
    jobs: Map<Seq<char>, RecordView>,
    job_id: Seq<char>,
    events: Seq<JobEvent>,
    times: Seq<i64>,
) -> Map<Seq<char>, RecordView>
    decreases events.len(),
{
    if events.len() == 0 {
        jobs
    } else {
        after_events(
            after_apply_event(jobs, job_id, events[0], times[0]),
            job_id,
            events.skip(1),
            times.skip(1),
        )
    }
}

/// What each of those calls returned, in the order of the calls.
pub open spec fn outcomes_of(
    jobs: Map<Seq<char>, RecordView>,
    job_id: Seq<char>,
    events: Seq<JobEvent>,
    times: Seq<i64>,
) -> Seq<Result<RecordView, ApplyError>>
    decreases events.len(),
{
    if events.len() == 0 {
        Seq::empty()
    } else {
        seq![apply_event_outcome(jobs, job_id, events[0], times[0])] + outcomes_of(
            after_apply_event(jobs, job_id, events[0], times[0]),
            job_id,
            events.skip(1),
            times.skip(1),
        )
    }
}

/// The refusal of `event` on a job in state `from`.
pub open spec fn refusal(from: JobState, event: JobEvent) -> Result<RecordView, ApplyError> {
    Err(ApplyError::InvalidTransition(TransitionError::Invalid { from, event }))
}

/// An event that is not an edge from the job's state is refused with the
/// rejected pair, and the registry is left exactly as it was: the same
/// records with the same ids, names, states, timestamps, counts and error
/// fields.
pub proof fn lemma_refused_event_changes_nothing(
    jobs: Map<Seq<char>, RecordView>,
    job_id: Seq<char>,
    event: JobEvent,
    now: i64,
)
    requires
        jobs.contains_key(job_id),
        forall|to: JobState| !edge(jobs[job_id].state, event, to),
    ensures
        apply_event_outcome(jobs, job_id, event, now) == refusal(jobs[job_id].state, event),
        after_apply_event(jobs, job_id, event, now) == jobs,
{
    lemma_non_edge_is_rejected(jobs[job_id].state, event);
}

/// An event for an id that the registry does not know is `NotFound`, which
/// is not a refusal, and changes nothing.
pub proof fn lemma_unknown_job_changes_nothing(
    jobs: Map<Seq<char>, RecordView>,
    job_id: Seq<char>,
    event: JobEvent,
    now: i64,
)
    requires
        !jobs.contains_key(job_id),
    ensures
        apply_event_outcome(jobs, job_id, event, now) == Err::<RecordView, ApplyError>(
            ApplyError::NotFound,
        ),
        after_apply_event(jobs, job_id, event, now) == jobs,
{
}

/// A job in a terminal state is frozen: the registry refuses every event
/// for it and keeps every record as it was.
pub proof fn lemma_terminal_job_is_frozen(
    jobs: Map<Seq<char>, RecordView>,
    job_id: Seq<char>,
    event: JobEvent,
    now: i64,
)
    requires
        jobs.contains_key(job_id),
        is_terminal(jobs[job_id].state),
    ensures
        apply_event_outcome(jobs, job_id, event, now) == refusal(jobs[job_id].state, event),
        after_apply_event(jobs, job_id, event, now) == jobs,
{
}

/// An applied event moves the state along an edge of the lifecycle graph and
/// touches nothing but the state and the update time of that one job.
pub proof fn lemma_applied_event_follows_an_edge(
    jobs: Map<Seq<char>, RecordView>,
    job_id: Seq<char>,
    event: JobEvent,
    now: i64,
)
    requires
        apply_event_outcome(jobs, job_id, event, now) is Ok,
    ensures
        jobs.contains_key(job_id),
        edge(
            jobs[job_id].state,
            event,
            after_apply_event(jobs, job_id, event, now)[job_id].state,
        ),
        after_apply_event(jobs, job_id, event, now) == jobs.insert(
            job_id,
            RecordView {
                state: after_apply_event(jobs, job_id, event, now)[job_id].state,
                updated_at_unix_ms: later(jobs[job_id].updated_at_unix_ms, now),
                ..jobs[job_id]
            },
        ),
        apply_event_outcome(jobs, job_id, event, now) == Ok::<RecordView, ApplyError>(
            after_apply_event(jobs, job_id, event, now)[job_id],
        ),
{
    let to = next_state(jobs[job_id].state, event)->0;
    lemma_next_state_is_edge(jobs[job_id].state, event, to);
}

/// Every operation keeps the registry well formed: records stay filed under
/// their own ids, and no update time falls behind a creation time, whatever
/// the clock says.
pub proof fn lemma_operations_keep_the_registry_well_formed(
    jobs: Map<Seq<char>, RecordView>,
    job_id: Seq<char>,
    name: Seq<char>,
    event: JobEvent,
    code: Seq<char>,
    summary: Seq<char>,
    details_ref: Option<Seq<char>>,
    counts: Map<Seq<char>, i64>,
    now: i64,
)
    requires
        registry_wf(jobs),
    ensures
        registry_wf(jobs.insert(job_id, new_record(job_id, name, now))),
        registry_wf(after_apply_event(jobs, job_id, event, now)),
        registry_wf(after_set_error(jobs, job_id, code, summary, details_ref, now)),
        registry_wf(after_set_counts(jobs, job_id, counts, now)),
{
    assert forall|id: Seq<char>|
        jobs.contains_key(id) implies jobs[id].job_id == id && record_wf(jobs[id]) by {}
}

/// `after` is a later version of the record `before`.
pub open spec fn keeps_what_is_fixed(before: RecordView, after: RecordView) -> bool {
    &&& after.job_id == before.job_id
    &&& after.name == before.name
    &&& after.created_at_unix_ms == before.created_at_unix_ms
    &&& after.updated_at_unix_ms >= before.updated_at_unix_ms
    &&& before.error_code is Some ==> after.error_code is Some
    &&& before.error_summary is Some ==> after.error_summary is Some
    &&& before.error_details_ref is Some ==> after.error_details_ref is Some
}

/// Across every operation a job keeps its id, its name and its creation
/// time, its update time never goes back, and error fields that are set stay
/// set.
pub proof fn lemma_operations_keep_what_is_fixed(
    jobs: Map<Seq<char>, RecordView>,
    job_id: Seq<char>,
    other: Seq<char>,
    event: JobEvent,
    code: Seq<char>,
    summary: Seq<char>,
    details_ref: Option<Seq<char>>,
    counts: Map<Seq<char>, i64>,
    now: i64,
)
    requires
        jobs.contains_key(job_id),
    ensures
        keeps_what_is_fixed(jobs[job_id], after_apply_event(jobs, other, event, now)[job_id]),
        keeps_what_is_fixed(
            jobs[job_id],
            after_set_error(jobs, other, code, summary, details_ref, now)[job_id],
        ),
        keeps_what_is_fixed(jobs[job_id], after_set_counts(jobs, other, counts, now)[job_id]),
        after_apply_event(jobs, other, event, now).contains_key(job_id),
        after_set_error(jobs, other, code, summary, details_ref, now).contains_key(job_id),
        after_set_counts(jobs, other, counts, now).contains_key(job_id),
        after_set_error(jobs, other, code, summary, details_ref, now)[job_id].state
            == jobs[job_id].state,
        after_set_counts(jobs, other, counts, now)[job_id].state == jobs[job_id].state,
{
}

/// A cancellation goes through once: on a job that is not terminal it is
/// applied and leaves the job `Cancelled`, and a second one is refused and
/// changes nothing.
pub proof fn lemma_cancel_is_applied_once(
    jobs: Map<Seq<char>, RecordView>,
    job_id: Seq<char>,
    first: i64,
    second: i64,
)
    requires
        jobs.contains_key(job_id),
        !is_terminal(jobs[job_id].state),
    ensures
        apply_event_outcome(jobs, job_id, JobEvent::Cancel, first) == Ok::<RecordView, ApplyError>(
            with_state(jobs[job_id], JobState::Cancelled, first),
        ),
        apply_event_outcome(
            after_apply_event(jobs, job_id, JobEvent::Cancel, first),
            job_id,
            JobEvent::Cancel,
            second,
        ) == refusal(JobState::Cancelled, JobEvent::Cancel),
        after_apply_event(
            after_apply_event(jobs, job_id, JobEvent::Cancel, first),
            job_id,
            JobEvent::Cancel,
            second,
        ) == after_apply_event(jobs, job_id, JobEvent::Cancel, first),
{
}

/// Applied to a pending job, the canonical sequence of events ends in
/// `Done`, at whatever times the four events arrive; each of them is
/// applied.
pub proof fn lemma_canonical_sequence_completes_a_pending_job(
    jobs: Map<Seq<char>, RecordView>,
    job_id: Seq<char>,
    times: Seq<i64>,
)
    requires
        jobs.contains_key(job_id),
        jobs[job_id].state is Pending,
        times.len() == canonical_events().len(),
    ensures
        after_events(
            jobs,
            job_id,
            canonical_events(),
            times,
        ).contains_key(job_id),
        after_events(jobs, job_id, canonical_events(), times)[job_id].state
            is Done,
        forall|i: int|
            0 <= i < times.len() ==> (#[trigger] outcomes_of(
                jobs,
                job_id,
                canonical_events(),
                times,
            )[i]) is Ok,
{
    let e0 = canonical_events();
    let e1 = e0.skip(1);
    let e2 = e1.skip(1);
    let e3 = e2.skip(1);
    let e4 = e3.skip(1);
    let t0 = times;
    let t1 = t0.skip(1);
    let t2 = t1.skip(1);
    let t3 = t2.skip(1);
    let t4 = t3.skip(1);
    let j0 = jobs;
    let j1 = after_apply_event(j0, job_id, e0[0], t0[0]);
    let j2 = after_apply_event(j1, job_id, e1[0], t1[0]);
    let j3 = after_apply_event(j2, job_id, e2[0], t2[0]);
    let j4 = after_apply_event(j3, job_id, e3[0], t3[0]);
    assert(j1[job_id].state is Compiling);
    assert(j2[job_id].state is Queued);
    assert(j3[job_id].state is Running);
    assert(j4[job_id].state is Done);
    assert(e4.len() == 0);
    assert(after_events(j4, job_id, e4, t4) == j4);
    assert(after_events(j3, job_id, e3, t3) == j4);
    assert(after_events(j2, job_id, e2, t2) == j4);
    assert(after_events(j1, job_id, e1, t1) == j4);
    assert(after_events(j0, job_id, e0, t0) == j4);
    let o4 = outcomes_of(j4, job_id, e4, t4);
    let o3 = outcomes_of(j3, job_id, e3, t3);
    let o2 = outcomes_of(j2, job_id, e2, t2);
    let o1 = outcomes_of(j1, job_id, e1, t1);
    let o0 = outcomes_of(j0, job_id, e0, t0);
    assert(o4.len() == 0);
    assert(o3 == seq![apply_event_outcome(j3, job_id, e3[0], t3[0])] + o4);
    assert(o2 == seq![apply_event_outcome(j2, job_id, e2[0], t2[0])] + o3);
    assert(o1 == seq![apply_event_outcome(j1, job_id, e1[0], t1[0])] + o2);
    assert(o0 == seq![apply_event_outcome(j0, job_id, e0[0], t0[0])] + o1);
    assert(o3[0] is Ok);
    assert(o2[0] is Ok && o2[1] is Ok);
    assert(o1[0] is Ok && o1[1] is Ok && o1[2] is Ok);
    assert(o0[0] is Ok && o0[1] is Ok && o0[2] is Ok && o0[3] is Ok);
}

/// While every event of a run is refused in the job's state, the run
/// changes nothing, and each call reports its own refusal.
pub proof fn lemma_refused_run_changes_nothing(
    jobs: Map<Seq<char>, RecordView>,
    job_id: Seq<char>,
    events: Seq<JobEvent>,
    times: Seq<i64>,
)
    requires
        jobs.contains_key(job_id),
        times.len() == events.len(),
        forall|j: int|
            0 <= j < events.len() ==> next_state(jobs[job_id].state, #[trigger] events[j])
                is None,
    ensures
        after_events(jobs, job_id, events, times) == jobs,
        outcomes_of(jobs, job_id, events, times).len() == events.len(),
        forall|j: int|
            0 <= j < events.len() ==> #[trigger] outcomes_of(jobs, job_id, events, times)[j]
                == refusal(jobs[job_id].state, events[j]),
    decreases events.len(),
{
    if events.len() > 0 {
        let rest = events.skip(1);
        let rest_times = times.skip(1);
        assert(next_state(jobs[job_id].state, events[0]) is None);
        assert forall|j: int| 0 <= j < rest.len() implies next_state(
            jobs[job_id].state,
            #[trigger] rest[j],
        ) is None by {
            assert(rest[j] == events[j + 1]);
        }
        lemma_refused_run_changes_nothing(jobs, job_id, rest, rest_times);
        let tail = outcomes_of(jobs, job_id, rest, rest_times);
        assert forall|j: int| 0 <= j < events.len() implies #[trigger] outcomes_of(
            jobs,
            job_id,
            events,
            times,
        )[j] == refusal(jobs[job_id].state, events[j]) by {
            if j > 0 {
                assert(outcomes_of(jobs, job_id, events, times)[j] == tail[j - 1]);
                assert(rest[j - 1] == events[j]);
            }
        }
    }
}

/// Many calls for one job, of which one names an edge: whatever order the
/// calls take the lock in, exactly that one is applied, every other call is
/// refused, and the job ends in the state that the one edge leads to, with
/// nothing else changed.
///
/// `events` lists the calls in the order in which they got the lock, and
/// `winner` is the place of the one call whose event is an edge from the
/// job's state. No other event is an edge from that state, and none is an
/// edge from the state that the winner leads to: a call of that kind would
/// be applied too if it came after the winner.
pub proof fn lemma_one_of_many_calls_is_applied(
    jobs: Map<Seq<char>, RecordView>,
    job_id: Seq<char>,
    events: Seq<JobEvent>,
    times: Seq<i64>,
    winner: int,
    to: JobState,
)
    requires
        jobs.contains_key(job_id),
        times.len() == events.len(),
        0 <= winner < events.len(),
        next_state(jobs[job_id].state, events[winner]) == Some(to),
        forall|j: int|
            0 <= j < events.len() && j != winner ==> next_state(
                jobs[job_id].state,
                #[trigger] events[j],
            ) is None && next_state(to, events[j]) is None,
    ensures
        after_events(jobs, job_id, events, times) == jobs.insert(
            job_id,
            with_state(jobs[job_id], to, times[winner]),
        ),
        outcomes_of(jobs, job_id, events, times).len() == events.len(),
        forall|j: int|
            0 <= j < events.len() ==> #[trigger] outcomes_of(jobs, job_id, events, times)[j] == (
            if j < winner {
                refusal(jobs[job_id].state, events[j])
            } else if j == winner {
                Ok(with_state(jobs[job_id], to, times[winner]))
            } else {
                refusal(to, events[j])
            }),
    decreases events.len(),
{
    let rest = events.skip(1);
    let rest_times = times.skip(1);
    let all = outcomes_of(jobs, job_id, events, times);
    if winner == 0 {
        let moved = jobs.insert(job_id, with_state(jobs[job_id], to, times[0]));
        assert(after_apply_event(jobs, job_id, events[0], times[0]) == moved);
        assert forall|j: int| 0 <= j < rest.len() implies next_state(
            moved[job_id].state,
            #[trigger] rest[j],
        ) is None by {
            assert(rest[j] == events[j + 1]);
        }
        lemma_refused_run_changes_nothing(moved, job_id, rest, rest_times);
        let tail = outcomes_of(moved, job_id, rest, rest_times);
        assert forall|j: int| 0 <= j < events.len() implies #[trigger] all[j] == (if j < winner {
            refusal(jobs[job_id].state, events[j])
        } else if j == winner {
            Ok(with_state(jobs[job_id], to, times[winner]))
        } else {
            refusal(to, events[j])
        }) by {
            if j > 0 {
                assert(all[j] == tail[j - 1]);
                assert(rest[j - 1] == events[j]);
            }
        }
    } else {
        assert(next_state(jobs[job_id].state, events[0]) is None);
        assert(after_apply_event(jobs, job_id, events[0], times[0]) == jobs);
        assert(rest[winner - 1] == events[winner]);
        assert(rest_times[winner - 1] == times[winner]);
        assert forall|j: int| 0 <= j < rest.len() && j != winner - 1 implies next_state(
            jobs[job_id].state,
            #[trigger] rest[j],
        ) is None && next_state(to, rest[j]) is None by {
            assert(rest[j] == events[j + 1]);
        }
        lemma_one_of_many_calls_is_applied(jobs, job_id, rest, rest_times, winner - 1, to);
        let tail = outcomes_of(jobs, job_id, rest, rest_times);
        assert forall|j: int| 0 <= j < events.len() implies #[trigger] all[j] == (if j < winner {
            refusal(jobs[job_id].state, events[j])
        } else if j == winner {
            Ok(with_state(jobs[job_id], to, times[winner]))
        } else {
            refusal(to, events[j])
        }) by {
            if j > 0 {
                assert(all[j] == tail[j - 1]);
                assert(rest[j - 1] == events[j]);
            }
        }
    }
}

} // verus!
