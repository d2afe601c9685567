//! The shared job store: one [`Registry`] behind a reader-writer lock.
//!
//! Every operation takes the lock, performs one registry operation and lets
//! the lock go, so that read, transition and write of one event are a single
//! step that no other task can interleave with. What the registry holds at
//! that moment is up to the other tasks; the contracts here therefore say
//! what holds for every registry the operation may have met, and the exact
//! step is the contract of the registry operation itself.

use parking_lot::lock_api::{RwLock, RwLockReadGuard, RwLockWriteGuard};
use parking_lot::RawRwLock;
use std::sync::Arc;
use uuid::Uuid;
use vstd::prelude::*;

use crate::clock::unix_ms;
use crate::counts::Counts;
use crate::record::{new_record, record_wf, JobRecord, RecordView};
use crate::registry::{
    apply_event_outcome, lookup, lookup_view, outcome_view, registry_wf, ApplyError, Registry,
};
use crate::state_machine::{edge, lemma_next_state_is_edge, next_state, JobEvent, JobState};

verus! {

/// `parking_lot::RawRwLock`, the lock's raw state, carried as an opaque
/// value.
#[verifier::external_type_specification]
#[verifier::external_body]
pub struct ExRawRwLock(RawRwLock);

/// `lock_api::RwLock`, the reader-writer lock, carried as an opaque value:
/// nothing is known of what it guards but its type.
#[verifier::external_type_specification]
#[verifier::external_body]
#[verifier::reject_recursive_types(R)]
#[verifier::reject_recursive_types(T)]
pub struct ExRwLock<R, T: ?Sized>(RwLock<R, T>);

/// Shared access to the registry: a read guard of the lock
/// (`lock_api::RwLockReadGuard`). The lock is let go when the value is
/// dropped. The guard is bounded by a trait of the lock's crate, so it is
/// held here as a whole rather than declared.
#[verifier::external_body]
struct ReadAccess<'a> {
    guard: RwLockReadGuard<'a, RawRwLock, Registry>,
}

/// Exclusive access to the registry: a write guard of the lock
/// (`lock_api::RwLockWriteGuard`). The lock is let go when the value is
/// dropped. The guard is bounded by a trait of the lock's crate, so it is
/// held here as a whole rather than declared.
#[verifier::external_body]
struct WriteAccess<'a> {
    guard: RwLockWriteGuard<'a, RawRwLock, Registry>,
}

/// `RwLock::new`: an unlocked lock around `registry`.
#[verifier::external_body]
fn new_lock(registry: Registry) -> RwLock<RawRwLock, Registry> {
    RwLock::new(registry)
}

/// `Arc::clone`: another handle to the same lock.
#[verifier::external_body]
fn share_lock(lock: &Arc<RwLock<RawRwLock, Registry>>) -> (r: Arc<RwLock<RawRwLock, Registry>>)
    ensures
        r == *lock,
{
    Arc::clone(lock)
}

/// `RwLock::read`: blocks until no writer holds the lock, then returns a
/// read guard. The calling task must not hold a guard of the same lock
/// already, or the call may never return; no function of this module holds
/// one when it returns.
#[verifier::external_body]
fn read_access<'a>(lock: &'a RwLock<RawRwLock, Registry>) -> ReadAccess<'a> {
    ReadAccess { guard: lock.read() }
}

/// `RwLock::write`: blocks until nobody else holds the lock, then returns a
/// write guard. The calling task must not hold a guard of the same lock
/// already, or the call never returns.
#[verifier::external_body]
fn write_access<'a>(lock: &'a RwLock<RawRwLock, Registry>) -> WriteAccess<'a> {
    WriteAccess { guard: lock.write() }
}

/// `Deref::deref` of the read guard: the registry under the lock. Which
/// registry that is depends on the other tasks, so nothing is claimed of it.
#[verifier::external_body]
fn reading<'a, 'b>(access: &'a ReadAccess<'b>) -> &'a Registry {
    &*access.guard
}

/// `DerefMut::deref_mut` of the write guard: the registry under the lock.
/// Which registry that is depends on the other tasks, so nothing is claimed
/// of it.
#[verifier::external_body]
fn writing<'a, 'b>(access: &'a mut WriteAccess<'b>) -> &'a mut Registry {
    &mut *access.guard
}

/// Whether `c` is a decimal digit or one of `a` to `f`.
pub open spec fn is_lower_hex(c: char) -> bool {
    let n = c as u32;
    0x30 <= n <= 0x39 || 0x61 <= n <= 0x66
}

/// The shape of a UUID in its hyphenated form: 36 characters, hyphens at
/// positions 8, 13, 18 and 23, lower-case hexadecimal digits elsewhere.
pub open spec fn is_hyphenated_uuid(s: Seq<char>) -> bool {
    &&& s.len() == 36
    &&& forall|i: int|
        0 <= i < 36 ==> if i == 8 || i == 13 || i == 18 || i == 23 {
            #[trigger] s[i] == '-'
        } else {
            is_lower_hex(s[i])
        }
}

/// `Uuid::new_v4` and the `to_string` of the result: a random UUID in its
/// hyphenated lower-case form. The contract claims the shape of the text and
/// nothing of its value. The call panics if the operating system cannot
/// supply random bytes.
#[verifier::external_body]
fn random_job_id() -> (id: String)
    ensures
        is_hyphenated_uuid(id@),
{
    Uuid::new_v4().to_string()
}

/// A handle to the shared job store. Handles are cheap to clone, and all
/// clones work on the same registry.
pub struct JobStore {
    inner: Arc<RwLock<RawRwLock, Registry>>,
}

impl JobStore {
    /// Whether two handles lead to the same registry.
    pub closed spec fn same_store(&self, other: &JobStore) -> bool {
        self.inner == other.inner
    }

    /// A store without jobs.
    pub fn new() -> JobStore {
        JobStore { inner: Arc::new(new_lock(Registry::new())) }
    }

    /// Creates a job named `name`: a fresh random id, state `Pending`, both
    /// timestamps at the current time. The record is inserted under the
    /// write lock, so no other task sees it half-made.
    pub fn create_job(&self, name: String) -> (r: JobRecord)
        ensures
            exists|job_id: Seq<char>, now: i64|
                is_hyphenated_uuid(job_id) && now >= 0 && r@ == #[trigger] new_record(
                    job_id,
                    name@,
                    now,
                ),
    {
        let now = unix_ms();
        let job_id = random_job_id();
        let mut access = write_access(&self.inner);
        let registry = writing(&mut access);
        let ghost id = job_id@;
        let record = registry.create_job(job_id, name, now);
        assert(record@ == new_record(id, name@, now));
        record
    }

    /// A copy of the record of `job_id` as it was at some moment during the
    /// call, or `None` if the store had no such job then. The copy does not
    /// follow later changes.
    pub fn get(&self, job_id: &str) -> (r: Option<JobRecord>)
        ensures
            r matches Some(rec) ==> rec.job_id@ == job_id@ && record_wf(rec@),
    {
        let access = read_access(&self.inner);
        let registry = reading(&access);
        let r = registry.get(job_id);
        assert(lookup_view(r) == lookup(registry@, job_id@));
        r
    }

    /// Applies `event` to job `job_id` as one step under the write lock and
    /// returns a copy of the updated record.
    ///
    /// The result is what [`Registry::apply_event`] gives on the registry
    /// that the call found under the lock, at the time it read from the
    /// clock there. So an updated record is the record of `job_id`, moved
    /// along an edge that `event` names, and a refusal names `event` and a
    /// state from which it is no edge.
    pub fn apply_event(&self, job_id: &str, event: JobEvent) -> (r: Result<JobRecord, ApplyError>)
        ensures
            exists|jobs: Map<Seq<char>, RecordView>, now: i64|
                registry_wf(jobs) && now >= 0 && outcome_view(r) == #[trigger] apply_event_outcome(
                    jobs,
                    job_id@,
                    event,
                    now,
                ),
            match r {
                Ok(rec) => rec.job_id@ == job_id@ && record_wf(rec@) && exists|from: JobState| #[trigger]
                    edge(from, event, rec.state),
                Err(ApplyError::NotFound) => true,
                Err(ApplyError::InvalidTransition(e)) => e->event == event && forall|to: JobState|
                    !edge(e->from, event, to),
            },
    {
        let mut access = write_access(&self.inner);
        let registry = writing(&mut access);
        let now = unix_ms();
        let ghost before = registry@;
        let r = registry.apply_event(job_id, event, now);
        assert(outcome_view(r) == apply_event_outcome(before, job_id@, event, now));
        proof {
            if before.contains_key(job_id@) {
                let from = before[job_id@].state;
                match next_state(from, event) {
                    Some(to) => {
                        lemma_next_state_is_edge(from, event, to);
                    },
                    None => {
                        assert forall|to: JobState| !edge(from, event, to) by {
                            lemma_next_state_is_edge(from, event, to);
                        }
                    },
                }
            }
        }
        r
    }

    /// Attaches error details to job `job_id`, under the write lock. Best
    /// effort: on an unknown id nothing happens and nothing is reported.
    pub fn set_error(
        &self,
        job_id: &str,
        code: String,
        summary: String,
        details_ref: Option<String>,
    ) {
        let mut access = write_access(&self.inner);
        let registry = writing(&mut access);
        let now = unix_ms();
        registry.set_error(job_id, code, summary, details_ref, now);
    }

    /// Attaches result counts to job `job_id`, under the write lock. Best
    /// effort: on an unknown id nothing happens and nothing is reported.
    pub fn set_counts(&self, job_id: &str, counts: Counts) {
        let mut access = write_access(&self.inner);
        let registry = writing(&mut access);
        let now = unix_ms();
        registry.set_counts(job_id, counts, now);
    }

    /// Another handle to the same store.
    pub fn clone_handle(&self) -> (r: JobStore)
        ensures
            r.same_store(self),
    {
        JobStore { inner: share_lock(&self.inner) }
    }
}

impl Default for JobStore {
    fn default() -> JobStore {
        JobStore::new()
    }
}

impl Clone for JobStore {
    fn clone(&self) -> (r: JobStore)
        ensures
            r.same_store(self),
    {
        self.clone_handle()
    }
}

} // verus!
