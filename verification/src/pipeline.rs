//! The pipeline driver: the background work that advances one job.
//!
//! A driver issues the canonical events for its job, one per step and in
//! order, each as its own `apply_event` on the store. Between two events the
//! caller waits for the pause that the step asks for. The first refused
//! event ends the driver for good: it never retries, and it never writes
//! over a state that somebody else has set. When the last event is applied
//! the driver attaches the result counts and is done.

use vstd::prelude::*;
use vstd::string::StringExecFns;

use crate::counts::Counts;
use crate::job_store::JobStore;
use crate::state_machine::{canonical_events, JobEvent};

verus! {

/// The pause between two events of a job, in milliseconds.
pub const PHASE_DELAY_MS: u64 = 50;

/// The number of events in the canonical sequence.
pub const CANONICAL_LEN: usize = 4;

/// What the caller of a driver does after a step.
#[derive(Debug, Clone, Copy, PartialEq, Eq, Structural)]
pub enum DriverAction {
    /// Wait this long, then step again.
    Pause { millis: u64 },
    /// The job is `Done` and its counts are attached. Stop.
    Completed,
    /// An event was refused. Stop.
    Stopped,
}

/// A driver as a mathematical value.
pub struct DriverView {
    pub job_id: Seq<char>,
    /// How many events of the canonical sequence were applied.
    pub issued: nat,
    /// Whether the driver has stopped, for either reason.
    pub finished: bool,
}

/// A driver has issued no more events than there are, and has stopped when
/// none is left.
pub open spec fn driver_wf(d: DriverView) -> bool {
    d.issued <= canonical_events().len() && (d.issued == canonical_events().len() ==> d.finished)
}

/// The event that a driver in state `d` issues next.
pub open spec fn next_event_of(d: DriverView) -> Option<JobEvent> {
    if d.finished || d.issued >= canonical_events().len() {
        None
    } else {
        Some(canonical_events()[d.issued as int])
    }
}

/// The driver after it has learned whether its event was applied. A
/// finished driver stays as it is.
pub open spec fn driver_after(d: DriverView, applied: bool) -> DriverView {
    if d.finished || d.issued >= canonical_events().len() {
        DriverView { finished: true, ..d }
    } else if !applied {
        DriverView { finished: true, ..d }
    } else {
        DriverView {
            issued: d.issued + 1,
            finished: d.issued + 1 == canonical_events().len(),
            ..d
        }
    }
}

/// What the caller is told after that. A finished driver repeats how it
/// ended.
pub open spec fn action_after(d: DriverView, applied: bool) -> DriverAction {
    if d.finished || d.issued >= canonical_events().len() {
        if d.issued == canonical_events().len() {
            DriverAction::Completed
        } else {
            DriverAction::Stopped
        }
    } else if !applied {
        DriverAction::Stopped
    } else if d.issued + 1 == canonical_events().len() {
        DriverAction::Completed
    } else {
        DriverAction::Pause { millis: PHASE_DELAY_MS }
    }
}

/// The driver after a run of steps with the given outcomes.
pub open spec fn driver_after_all(d: DriverView, outcomes: Seq<bool>) -> DriverView
    decreases outcomes.len(),
{
    if outcomes.len() == 0 {
        d
    } else {
        driver_after_all(driver_after(d, outcomes[0]), outcomes.skip(1))
    }
}

/// The `index`-th event of the canonical sequence.
pub fn canonical_event(index: usize) -> (r: Option<JobEvent>)
    ensures
        r == (if index < canonical_events().len() {
            Some(canonical_events()[index as int])
        } else {
            None
        }),
{
    match index {
        0 => Some(JobEvent::StartCompiling),
        1 => Some(JobEvent::FinishCompiling),
        2 => Some(JobEvent::StartRunning),
        3 => Some(JobEvent::FinishRunningOk),
        _ => None,
    }
}

/// The counts that a finished job gets while no real execution backs the
/// pipeline: outcome `"0"`, seen zero times.
pub fn placeholder_counts() -> (r: Counts)
    ensures
        r@ == Map::<Seq<char>, i64>::empty().insert("0"@, 0i64),
{
    let mut counts = Counts::new();
    counts.insert(String::from_str("0"), 0);
    counts
}

/// The driver of one job.
#[derive(Debug)]
pub struct PipelineDriver {
    job_id: String,
    issued: usize,
    finished: bool,
}

impl View for PipelineDriver {
    type V = DriverView;

    closed spec fn view(&self) -> DriverView {
        DriverView { job_id: self.job_id@, issued: self.issued as nat, finished: self.finished }
    }
}

impl PipelineDriver {
    #[verifier::type_invariant]
    spec fn within_sequence(self) -> bool {
        driver_wf(self@)
    }

    /// A driver for job `job_id` that has issued nothing yet. Only the
    /// gateway makes drivers, one for each job it creates.
    pub(crate) fn new(job_id: String) -> (r: PipelineDriver)
        ensures
            r@ == (DriverView { job_id: job_id@, issued: 0, finished: false }),
    {
        PipelineDriver { job_id, issued: 0, finished: false }
    }

    /// The job that this driver advances.
    pub fn job_id(&self) -> (r: &str)
        ensures
            r@ == self@.job_id,
    {
        self.job_id.as_str()
    }

    /// Whether the driver has stopped.
    pub fn is_finished(&self) -> (r: bool)
        ensures
            r == self@.finished,
            driver_wf(self@),
    {
        proof {
            use_type_invariant(self);
        }
        self.finished
    }

    /// The event to issue next, or `None` once the driver has stopped.
    pub fn next_event(&self) -> (r: Option<JobEvent>)
        ensures
            r == next_event_of(self@),
            r is None <==> self@.finished,
    {
        proof {
            use_type_invariant(self);
        }
        if self.finished {
            None
        } else {
            canonical_event(self.issued)
        }
    }

    /// Takes note of whether the event of `next_event` was applied, and says
    /// what to do now.
    pub fn record_outcome(&mut self, applied: bool) -> (r: DriverAction)
        ensures
            final(self)@ == driver_after(old(self)@, applied),
            r == action_after(old(self)@, applied),
    {
        proof {
            use_type_invariant(&*self);
        }
        if self.finished {
            if self.issued == CANONICAL_LEN {
                DriverAction::Completed
            } else {
                DriverAction::Stopped
            }
        } else if !applied {
            self.finished = true;
            DriverAction::Stopped
        } else if self.issued + 1 == CANONICAL_LEN {
            self.finished = true;
            self.issued = self.issued + 1;
            DriverAction::Completed
        } else {
            self.issued = self.issued + 1;
            DriverAction::Pause { millis: PHASE_DELAY_MS }
        }
    }

    /// One step of the driver: applies the next event to the job through
    /// `store`, and says what to do now. After the last event the step also
    /// attaches the result counts. A stopped driver touches nothing.
    ///
    /// Whether the event is applied is up to the store, where a cancellation
    /// may have come first. Either way the driver moves as `driver_after`
    /// says, and the answer is the one of `action_after`.
    pub fn step(&mut self, store: &JobStore) -> (r: DriverAction)
        ensures
            exists|applied: bool|
                final(self)@ == #[trigger] driver_after(old(self)@, applied) && r == action_after(
                    old(self)@,
                    applied,
                ),
            old(self)@.finished ==> final(self)@ == old(self)@,
    {
        proof {
            use_type_invariant(&*self);
        }
        let event = match self.next_event() {
            Some(event) => event,
            None => {
                let ghost before = self@;
                let action = self.record_outcome(false);
                assert(self@ == driver_after(before, false));
                return action;
            },
        };
        let applied = store.apply_event(self.job_id.as_str(), event).is_ok();
        let ghost before = self@;
        let action = self.record_outcome(applied);
        assert(self@ == driver_after(before, applied));
        match action {
            DriverAction::Completed => {
                store.set_counts(self.job_id.as_str(), placeholder_counts());
            },
            _ => {},
        }
        action
    }
}

/// A step keeps a driver well formed, never moves it backwards, never
/// changes its job, and leaves a finished driver as it is.
pub proof fn lemma_driver_only_advances(d: DriverView, applied: bool)
    ensures
        driver_wf(d) ==> driver_wf(driver_after(d, applied)),
        driver_after(d, applied).job_id == d.job_id,
        driver_after(d, applied).issued >= d.issued,
        driver_after(d, applied).issued <= d.issued + 1,
        d.finished ==> driver_after(d, applied) == d,
        driver_after(d, applied).issued > d.issued ==> applied && next_event_of(d) is Some,
{
}

/// Whatever the outcomes are, a driver is finished after as many steps as
/// the canonical sequence has events left.
pub proof fn lemma_driver_finishes(d: DriverView, outcomes: Seq<bool>)
    requires
        driver_wf(d),
        d.issued + outcomes.len() >= canonical_events().len(),
    ensures
        driver_after_all(d, outcomes).finished,
    decreases outcomes.len(),
{
    if outcomes.len() == 0 {
    } else {
        let next = driver_after(d, outcomes[0]);
        if next.finished {
            lemma_finished_driver_stays(next, outcomes.skip(1));
        } else {
            lemma_driver_finishes(next, outcomes.skip(1));
        }
    }
}

/// A finished driver is not changed by further steps.
pub proof fn lemma_finished_driver_stays(d: DriverView, outcomes: Seq<bool>)
    requires
        d.finished,
    ensures
        driver_after_all(d, outcomes) == d,
    decreases outcomes.len(),
{
    if outcomes.len() > 0 {
        lemma_finished_driver_stays(d, outcomes.skip(1));
    }
}

} // verus!
