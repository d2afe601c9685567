//! Deterministic job lifecycle state machine.
//!
//! The lifecycle graph is stated once, as the relation [`edge`]. The function
//! [`transition`] is the only executable encoding of it, and every other
//! component goes through that function to change a job's state.

use vstd::prelude::*;
use vstd::string::StringExecFns;

verus! {

/// Lifecycle states of a job.
#[derive(Debug, Clone, Copy, PartialEq, Eq, Structural)]
pub enum JobState {
    Pending,
    Compiling,
    Queued,
    Running,
    Done,
    Error,
    Cancelled,
}

/// Events that can cause a state transition.
#[derive(Debug, Clone, Copy, PartialEq, Eq, Structural)]
pub enum JobEvent {
    Enqueued,
    StartCompiling,
    FinishCompiling,
    StartRunning,
    FinishRunningOk,
    Fail,
    Cancel,
}

/// Why a transition was refused. Carries the rejected edge so that the caller
/// can log or surface it.
#[derive(Debug, Clone, Copy, PartialEq, Eq, Structural)]
pub enum TransitionError {
    Invalid { from: JobState, event: JobEvent },
}

/// `Done`, `Error` and `Cancelled` are terminal: nothing leaves them.
pub open spec fn is_terminal(state: JobState) -> bool {
    state is Done || state is Error || state is Cancelled
}

/// The lifecycle graph: `edge(from, event, to)` holds exactly when `event`
/// moves a job from `from` to `to`.
pub open spec fn edge(from: JobState, event: JobEvent, to: JobState) -> bool {
    ||| from is Pending && event is StartCompiling && to is Compiling
    ||| from is Compiling && event is FinishCompiling && to is Queued
    ||| from is Queued && event is StartRunning && to is Running
    ||| from is Running && event is FinishRunningOk && to is Done
    ||| !is_terminal(from) && event is Cancel && to is Cancelled
    ||| !is_terminal(from) && event is Fail && to is Error
    ||| from is Pending && event is Enqueued && to is Pending
}

/// The state that `event` leads to from `from`, if the graph has such an edge.
pub open spec fn next_state(from: JobState, event: JobEvent) -> Option<JobState> {
    match (from, event) {
        (JobState::Pending, JobEvent::StartCompiling) => Some(JobState::Compiling),
        (JobState::Compiling, JobEvent::FinishCompiling) => Some(JobState::Queued),
        (JobState::Queued, JobEvent::StartRunning) => Some(JobState::Running),
        (JobState::Running, JobEvent::FinishRunningOk) => Some(JobState::Done),
        (JobState::Pending, JobEvent::Enqueued) => Some(JobState::Pending),
        (_, JobEvent::Cancel) => if is_terminal(from) {
            None
        } else {
            Some(JobState::Cancelled)
        },
        (_, JobEvent::Fail) => if is_terminal(from) {
            None
        } else {
            Some(JobState::Error)
        },
        _ => None,
    }
}

/// What [`transition`] returns: the next state along the graph, or the
/// rejected edge.
pub open spec fn transition_spec(from: JobState, event: JobEvent) -> Result<
    JobState,
    TransitionError,
> {
    match next_state(from, event) {
        Some(to) => Ok(to),
        None => Err(TransitionError::Invalid { from, event }),
    }
}

/// The state reached by applying `events` in order, starting at `from`; the
/// first rejected edge ends the run.
pub open spec fn run_events(from: JobState, events: Seq<JobEvent>) -> Result<
    JobState,
    TransitionError,
>
    decreases events.len(),
{
    if events.len() == 0 {
        Ok(from)
    } else {
        match transition_spec(from, events[0]) {
            Ok(to) => run_events(to, events.skip(1)),
            Err(e) => Err(e),
        }
    }
}

/// The events that take a job from submission to completion, in order.
pub open spec fn canonical_events() -> Seq<JobEvent> {
    seq![
        JobEvent::StartCompiling,
        JobEvent::FinishCompiling,
        JobEvent::StartRunning,
        JobEvent::FinishRunningOk,
    ]
}

/// The name of a state, as it is written in messages.
pub open spec fn state_name(state: JobState) -> Seq<char> {
    match state {
        JobState::Pending => "Pending"@,
        JobState::Compiling => "Compiling"@,
        JobState::Queued => "Queued"@,
        JobState::Running => "Running"@,
        JobState::Done => "Done"@,
        JobState::Error => "Error"@,
        JobState::Cancelled => "Cancelled"@,
    }
}

/// The name of an event, as it is written in messages.
pub open spec fn event_name(event: JobEvent) -> Seq<char> {
    match event {
        JobEvent::Enqueued => "Enqueued"@,
        JobEvent::StartCompiling => "StartCompiling"@,
        JobEvent::FinishCompiling => "FinishCompiling"@,
        JobEvent::StartRunning => "StartRunning"@,
        JobEvent::FinishRunningOk => "FinishRunningOk"@,
        JobEvent::Fail => "Fail"@,
        JobEvent::Cancel => "Cancel"@,
    }
}

impl JobState {
    /// The name of the state.
    pub fn name(&self) -> (r: &'static str)
        ensures
            r@ == state_name(*self),
    {
        match self {
            JobState::Pending => "Pending",
            JobState::Compiling => "Compiling",
            JobState::Queued => "Queued",
            JobState::Running => "Running",
            JobState::Done => "Done",
            JobState::Error => "Error",
            JobState::Cancelled => "Cancelled",
        }
    }

    /// Whether the state has no outgoing transitions.
    pub fn is_terminal(&self) -> (r: bool)
        ensures
            r == is_terminal(*self),
    {
        match self {
            JobState::Done | JobState::Error | JobState::Cancelled => true,
            _ => false,
        }
    }
}

impl JobEvent {
    /// The name of the event.
    pub fn name(&self) -> (r: &'static str)
        ensures
            r@ == event_name(*self),
    {
        match self {
            JobEvent::Enqueued => "Enqueued",
            JobEvent::StartCompiling => "StartCompiling",
            JobEvent::FinishCompiling => "FinishCompiling",
            JobEvent::StartRunning => "StartRunning",
            JobEvent::FinishRunningOk => "FinishRunningOk",
            JobEvent::Fail => "Fail",
            JobEvent::Cancel => "Cancel",
        }
    }
}

impl TransitionError {
    /// The rejected edge in words: the state, the event, and a question
    /// mark where the next state would stand.
    pub fn message(&self) -> (r: String)
        ensures
            r@ == "invalid transition: "@ + state_name(self->from) + " --"@ + event_name(
                self->event,
            ) + "--> ?"@,
    {
        match self {
            TransitionError::Invalid { from, event } => {
                String::from_str("invalid transition: ").concat(from.name()).concat(" --").concat(
                    event.name(),
                ).concat("--> ?")
            },
        }
    }
}

/// Computes the next state for a given current state and event.
///
/// Pure, total and deterministic. Succeeds with `to` exactly when the graph
/// has the edge `(from, event, to)`; every other pair, and so every event on
/// a terminal state, is refused with the pair itself.
pub fn transition(from: JobState, event: JobEvent) -> (r: Result<JobState, TransitionError>)
    ensures
        r == transition_spec(from, event),
        match r {
            Ok(to) => edge(from, event, to),
            Err(e) => e == (TransitionError::Invalid { from, event }) && forall|to: JobState|
                !edge(from, event, to),
        },
{
    let next = match (from, event) {
        (JobState::Pending, JobEvent::StartCompiling) => JobState::Compiling,
        (JobState::Compiling, JobEvent::FinishCompiling) => JobState::Queued,
        (JobState::Queued, JobEvent::StartRunning) => JobState::Running,
        (JobState::Running, JobEvent::FinishRunningOk) => JobState::Done,
        // Cancellation is allowed from any non-terminal state.
        (
            JobState::Pending | JobState::Compiling | JobState::Queued | JobState::Running,
            JobEvent::Cancel,
        ) => JobState::Cancelled,
        // Failure is allowed from any non-terminal state.
        (
            JobState::Pending | JobState::Compiling | JobState::Queued | JobState::Running,
            JobEvent::Fail,
        ) => JobState::Error,
        // Enqueued marks creation; the record starts in Pending and stays there.
        (JobState::Pending, JobEvent::Enqueued) => JobState::Pending,
        // Terminal states accept nothing, and no other pair is an edge.
        _ => {
            return Err(TransitionError::Invalid { from, event });
        },
    };
    Ok(next)
}

/// `next_state` and `edge` describe the same graph.
pub proof fn lemma_next_state_is_edge(from: JobState, event: JobEvent, to: JobState)
    ensures
        edge(from, event, to) <==> next_state(from, event) == Some(to),
{
}

/// The graph is deterministic: a state and an event have at most one
/// successor.
pub proof fn lemma_edges_are_deterministic(
    from: JobState,
    event: JobEvent,
    to: JobState,
    other: JobState,
)
    requires
        edge(from, event, to),
        edge(from, event, other),
    ensures
        to == other,
{
}

/// A pair that is not in the edge table is refused, and the error names the
/// pair.
pub proof fn lemma_non_edge_is_rejected(from: JobState, event: JobEvent)
    requires
        forall|to: JobState| !edge(from, event, to),
    ensures
        transition_spec(from, event) == Err::<JobState, TransitionError>(
            TransitionError::Invalid { from, event },
        ),
{
    if let Some(to) = next_state(from, event) {
        lemma_next_state_is_edge(from, event, to);
    }
}

/// Terminal states are absorbing: every event is refused there.
pub proof fn lemma_terminal_states_absorb(from: JobState, event: JobEvent)
    requires
        is_terminal(from),
    ensures
        transition_spec(from, event) == Err::<JobState, TransitionError>(
            TransitionError::Invalid { from, event },
        ),
{
}

/// From `Pending`, the canonical sequence of events ends in `Done`.
pub proof fn lemma_canonical_sequence_reaches_done()
    ensures
        run_events(JobState::Pending, canonical_events()) == Ok::<JobState, TransitionError>(
            JobState::Done,
        ),
{
    let e0 = canonical_events();
    let e1 = e0.skip(1);
    let e2 = e1.skip(1);
    let e3 = e2.skip(1);
    let e4 = e3.skip(1);
    assert(e4.len() == 0);
    assert(run_events(JobState::Done, e4) == Ok::<JobState, TransitionError>(JobState::Done));
    assert(run_events(JobState::Running, e3) == run_events(JobState::Done, e4));
    assert(run_events(JobState::Queued, e2) == run_events(JobState::Running, e3));
    assert(run_events(JobState::Compiling, e1) == run_events(JobState::Queued, e2));
    assert(run_events(JobState::Pending, e0) == run_events(JobState::Compiling, e1));
}

/// `Cancel` succeeds from exactly `Pending`, `Compiling`, `Queued` and
/// `Running`, where it leads to `Cancelled`, and fails from `Done`, `Error`
/// and `Cancelled`.
pub proof fn lemma_cancel_succeeds_iff_not_terminal(from: JobState)
    ensures
        transition_spec(from, JobEvent::Cancel) is Ok <==> (from is Pending || from is Compiling
            || from is Queued || from is Running),
        transition_spec(from, JobEvent::Cancel) is Err <==> (from is Done || from is Error
            || from is Cancelled),
        transition_spec(from, JobEvent::Cancel) is Ok ==> transition_spec(from, JobEvent::Cancel)
            == Ok::<JobState, TransitionError>(JobState::Cancelled),
        transition_spec(from, JobEvent::Cancel) is Err ==> transition_spec(from, JobEvent::Cancel)
            == Err::<JobState, TransitionError>(
            TransitionError::Invalid { from, event: JobEvent::Cancel },
        ),
{
}

} // verus!
