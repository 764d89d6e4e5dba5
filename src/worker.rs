use vstd::prelude::*;

verus! {

/// Where a worker stands in its consume-execute loop.
#[derive(Debug, PartialEq, Eq, Structural, Clone, Copy)]
pub enum WorkerState {
    /// Waiting on the queue for the next job.
    Idle,
    /// Running one job to completion.
    Executing,
    /// The queue was closed and drained; the loop has ended.
    Terminated,
}

/// What happens to a worker.
#[derive(Debug, PartialEq, Eq, Structural, Clone, Copy)]
pub enum WorkerEvent {
    /// The queue handed it a job.
    Received,
    /// The job it was running returned.
    Finished,
    /// The job it was running failed; the failure stays with that job.
    Faulted,
    /// The queue reported that it is closed and empty.
    QueueClosed,
}

/// The transition relation of a worker. Events that cannot happen in a state
/// (a job finishing while idle, a job arriving mid-job or after the end)
/// leave the state unchanged.
pub open spec fn next_state(s: WorkerState, e: WorkerEvent) -> WorkerState {
    match (s, e) {
        (WorkerState::Idle, WorkerEvent::Received) => WorkerState::Executing,
        (WorkerState::Idle, WorkerEvent::QueueClosed) => WorkerState::Terminated,
        (WorkerState::Executing, WorkerEvent::Finished) => WorkerState::Idle,
        (WorkerState::Executing, WorkerEvent::Faulted) => WorkerState::Idle,
        _ => s,
    }
}

/// Advances a worker by one event.
pub fn step(s: WorkerState, e: WorkerEvent) -> (r: WorkerState)
    ensures
        r == next_state(s, e),
{
    match (s, e) {
        (WorkerState::Idle, WorkerEvent::Received) => WorkerState::Executing,
        (WorkerState::Idle, WorkerEvent::QueueClosed) => WorkerState::Terminated,
        (WorkerState::Executing, WorkerEvent::Finished) => WorkerState::Idle,
        (WorkerState::Executing, WorkerEvent::Faulted) => WorkerState::Idle,
        _ => s,
    }
}

/// Whether a worker in state `s` keeps looping.
pub fn is_running(s: WorkerState) -> (r: bool)
    ensures
        r <==> s != WorkerState::Terminated,
{
    match s {
        WorkerState::Terminated => false,
        _ => true,
    }
}

/// The state reached from `s` after the events of `es`, in order.
pub open spec fn run_events(s: WorkerState, es: Seq<WorkerEvent>) -> WorkerState
    decreases es.len(),
{
    if es.len() == 0 {
        s
    } else {
        run_events(next_state(s, es[0]), es.drop_first())
    }
}

/// A job that fails does not stop its worker: the worker goes back to
/// waiting, runs the next job it receives, and ends only when the queue
/// says it is closed.
pub proof fn fault_does_not_stop_worker()
    ensures
        run_events(
            WorkerState::Executing,
            seq![WorkerEvent::Faulted, WorkerEvent::Received],
        ) == WorkerState::Executing,
        next_state(WorkerState::Executing, WorkerEvent::Faulted) == WorkerState::Idle,
        forall|e: WorkerEvent|
            next_state(WorkerState::Idle, e) == WorkerState::Terminated <==> e
                == WorkerEvent::QueueClosed,
{
    let es = seq![WorkerEvent::Faulted, WorkerEvent::Received];
    assert(es.drop_first() =~= seq![WorkerEvent::Received]);
    assert(es.drop_first().drop_first() =~= Seq::<WorkerEvent>::empty());
    assert(run_events(WorkerState::Executing, es.drop_first().drop_first())
        == WorkerState::Executing);
    assert(run_events(WorkerState::Idle, es.drop_first()) == WorkerState::Executing);
}

/// Once terminated, a worker stays terminated whatever happens next.
pub proof fn termination_is_final(es: Seq<WorkerEvent>)
    ensures
        run_events(WorkerState::Terminated, es) == WorkerState::Terminated,
    decreases es.len(),
{
    if es.len() > 0 {
        termination_is_final(es.drop_first());
    }
}

} // verus!
