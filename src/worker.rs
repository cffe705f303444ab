//! The life of one download worker, as a state machine.
//!
//! A worker opens a session, then takes items from the shared queue one at a time and
//! fetches each. On a failed fetch it puts the item back at the front of the queue and
//! stops taking work. However it stops, it destroys its session on the way out.
use vstd::prelude::*;

verus! {

/// Where a worker stands.
#[derive(Clone, Copy, Debug, PartialEq, Eq, Structural)]
pub enum WorkerPhase {
    Starting,
    Ready,
    Busy,
    Requeuing,
    Closing,
    Terminated,
}

/// What the worker's caller must do next.
#[derive(Clone, Copy, Debug, PartialEq, Eq, Structural)]
pub enum WorkerAction {
    /// Open a solver session.
    CreateSession,
    /// Take the next item from the queue.
    Take,
    /// Fetch the item taken.
    Fetch,
    /// Put the item taken back at the front of the queue.
    Requeue,
    /// Destroy the session, ignoring any failure.
    DestroySession,
    /// The worker is done.
    Exit,
}

/// What the caller observed.
#[derive(Clone, Copy, Debug, PartialEq, Eq, Structural)]
pub enum WorkerEvent {
    SessionCreated(bool),
    /// Whether the queue handed out an item.
    Taken(bool),
    /// Whether the fetch succeeded.
    Fetched(bool),
    Requeued,
    SessionDestroyed,
}

/// The action that carries on in a phase after an event that does not belong to it.
pub open spec fn resume_worker(p: WorkerPhase) -> WorkerAction {
    match p {
        WorkerPhase::Starting => WorkerAction::CreateSession,
        WorkerPhase::Ready => WorkerAction::Take,
        WorkerPhase::Busy => WorkerAction::Fetch,
        WorkerPhase::Requeuing => WorkerAction::Requeue,
        WorkerPhase::Closing => WorkerAction::DestroySession,
        WorkerPhase::Terminated => WorkerAction::Exit,
    }
}

/// The next phase and action after `ev`.
pub open spec fn worker_next(p: WorkerPhase, ev: WorkerEvent) -> (WorkerPhase, WorkerAction) {
    match (p, ev) {
        (WorkerPhase::Starting, WorkerEvent::SessionCreated(ok)) => if ok {
            (WorkerPhase::Ready, WorkerAction::Take)
        } else {
            (WorkerPhase::Closing, WorkerAction::DestroySession)
        },
        (WorkerPhase::Ready, WorkerEvent::Taken(some)) => if some {
            (WorkerPhase::Busy, WorkerAction::Fetch)
        } else {
            (WorkerPhase::Closing, WorkerAction::DestroySession)
        },
        (WorkerPhase::Busy, WorkerEvent::Fetched(ok)) => if ok {
            (WorkerPhase::Ready, WorkerAction::Take)
        } else {
            (WorkerPhase::Requeuing, WorkerAction::Requeue)
        },
        (WorkerPhase::Requeuing, WorkerEvent::Requeued) => (WorkerPhase::Closing, WorkerAction::DestroySession),
        (WorkerPhase::Closing, WorkerEvent::SessionDestroyed) => (WorkerPhase::Terminated, WorkerAction::Exit),
        _ => (p, resume_worker(p)),
    }
}

/// The phases after a failure: the worker takes no more work.
pub open spec fn winding_down(p: WorkerPhase) -> bool {
    p == WorkerPhase::Requeuing || p == WorkerPhase::Closing || p == WorkerPhase::Terminated
}

/// The phase after a sequence of events.
pub open spec fn worker_run(p: WorkerPhase, events: Seq<WorkerEvent>) -> WorkerPhase
    decreases events.len(),
{
    if events.len() == 0 {
        p
    } else {
        worker_run(worker_next(p, events[0]).0, events.drop_first())
    }
}

/// One worker.
#[derive(Clone, Copy, Debug, PartialEq, Eq, Structural)]
pub struct Worker {
    pub phase: WorkerPhase,
}

impl Worker {
    /// A worker that has not opened its session yet.
    pub fn new() -> (r: Self)
        ensures
            r.phase == WorkerPhase::Starting,
    {
        Worker { phase: WorkerPhase::Starting }
    }

    /// The action that carries on from the current phase; the first is `CreateSession`.
    pub fn resume(&self) -> (r: WorkerAction)
        ensures
            r == resume_worker(self.phase),
    {
        match self.phase {
            WorkerPhase::Starting => WorkerAction::CreateSession,
            WorkerPhase::Ready => WorkerAction::Take,
            WorkerPhase::Busy => WorkerAction::Fetch,
            WorkerPhase::Requeuing => WorkerAction::Requeue,
            WorkerPhase::Closing => WorkerAction::DestroySession,
            WorkerPhase::Terminated => WorkerAction::Exit,
        }
    }

    /// Takes in what the caller observed and returns the next action.
    pub fn step(&mut self, ev: WorkerEvent) -> (r: WorkerAction)
        ensures
            (final(self).phase, r) == worker_next(old(self).phase, ev),
    {
        match (self.phase, ev) {
            (WorkerPhase::Starting, WorkerEvent::SessionCreated(ok)) => {
                if ok {
                    self.phase = WorkerPhase::Ready;
                    WorkerAction::Take
                } else {
                    self.phase = WorkerPhase::Closing;
                    WorkerAction::DestroySession
                }
            },
            (WorkerPhase::Ready, WorkerEvent::Taken(some)) => {
                if some {
                    self.phase = WorkerPhase::Busy;
                    WorkerAction::Fetch
                } else {
                    self.phase = WorkerPhase::Closing;
                    WorkerAction::DestroySession
                }
            },
            (WorkerPhase::Busy, WorkerEvent::Fetched(ok)) => {
                if ok {
                    self.phase = WorkerPhase::Ready;
                    WorkerAction::Take
                } else {
                    self.phase = WorkerPhase::Requeuing;
                    WorkerAction::Requeue
                }
            },
            (WorkerPhase::Requeuing, WorkerEvent::Requeued) => {
                self.phase = WorkerPhase::Closing;
                WorkerAction::DestroySession
            },
            (WorkerPhase::Closing, WorkerEvent::SessionDestroyed) => {
                self.phase = WorkerPhase::Terminated;
                WorkerAction::Exit
            },
            _ => self.resume(),
        }
    }
}

/// A worker ends only through destroying its session, and a worker that has failed takes
/// no more work.
pub proof fn lemma_worker_exit_path(p: WorkerPhase, ev: WorkerEvent)
    ensures
        worker_next(p, ev).0 == WorkerPhase::Terminated ==> p == WorkerPhase::Closing || p == WorkerPhase::Terminated,
        winding_down(p) ==> winding_down(worker_next(p, ev).0) && worker_next(p, ev).1 != WorkerAction::Take
            && worker_next(p, ev).1 != WorkerAction::Fetch,
        worker_next(p, ev).1 == WorkerAction::Requeue ==> winding_down(worker_next(p, ev).0),
{
}

/// Once a worker has failed, no later event makes it take work again.
pub proof fn lemma_failed_worker_stays_down(p: WorkerPhase, events: Seq<WorkerEvent>)
    requires
        winding_down(p),
    ensures
        winding_down(worker_run(p, events)),
    decreases events.len(),
{
    if events.len() > 0 {
        lemma_failed_worker_stays_down(worker_next(p, events[0]).0, events.drop_first());
    }
}

} // verus!
