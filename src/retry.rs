//! Bounded retry with recovery, as a state machine.
//!
//! A page request is attempted; a non-fatal failure leads to a recovery (destroy the
//! session, restart the egress path if one is controllable, create a new session) and
//! another attempt. One counter takes both failed attempts and failed recoveries; when it
//! reaches the budget, or on any fatal error, the last error is returned. The caller
//! performs each action and reports its outcome as an event.
use vstd::prelude::*;
use crate::error::Error;

verus! {

/// The bound, in seconds, on each wait of an egress restart during recovery.
pub const RECOVER_TIMEOUT_SECS: u64 = 60;

/// Where a request stands.
#[derive(Clone, Copy, Debug, PartialEq, Eq, Structural)]
pub enum RetryPhase {
    Fetching,
    Destroying,
    Restarting,
    Creating,
    Done,
}

/// What the caller must do next.
#[derive(Debug)]
pub enum RetryAction {
    /// Send the page request once.
    Fetch,
    /// Destroy the session, ignoring any failure.
    DestroySession,
    /// Restart the egress path, each wait bounded by `timeout_secs`.
    RestartEgress { timeout_secs: u64 },
    /// Create a new session.
    CreateSession,
    /// The request succeeded with this body.
    Deliver(String),
    /// The request failed with this error.
    Fail(Error),
    /// The request was cancelled; nothing more is sent.
    Cancelled,
    /// The request is over; nothing is left to do.
    Idle,
}

/// What the caller observed.
#[derive(Debug)]
pub enum RetryEvent {
    Fetched(Result<String, Error>),
    SessionDestroyed,
    EgressRestarted(Result<(), Error>),
    SessionCreated(Result<(), Error>),
    /// The caller was asked to shut down.
    Cancelled,
}

/// The state of one request.
#[derive(Clone, Copy, Debug, PartialEq, Eq, Structural)]
pub struct Retry {
    pub phase: RetryPhase,
    /// Failed attempts and failed recoveries so far.
    pub attempts: usize,
    /// The number of failures after which the request gives up.
    pub max_attempts: usize,
    /// Whether recovery restarts the egress path.
    pub has_egress: bool,
    /// The bound on each wait of an egress restart.
    pub recover_secs: u64,
}

/// The action that carries on in a state after an event that does not belong to it.
pub open spec fn resume_retry(m: Retry) -> RetryAction {
    match m.phase {
        RetryPhase::Fetching => RetryAction::Fetch,
        RetryPhase::Destroying => RetryAction::DestroySession,
        RetryPhase::Restarting => RetryAction::RestartEgress { timeout_secs: m.recover_secs },
        RetryPhase::Creating => RetryAction::CreateSession,
        RetryPhase::Done => RetryAction::Idle,
    }
}

/// A failure, of an attempt or of a recovery: a fatal one or one that exhausts the budget
/// ends the request with it; another one starts a recovery.
pub open spec fn after_failure(m: Retry, e: Error) -> (Retry, RetryAction) {
    if e.fatal {
        (Retry { phase: RetryPhase::Done, ..m }, RetryAction::Fail(e))
    } else if m.attempts + 1 >= m.max_attempts {
        (Retry { phase: RetryPhase::Done, attempts: (m.attempts + 1) as usize, ..m }, RetryAction::Fail(e))
    } else {
        (Retry { phase: RetryPhase::Destroying, attempts: (m.attempts + 1) as usize, ..m }, RetryAction::DestroySession)
    }
}

/// The next state and action after `ev`.
pub open spec fn retry_next(m: Retry, ev: RetryEvent) -> (Retry, RetryAction) {
    if m.phase != RetryPhase::Done && ev is Cancelled {
        (Retry { phase: RetryPhase::Done, ..m }, RetryAction::Cancelled)
    } else {
        retry_next_event(m, ev)
    }
}

/// The next state and action after an event other than a cancellation of an open request.
pub open spec fn retry_next_event(m: Retry, ev: RetryEvent) -> (Retry, RetryAction) {
    match m.phase {
        RetryPhase::Fetching => match ev {
            RetryEvent::Fetched(Ok(body)) => (Retry { phase: RetryPhase::Done, ..m }, RetryAction::Deliver(body)),
            RetryEvent::Fetched(Err(e)) => after_failure(m, e),
            _ => (m, resume_retry(m)),
        },
        RetryPhase::Destroying => match ev {
            RetryEvent::SessionDestroyed => if m.has_egress {
                (Retry { phase: RetryPhase::Restarting, ..m }, RetryAction::RestartEgress { timeout_secs: m.recover_secs })
            } else {
                (Retry { phase: RetryPhase::Creating, ..m }, RetryAction::CreateSession)
            },
            _ => (m, resume_retry(m)),
        },
        RetryPhase::Restarting => match ev {
            RetryEvent::EgressRestarted(Ok(())) => (Retry { phase: RetryPhase::Creating, ..m }, RetryAction::CreateSession),
            RetryEvent::EgressRestarted(Err(e)) => after_failure(m, e),
            _ => (m, resume_retry(m)),
        },
        RetryPhase::Creating => match ev {
            RetryEvent::SessionCreated(Ok(())) => (Retry { phase: RetryPhase::Fetching, ..m }, RetryAction::Fetch),
            RetryEvent::SessionCreated(Err(e)) => after_failure(m, e),
            _ => (m, resume_retry(m)),
        },
        RetryPhase::Done => (m, RetryAction::Idle),
    }
}

impl Retry {
    /// The counter stays below the budget while the request is open.
    pub open spec fn wf(self) -> bool {
        self.phase != RetryPhase::Done ==> (self.attempts < self.max_attempts || self.attempts == 0)
    }

    /// A request that gives up after `max_attempts` failures.
    pub fn new(max_attempts: usize, has_egress: bool, recover_secs: u64) -> (r: Self)
        ensures
            r == (Retry { phase: RetryPhase::Fetching, attempts: 0, max_attempts, has_egress, recover_secs }),
            r.wf(),
    {
        Retry { phase: RetryPhase::Fetching, attempts: 0, max_attempts, has_egress, recover_secs }
    }

    /// The action that carries on from the current state; the first action is `Fetch`.
    pub fn resume(&self) -> (r: RetryAction)
        ensures
            r == resume_retry(*self),
    {
        match self.phase {
            RetryPhase::Fetching => RetryAction::Fetch,
            RetryPhase::Destroying => RetryAction::DestroySession,
            RetryPhase::Restarting => RetryAction::RestartEgress { timeout_secs: self.recover_secs },
            RetryPhase::Creating => RetryAction::CreateSession,
            RetryPhase::Done => RetryAction::Idle,
        }
    }

    /// Whether the request is over.
    pub fn is_done(&self) -> (r: bool)
        ensures
            r == (self.phase == RetryPhase::Done),
    {
        self.phase == RetryPhase::Done
    }

    fn after_failure(&mut self, e: Error) -> (r: RetryAction)
        requires
            old(self).wf(),
            old(self).phase != RetryPhase::Done,
        ensures
            (*final(self), r) == after_failure(*old(self), e),
            final(self).wf(),
    {
        if e.fatal {
            self.phase = RetryPhase::Done;
            RetryAction::Fail(e)
        } else if self.attempts + 1 >= self.max_attempts {
            self.phase = RetryPhase::Done;
            self.attempts = self.attempts + 1;
            RetryAction::Fail(e)
        } else {
            self.phase = RetryPhase::Destroying;
            self.attempts = self.attempts + 1;
            RetryAction::DestroySession
        }
    }

    /// Takes in what the caller observed and returns the next action.
    pub fn step(&mut self, ev: RetryEvent) -> (r: RetryAction)
        requires
            old(self).wf(),
        ensures
            (*final(self), r) == retry_next(*old(self), ev),
            final(self).wf(),
    {
        if self.phase != RetryPhase::Done && matches!(ev, RetryEvent::Cancelled) {
            self.phase = RetryPhase::Done;
            return RetryAction::Cancelled;
        }
        match self.phase {
            RetryPhase::Fetching => match ev {
                RetryEvent::Fetched(Ok(body)) => {
                    self.phase = RetryPhase::Done;
                    RetryAction::Deliver(body)
                },
                RetryEvent::Fetched(Err(e)) => self.after_failure(e),
                _ => RetryAction::Fetch,
            },
            RetryPhase::Destroying => match ev {
                RetryEvent::SessionDestroyed => {
                    if self.has_egress {
                        self.phase = RetryPhase::Restarting;
                        RetryAction::RestartEgress { timeout_secs: self.recover_secs }
                    } else {
                        self.phase = RetryPhase::Creating;
                        RetryAction::CreateSession
                    }
                },
                _ => RetryAction::DestroySession,
            },
            RetryPhase::Restarting => match ev {
                RetryEvent::EgressRestarted(Ok(())) => {
                    self.phase = RetryPhase::Creating;
                    RetryAction::CreateSession
                },
                RetryEvent::EgressRestarted(Err(e)) => self.after_failure(e),
                _ => RetryAction::RestartEgress { timeout_secs: self.recover_secs },
            },
            RetryPhase::Creating => match ev {
                RetryEvent::SessionCreated(Ok(())) => {
                    self.phase = RetryPhase::Fetching;
                    RetryAction::Fetch
                },
                RetryEvent::SessionCreated(Err(e)) => self.after_failure(e),
                _ => RetryAction::CreateSession,
            },
            RetryPhase::Done => RetryAction::Idle,
        }
    }
}

/// The outcome the caller reports in each state when every attempt fails with `e` and every
/// recovery step succeeds.
pub open spec fn failing_fetch_event(m: Retry, e: Error) -> RetryEvent {
    match m.phase {
        RetryPhase::Fetching => RetryEvent::Fetched(Err(e)),
        RetryPhase::Restarting => RetryEvent::EgressRestarted(Ok(())),
        RetryPhase::Creating => RetryEvent::SessionCreated(Ok(())),
        _ => RetryEvent::SessionDestroyed,
    }
}

/// The state, the number of attempts sent, and the last action, after `n` steps against a
/// solver whose every attempt fails with `e`.
pub open spec fn drive_failing(m: Retry, e: Error, n: nat) -> (Retry, nat, RetryAction)
    decreases n,
{
    if n == 0 {
        (m, 0, resume_retry(m))
    } else {
        let prev = drive_failing(m, e, (n - 1) as nat);
        let next = retry_next(prev.0, failing_fetch_event(prev.0, e));
        (next.0, prev.1 + (if prev.0.phase == RetryPhase::Fetching { 1nat } else { 0nat }), next.1)
    }
}

/// The number of steps from one attempt to the next: the attempt, the destroy, the egress
/// restart if there is one, and the new session.
pub open spec fn cycle_len(m: Retry) -> nat {
    if m.has_egress { 4 } else { 3 }
}

proof fn lemma_failing_cycles(m: Retry, e: Error, k: nat)
    requires
        m.phase == RetryPhase::Fetching,
        m.attempts == 0,
        k < m.max_attempts,
        !e.fatal,
    ensures
        drive_failing(m, e, k * cycle_len(m)).0 == (Retry { attempts: k as usize, ..m }),
        drive_failing(m, e, k * cycle_len(m)).1 == k,
    decreases k,
{
    let c = cycle_len(m);
    if k == 0 {
        assert(k * c == 0);
    } else {
        let j = (k - 1) as nat;
        lemma_failing_cycles(m, e, j);
        let base = j * c;
        assert(k * c == base + c) by (nonlinear_arith)
            requires
                k == j + 1,
                base == j * c,
        ;
        let s1 = drive_failing(m, e, base + 1);
        assert(s1.0 == Retry { phase: RetryPhase::Destroying, attempts: k as usize, ..m });
        let s2 = drive_failing(m, e, base + 2);
        if m.has_egress {
            assert(s2.0 == Retry { phase: RetryPhase::Restarting, attempts: k as usize, ..m });
            let s3 = drive_failing(m, e, base + 3);
            assert(s3.0 == Retry { phase: RetryPhase::Creating, attempts: k as usize, ..m });
            let s4 = drive_failing(m, e, base + 4);
            assert(s4.0 == Retry { phase: RetryPhase::Fetching, attempts: k as usize, ..m });
            assert(s4.1 == k);
        } else {
            assert(s2.0 == Retry { phase: RetryPhase::Creating, attempts: k as usize, ..m });
            let s3 = drive_failing(m, e, base + 3);
            assert(s3.0 == Retry { phase: RetryPhase::Fetching, attempts: k as usize, ..m });
            assert(s3.1 == k);
        }
    }
}

/// Against a solver whose every attempt fails with the same non-fatal error, a request
/// with a budget of `N` is still attempting at the start of each of its first `N` attempts,
/// and ends right after the `N`-th attempt, having sent exactly `N` attempts, with that error.
pub proof fn lemma_retry_budget_exhaustion(m: Retry, e: Error)
    requires
        m.phase == RetryPhase::Fetching,
        m.attempts == 0,
        m.max_attempts >= 1,
        !e.fatal,
    ensures
        forall|k: nat| k < m.max_attempts ==> #[trigger] drive_failing(m, e, k * cycle_len(m)).0.phase == RetryPhase::Fetching,
        ({
            let end = drive_failing(m, e, ((m.max_attempts - 1) as nat) * cycle_len(m) + 1);
            end.0.phase == RetryPhase::Done && end.1 == m.max_attempts && end.2 == RetryAction::Fail(e)
        }),
{
    assert forall|k: nat| k < m.max_attempts implies #[trigger] drive_failing(m, e, k * cycle_len(m)).0.phase == RetryPhase::Fetching by {
        lemma_failing_cycles(m, e, k);
    }
    let last = (m.max_attempts - 1) as nat;
    lemma_failing_cycles(m, e, last);
}

/// A fatal error on an attempt ends the request at once with that error: no recovery starts.
pub proof fn lemma_fatal_short_circuit(m: Retry, e: Error)
    requires
        m.phase == RetryPhase::Fetching,
        e.fatal,
    ensures
        retry_next(m, RetryEvent::Fetched(Err(e))) == (Retry { phase: RetryPhase::Done, ..m }, RetryAction::Fail(e)),
{
}

/// Failed attempts and failed recoveries count alike: each non-fatal failure adds one to
/// the shared counter, and ends the request, with that error, exactly when the counter
/// reaches the budget.
pub proof fn lemma_failures_share_one_budget(m: Retry, e: Error)
    requires
        m.wf(),
        m.phase != RetryPhase::Done,
        !e.fatal,
    ensures
        after_failure(m, e).0.attempts == m.attempts + 1,
        (after_failure(m, e).0.phase == RetryPhase::Done) == (m.attempts + 1 >= m.max_attempts),
        after_failure(m, e).0.phase == RetryPhase::Done ==> after_failure(m, e).1 == RetryAction::Fail(e),
        after_failure(m, e).0.phase != RetryPhase::Done ==> after_failure(m, e).1 == RetryAction::DestroySession,
        m.phase == RetryPhase::Fetching ==> retry_next(m, RetryEvent::Fetched(Err(e))) == after_failure(m, e),
        m.phase == RetryPhase::Restarting ==> retry_next(m, RetryEvent::EgressRestarted(Err(e))) == after_failure(m, e),
        m.phase == RetryPhase::Creating ==> retry_next(m, RetryEvent::SessionCreated(Err(e))) == after_failure(m, e),
{
}

/// Without a controllable egress path a request never asks for an egress restart.
pub proof fn lemma_no_restart_without_egress(m: Retry, ev: RetryEvent)
    requires
        !m.has_egress,
        m.phase != RetryPhase::Restarting,
    ensures
        !(retry_next(m, ev).1 is RestartEgress),
        retry_next(m, ev).0.phase != RetryPhase::Restarting,
        retry_next(m, ev).0.has_egress == m.has_egress,
{
}

/// A cancellation ends an open request at once, with nothing more sent, and an ended
/// request stays ended.
pub proof fn lemma_cancel_stops_request(m: Retry, ev: RetryEvent)
    ensures
        m.phase != RetryPhase::Done ==> retry_next(m, RetryEvent::Cancelled) == (Retry { phase: RetryPhase::Done, ..m }, RetryAction::Cancelled),
        m.phase == RetryPhase::Done ==> retry_next(m, ev) == (m, RetryAction::Idle),
{
}

} // verus!
