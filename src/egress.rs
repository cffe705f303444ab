//! The restart protocol of an egress path, as a state machine.
//!
//! A restart asks the controller to stop, waits until it reports `stopped`, asks it to
//! start, waits until it reports `running`, then waits until a public address can be
//! read. Each of the three waits is bounded on its own. The caller performs each action
//! (after pausing for the given number of milliseconds) and reports the outcome as an
//! event, with the time in milliseconds since the restart began.
use vstd::prelude::*;
use crate::error::Error;
use crate::proxy::ProxyStatus;

verus! {

/// The pause between the phases of a restart, in milliseconds.
pub const PHASE_PAUSE_MS: u64 = 1000;

/// The pause between two polls of the controller, in milliseconds.
pub const POLL_INTERVAL_MS: u64 = 1000;

/// What a restart waits for.
#[derive(Clone, Copy, Debug, PartialEq, Eq, Structural)]
pub enum Wait {
    Stopped,
    Running,
    Ip,
}

/// Where a restart stands.
#[derive(Clone, Copy, Debug, PartialEq, Eq, Structural)]
pub enum RestartPhase {
    RequestingStop,
    AwaitStopped,
    RequestingStart,
    AwaitRunning,
    AwaitIp,
    Succeeded,
    TimedOut(Wait),
    Cancelled,
}

/// What the caller must do next.
#[derive(Clone, Copy, Debug, PartialEq, Eq, Structural)]
pub enum EgressAction {
    /// Pause, then ask the controller for this state.
    Request { state: ProxyStatus, after_ms: u64 },
    /// Pause, then read the controller's status.
    PollStatus { after_ms: u64 },
    /// Pause, then read the public address.
    PollIp { after_ms: u64 },
    /// The restart is complete.
    Finished,
    /// A wait did not converge in time.
    TimedOut(Wait),
    /// The restart was cancelled.
    Cancelled,
}

/// What the caller observed.
#[derive(Clone, Copy, Debug, PartialEq, Eq, Structural)]
pub enum EgressEvent {
    /// A state was asked for (whether or not the controller accepted the request).
    Requested,
    /// The controller reported this status; `Unknown` where it could not be read.
    Status(ProxyStatus),
    /// Whether a non-empty public address could be read.
    Ip(bool),
    /// The caller was asked to shut down.
    Cancelled,
}

/// The state of one restart.
#[derive(Clone, Copy, Debug, PartialEq, Eq, Structural)]
pub struct Restart {
    pub phase: RestartPhase,
    /// The time after which the current wait gives up.
    pub deadline: u64,
    /// The bound on each wait, in milliseconds.
    pub timeout_ms: u64,
}

/// Addition that stops at the largest `u64`.
pub open spec fn sat_add(a: u64, b: u64) -> u64 {
    if a + b > u64::MAX {
        u64::MAX
    } else {
        (a + b) as u64
    }
}

fn saturating_add(a: u64, b: u64) -> (r: u64)
    ensures
        r == sat_add(a, b),
{
    if a > u64::MAX - b {
        u64::MAX
    } else {
        a + b
    }
}

/// The message of the error that reports a wait that did not converge in time.
pub open spec fn timeout_message(w: Wait) -> Seq<char> {
    match w {
        Wait::Stopped => "waiting for the egress path to stop timed out"@,
        Wait::Running => "waiting for the egress path to run timed out"@,
        Wait::Ip => "waiting for a public address timed out"@,
    }
}

/// The action that carries on in a phase after an event that does not belong to it.
pub open spec fn resume_action(phase: RestartPhase) -> EgressAction {
    match phase {
        RestartPhase::RequestingStop => EgressAction::Request { state: ProxyStatus::Stopped, after_ms: 0 },
        RestartPhase::AwaitStopped => EgressAction::PollStatus { after_ms: POLL_INTERVAL_MS },
        RestartPhase::RequestingStart => EgressAction::Request { state: ProxyStatus::Running, after_ms: 0 },
        RestartPhase::AwaitRunning => EgressAction::PollStatus { after_ms: POLL_INTERVAL_MS },
        RestartPhase::AwaitIp => EgressAction::PollIp { after_ms: POLL_INTERVAL_MS },
        RestartPhase::Succeeded => EgressAction::Finished,
        RestartPhase::TimedOut(w) => EgressAction::TimedOut(w),
        RestartPhase::Cancelled => EgressAction::Cancelled,
    }
}

/// The phases in which a restart is over.
pub open spec fn restart_over(p: RestartPhase) -> bool {
    p == RestartPhase::Succeeded || p is TimedOut || p == RestartPhase::Cancelled
}

/// The deadline of a wait that begins at `now`, after the pause between phases.
pub open spec fn window_end(m: Restart, now: u64) -> u64 {
    sat_add(now, sat_add(PHASE_PAUSE_MS, m.timeout_ms))
}

/// One step of a wait: move on where `reached`, give up where the deadline has passed,
/// poll again otherwise.
pub open spec fn wait_step(
    m: Restart,
    now: u64,
    reached: bool,
    on_reached: (Restart, EgressAction),
    w: Wait,
    poll_again: EgressAction,
) -> (Restart, EgressAction) {
    if reached {
        on_reached
    } else if now >= m.deadline {
        (Restart { phase: RestartPhase::TimedOut(w), ..m }, EgressAction::TimedOut(w))
    } else {
        (m, poll_again)
    }
}

/// The next state of a restart, and the next action, after `ev` at time `now`.
pub open spec fn restart_next(m: Restart, ev: EgressEvent, now: u64) -> (Restart, EgressAction) {
    if !restart_over(m.phase) && ev == EgressEvent::Cancelled {
        (Restart { phase: RestartPhase::Cancelled, ..m }, EgressAction::Cancelled)
    } else {
        restart_next_event(m, ev, now)
    }
}

/// The next state and action after an event other than a cancellation of a running restart.
pub open spec fn restart_next_event(m: Restart, ev: EgressEvent, now: u64) -> (Restart, EgressAction) {
    match m.phase {
        RestartPhase::RequestingStop => match ev {
            EgressEvent::Requested => (
                Restart { phase: RestartPhase::AwaitStopped, deadline: window_end(m, now), ..m },
                EgressAction::PollStatus { after_ms: PHASE_PAUSE_MS },
            ),
            _ => (m, resume_action(m.phase)),
        },
        RestartPhase::AwaitStopped => match ev {
            EgressEvent::Status(s) => wait_step(
                m,
                now,
                s == ProxyStatus::Stopped,
                (
                    Restart { phase: RestartPhase::RequestingStart, ..m },
                    EgressAction::Request { state: ProxyStatus::Running, after_ms: PHASE_PAUSE_MS },
                ),
                Wait::Stopped,
                EgressAction::PollStatus { after_ms: POLL_INTERVAL_MS },
            ),
            _ => (m, resume_action(m.phase)),
        },
        RestartPhase::RequestingStart => match ev {
            EgressEvent::Requested => (
                Restart { phase: RestartPhase::AwaitRunning, deadline: window_end(m, now), ..m },
                EgressAction::PollStatus { after_ms: PHASE_PAUSE_MS },
            ),
            _ => (m, resume_action(m.phase)),
        },
        RestartPhase::AwaitRunning => match ev {
            EgressEvent::Status(s) => wait_step(
                m,
                now,
                s == ProxyStatus::Running,
                (
                    Restart { phase: RestartPhase::AwaitIp, deadline: window_end(m, now), ..m },
                    EgressAction::PollIp { after_ms: PHASE_PAUSE_MS },
                ),
                Wait::Running,
                EgressAction::PollStatus { after_ms: POLL_INTERVAL_MS },
            ),
            _ => (m, resume_action(m.phase)),
        },
        RestartPhase::AwaitIp => match ev {
            EgressEvent::Ip(seen) => wait_step(
                m,
                now,
                seen,
                (Restart { phase: RestartPhase::Succeeded, ..m }, EgressAction::Finished),
                Wait::Ip,
                EgressAction::PollIp { after_ms: POLL_INTERVAL_MS },
            ),
            _ => (m, resume_action(m.phase)),
        },
        _ => (m, resume_action(m.phase)),
    }
}

/// The state after a sequence of timed events.
pub open spec fn restart_run(m: Restart, events: Seq<(EgressEvent, u64)>) -> Restart
    decreases events.len(),
{
    if events.len() == 0 {
        m
    } else {
        restart_run(restart_next(m, events[0].0, events[0].1).0, events.drop_first())
    }
}

impl Restart {
    /// A restart whose waits are each bounded by `timeout_secs` seconds.
    pub fn new(timeout_secs: u64) -> (r: Self)
        ensures
            r.phase == RestartPhase::RequestingStop,
            r.timeout_ms == (if timeout_secs > u64::MAX / 1000 { u64::MAX } else { (timeout_secs * 1000) as u64 }),
    {
        let timeout_ms = if timeout_secs > u64::MAX / 1000 {
            u64::MAX
        } else {
            timeout_secs * 1000
        };
        Restart { phase: RestartPhase::RequestingStop, deadline: 0, timeout_ms }
    }

    /// The first action: ask the controller to stop.
    pub fn first_action(&self) -> (r: EgressAction)
        ensures
            r == resume_action(self.phase),
    {
        match self.phase {
            RestartPhase::RequestingStop => EgressAction::Request { state: ProxyStatus::Stopped, after_ms: 0 },
            RestartPhase::AwaitStopped => EgressAction::PollStatus { after_ms: POLL_INTERVAL_MS },
            RestartPhase::RequestingStart => EgressAction::Request { state: ProxyStatus::Running, after_ms: 0 },
            RestartPhase::AwaitRunning => EgressAction::PollStatus { after_ms: POLL_INTERVAL_MS },
            RestartPhase::AwaitIp => EgressAction::PollIp { after_ms: POLL_INTERVAL_MS },
            RestartPhase::Succeeded => EgressAction::Finished,
            RestartPhase::TimedOut(w) => EgressAction::TimedOut(w),
            RestartPhase::Cancelled => EgressAction::Cancelled,
        }
    }

    fn window_end(&self, now: u64) -> (r: u64)
        ensures
            r == window_end(*self, now),
    {
        saturating_add(now, saturating_add(PHASE_PAUSE_MS, self.timeout_ms))
    }

    fn wait_step(
        &mut self,
        now: u64,
        reached: bool,
        on_reached: (Restart, EgressAction),
        w: Wait,
        poll_again: EgressAction,
    ) -> (r: EgressAction)
        ensures
            (*final(self), r) == wait_step(*old(self), now, reached, on_reached, w, poll_again),
    {
        if reached {
            *self = on_reached.0;
            on_reached.1
        } else if now >= self.deadline {
            self.phase = RestartPhase::TimedOut(w);
            EgressAction::TimedOut(w)
        } else {
            poll_again
        }
    }

    /// Takes in what the caller observed at time `now` and returns the next action.
    pub fn step(&mut self, ev: EgressEvent, now: u64) -> (r: EgressAction)
        ensures
            (*final(self), r) == restart_next(*old(self), ev, now),
    {
        let over = match self.phase {
            RestartPhase::Succeeded | RestartPhase::TimedOut(_) | RestartPhase::Cancelled => true,
            _ => false,
        };
        if !over && ev == EgressEvent::Cancelled {
            self.phase = RestartPhase::Cancelled;
            return EgressAction::Cancelled;
        }
        let m = *self;
        match (self.phase, ev) {
            (RestartPhase::RequestingStop, EgressEvent::Requested) => {
                self.deadline = m.window_end(now);
                self.phase = RestartPhase::AwaitStopped;
                EgressAction::PollStatus { after_ms: PHASE_PAUSE_MS }
            },
            (RestartPhase::AwaitStopped, EgressEvent::Status(s)) => {
                let next = Restart { phase: RestartPhase::RequestingStart, ..m };
                self.wait_step(
                    now,
                    s == ProxyStatus::Stopped,
                    (next, EgressAction::Request { state: ProxyStatus::Running, after_ms: PHASE_PAUSE_MS }),
                    Wait::Stopped,
                    EgressAction::PollStatus { after_ms: POLL_INTERVAL_MS },
                )
            },
            (RestartPhase::RequestingStart, EgressEvent::Requested) => {
                self.deadline = m.window_end(now);
                self.phase = RestartPhase::AwaitRunning;
                EgressAction::PollStatus { after_ms: PHASE_PAUSE_MS }
            },
            (RestartPhase::AwaitRunning, EgressEvent::Status(s)) => {
                let next = Restart { phase: RestartPhase::AwaitIp, deadline: m.window_end(now), ..m };
                self.wait_step(
                    now,
                    s == ProxyStatus::Running,
                    (next, EgressAction::PollIp { after_ms: PHASE_PAUSE_MS }),
                    Wait::Running,
                    EgressAction::PollStatus { after_ms: POLL_INTERVAL_MS },
                )
            },
            (RestartPhase::AwaitIp, EgressEvent::Ip(seen)) => {
                let next = Restart { phase: RestartPhase::Succeeded, ..m };
                self.wait_step(
                    now,
                    seen,
                    (next, EgressAction::Finished),
                    Wait::Ip,
                    EgressAction::PollIp { after_ms: POLL_INTERVAL_MS },
                )
            },
            _ => self.first_action(),
        }
    }

    /// The error that reports a wait that did not converge in time.
    pub fn timeout_error(w: Wait) -> (r: Error)
        ensures
            r.error_type == crate::error::ErrorType::Timeout,
            !r.fatal,
            r.message@ == timeout_message(w),
    {
        match w {
            Wait::Stopped => Error::timeout("waiting for the egress path to stop timed out"),
            Wait::Running => Error::timeout("waiting for the egress path to run timed out"),
            Wait::Ip => Error::timeout("waiting for a public address timed out"),
        }
    }
}

/// After each request to stop or to start, the next action polls the controller's status,
/// and the wait that follows is bounded by the pause plus the configured window.
pub proof fn lemma_request_is_followed_by_poll(m: Restart, now: u64)
    requires
        m.phase == RestartPhase::RequestingStop || m.phase == RestartPhase::RequestingStart,
    ensures
        restart_next(m, EgressEvent::Requested, now).1 == (EgressAction::PollStatus { after_ms: PHASE_PAUSE_MS }),
        restart_next(m, EgressEvent::Requested, now).0.deadline == window_end(m, now),
        restart_next(m, EgressEvent::Requested, now).0.phase == (if m.phase == RestartPhase::RequestingStop {
            RestartPhase::AwaitStopped
        } else {
            RestartPhase::AwaitRunning
        }),
{
}

/// A restart that has timed out stays timed out.
pub proof fn lemma_timed_out_is_final(m: Restart, events: Seq<(EgressEvent, u64)>)
    requires
        m.phase is TimedOut,
    ensures
        restart_run(m, events) == m,
    decreases events.len(),
{
    if events.len() > 0 {
        lemma_timed_out_is_final(restart_next(m, events[0].0, events[0].1).0, events.drop_first());
    }
}

/// The phases a restart passes through before the controller has reported `running`.
pub open spec fn before_running(p: RestartPhase) -> bool {
    p == RestartPhase::RequestingStop || p == RestartPhase::AwaitStopped
        || p == RestartPhase::RequestingStart || p == RestartPhase::AwaitRunning || p is TimedOut
        || p == RestartPhase::Cancelled
}

/// A restart never succeeds unless the controller reports `running`.
pub proof fn lemma_no_success_without_running(m: Restart, events: Seq<(EgressEvent, u64)>)
    requires
        before_running(m.phase),
        forall|i: int| 0 <= i < events.len() ==> events[i].0 != EgressEvent::Status(ProxyStatus::Running),
    ensures
        before_running(restart_run(m, events).phase),
    decreases events.len(),
{
    if events.len() > 0 {
        let rest = events.drop_first();
        assert forall|i: int| 0 <= i < rest.len() implies rest[i].0 != EgressEvent::Status(ProxyStatus::Running) by {
            assert(rest[i] == events[i + 1]);
        }
        lemma_no_success_without_running(restart_next(m, events[0].0, events[0].1).0, rest);
    }
}

/// While the controller is awaited to report `running` and keeps reporting anything else,
/// a status read at or after the deadline ends the restart with a timeout.
pub proof fn lemma_running_wait_times_out(m: Restart, events: Seq<(EgressEvent, u64)>)
    requires
        m.phase == RestartPhase::AwaitRunning,
        events.len() > 0,
        forall|i: int| 0 <= i < events.len() ==> (events[i].0 is Status && events[i].0 != EgressEvent::Status(ProxyStatus::Running)),
        events[events.len() - 1].1 >= m.deadline,
    ensures
        restart_run(m, events).phase == RestartPhase::TimedOut(Wait::Running),
    decreases events.len(),
{
    let next = restart_next(m, events[0].0, events[0].1).0;
    let rest = events.drop_first();
    if events.len() == 1 {
        assert(rest.len() == 0);
    } else if next.phase is TimedOut {
        lemma_timed_out_is_final(next, rest);
    } else {
        assert(next == m);
        assert forall|i: int| 0 <= i < rest.len() implies (rest[i].0 is Status && rest[i].0 != EgressEvent::Status(ProxyStatus::Running)) by {
            assert(rest[i] == events[i + 1]);
        }
        assert(rest[rest.len() - 1] == events[events.len() - 1]);
        lemma_running_wait_times_out(m, rest);
    }
}

/// A cancellation ends a running restart at once, whatever it was waiting for, and a
/// cancelled restart stays cancelled.
pub proof fn lemma_cancel_stops_restart(m: Restart, events: Seq<(EgressEvent, u64)>, now: u64)
    ensures
        !restart_over(m.phase) ==> restart_next(m, EgressEvent::Cancelled, now) == (Restart { phase: RestartPhase::Cancelled, ..m }, EgressAction::Cancelled),
        m.phase == RestartPhase::Cancelled ==> restart_run(m, events) == m,
    decreases events.len(),
{
    if m.phase == RestartPhase::Cancelled && events.len() > 0 {
        lemma_cancel_stops_restart(restart_next(m, events[0].0, events[0].1).0, events.drop_first(), now);
    }
}

} // verus!
