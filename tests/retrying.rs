use wnrake::error::{Error, ErrorType};
use wnrake::retry::{Retry, RetryAction, RetryEvent, RetryPhase};

/// Drives a request against a solver whose attempts all fail with `make_error`, whose
/// egress restarts and session creations succeed; returns the number of attempts sent,
/// the number of egress restarts, and the final action.
fn drive(mut m: Retry, make_error: &dyn Fn() -> Error) -> (usize, usize, RetryAction) {
    let mut fetches = 0;
    let mut restarts = 0;
    let mut action = m.resume();
    loop {
        action = match action {
            RetryAction::Fetch => {
                fetches += 1;
                m.step(RetryEvent::Fetched(Err(make_error())))
            }
            RetryAction::DestroySession => m.step(RetryEvent::SessionDestroyed),
            RetryAction::RestartEgress { .. } => {
                restarts += 1;
                m.step(RetryEvent::EgressRestarted(Ok(())))
            }
            RetryAction::CreateSession => m.step(RetryEvent::SessionCreated(Ok(()))),
            done => return (fetches, restarts, done),
        };
    }
}

#[test]
fn budget_is_exhausted_after_exactly_n_attempts() {
    for n in 1..6usize {
        let (fetches, restarts, last) = drive(Retry::new(n, false, 60), &|| Error::solution("Error solving the challenge"));
        assert_eq!(fetches, n);
        assert_eq!(restarts, 0);
        match last {
            RetryAction::Fail(e) => assert_eq!(e.error_type, ErrorType::Solution),
            other => panic!("unexpected {:?}", other),
        }
    }
}

#[test]
fn recovery_restarts_egress_when_controllable() {
    let (fetches, restarts, _) = drive(Retry::new(3, true, 60), &|| Error::solution("x"));
    assert_eq!(fetches, 3);
    assert_eq!(restarts, 2);
}

#[test]
fn fatal_error_returns_without_recovery() {
    let mut m = Retry::new(5, true, 60);
    match m.step(RetryEvent::Fetched(Err(Error::parse_solution_error("ERR_TUNNEL_CONNECTION_FAILED")))) {
        RetryAction::Fail(e) => assert_eq!(e.error_type, ErrorType::Proxy),
        other => panic!("unexpected {:?}", other),
    }
    assert_eq!(m.phase, RetryPhase::Done);
    assert_eq!(m.attempts, 0);
    assert!(matches!(m.step(RetryEvent::SessionDestroyed), RetryAction::Idle));
}

#[test]
fn failed_recoveries_share_the_budget() {
    let mut m = Retry::new(2, true, 30);
    assert!(matches!(m.step(RetryEvent::Fetched(Err(Error::solution("x")))), RetryAction::DestroySession));
    assert!(matches!(m.step(RetryEvent::SessionDestroyed), RetryAction::RestartEgress { timeout_secs: 30 }));
    match m.step(RetryEvent::EgressRestarted(Err(Error::timeout("waiting")))) {
        RetryAction::Fail(e) => assert_eq!(e.error_type, ErrorType::Timeout),
        other => panic!("unexpected {:?}", other),
    }
    assert_eq!(m.attempts, 2);
}

#[test]
fn success_delivers_body() {
    let mut m = Retry::new(3, false, 60);
    assert!(matches!(m.step(RetryEvent::Fetched(Err(Error::solution("x")))), RetryAction::DestroySession));
    assert!(matches!(m.step(RetryEvent::SessionDestroyed), RetryAction::CreateSession));
    assert!(matches!(m.step(RetryEvent::SessionCreated(Ok(()))), RetryAction::Fetch));
    match m.step(RetryEvent::Fetched(Ok("page".to_string()))) {
        RetryAction::Deliver(b) => assert_eq!(b, "page"),
        other => panic!("unexpected {:?}", other),
    }
    assert!(m.is_done());
}

#[test]
fn cancellation_ends_a_request() {
    let mut m = Retry::new(3, true, 60);
    assert!(matches!(m.step(RetryEvent::Fetched(Err(Error::solution("x")))), RetryAction::DestroySession));
    assert!(matches!(m.step(RetryEvent::Cancelled), RetryAction::Cancelled));
    assert!(m.is_done());
    assert!(matches!(m.step(RetryEvent::SessionDestroyed), RetryAction::Idle));
}
