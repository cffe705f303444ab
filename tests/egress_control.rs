use wnrake::api::Api;
use wnrake::auth::{BasicAuth, Credentials};
use wnrake::egress::{EgressAction, EgressEvent, Restart, RestartPhase, Wait, PHASE_PAUSE_MS, POLL_INTERVAL_MS};
use wnrake::error::ErrorType;
use wnrake::proxy::{Proxy, ProxyStatus};

#[test]
fn basic_auth_header_value() {
    let b = BasicAuth::new("user", "pass");
    assert_eq!(b.to_header_value(), "Basic dXNlcjpwYXNz");
    assert_eq!(b.username(), "user");
    assert_eq!(b.password(), "pass");
    let (name, value) = Credentials::basic("user", "pass").to_header();
    assert_eq!(name, "authorization");
    assert_eq!(value, "Basic dXNlcjpwYXNz");
    let (name, value) = Credentials::api_key("KEY").to_header();
    assert_eq!(name, "x-api-key");
    assert_eq!(value, "KEY");
}

#[test]
fn api_endpoints_and_answers() {
    let api = Api::with_api_key("http://vpn:8000", "K");
    assert_eq!(api.ip_url(), "http://vpn:8000/v1/publicip/ip");
    assert_eq!(api.status_url(), "http://vpn:8000/v1/openvpn/status");
    assert_eq!(Api::ip_from(Some("  10.0.0.1\n")).unwrap(), "10.0.0.1");
    assert_eq!(Api::ip_from(Some("   ")).unwrap_err().error_type, ErrorType::Json);
    assert_eq!(Api::ip_from(None).unwrap_err().error_type, ErrorType::Json);
    assert!(Api::new("u").credentials().is_none());
    assert!(matches!(Api::with_basic_auth("u", "a", "b").credentials(), Some(Credentials::BasicAuth(_))));
}

#[test]
fn status_text_mapping() {
    assert_eq!(ProxyStatus::from_text(Some("running")), ProxyStatus::Running);
    assert_eq!(ProxyStatus::from_text(Some("stopped")), ProxyStatus::Stopped);
    assert_eq!(ProxyStatus::from_text(Some("crashed")), ProxyStatus::Unknown);
    assert_eq!(ProxyStatus::from_text(None), ProxyStatus::Unknown);
    assert_eq!(ProxyStatus::Stopped.as_str(), "stopped");
}

#[test]
fn proxy_builder_and_getters() {
    let p = Proxy::builder("http://vpn:8888").username("u").password("p").api(Api::new("http://vpn:8000")).build();
    assert_eq!(p.url(), "http://vpn:8888");
    assert_eq!(p.username(), Some("u"));
    assert_eq!(p.password(), Some("p"));
    assert_eq!(p.api().unwrap().url(), "http://vpn:8000");
    assert_eq!(p.auth(), (Some("u"), Some("p")));
    let lone = Proxy::builder("http://vpn:8888").password("p").build();
    assert_eq!(lone.auth(), (None, None));
    let q = Proxy::new("http://x");
    assert!(q.username().is_none() && q.api().is_none());
    assert!(Proxy::with_api("http://x", Api::new("http://y")).api().is_some());
}

#[test]
fn restart_succeeds_through_all_phases() {
    let mut m = Restart::new(10);
    assert_eq!(m.first_action(), EgressAction::Request { state: ProxyStatus::Stopped, after_ms: 0 });
    assert_eq!(m.step(EgressEvent::Requested, 0), EgressAction::PollStatus { after_ms: PHASE_PAUSE_MS });
    assert_eq!(m.step(EgressEvent::Status(ProxyStatus::Running), 1000), EgressAction::PollStatus { after_ms: POLL_INTERVAL_MS });
    assert_eq!(m.step(EgressEvent::Status(ProxyStatus::Stopped), 2000), EgressAction::Request { state: ProxyStatus::Running, after_ms: PHASE_PAUSE_MS });
    assert_eq!(m.step(EgressEvent::Requested, 3000), EgressAction::PollStatus { after_ms: PHASE_PAUSE_MS });
    assert_eq!(m.step(EgressEvent::Status(ProxyStatus::Running), 4000), EgressAction::PollIp { after_ms: PHASE_PAUSE_MS });
    assert_eq!(m.step(EgressEvent::Ip(false), 5000), EgressAction::PollIp { after_ms: POLL_INTERVAL_MS });
    assert_eq!(m.step(EgressEvent::Ip(true), 6000), EgressAction::Finished);
    assert_eq!(m.phase, RestartPhase::Succeeded);
}

#[test]
fn restart_times_out_when_never_running() {
    let mut m = Restart::new(5);
    let mut polls_after_request = 0;
    let mut action = m.first_action();
    let mut now: u64 = 0;
    let mut last_was_request = false;
    loop {
        match action {
            EgressAction::Request { after_ms, .. } => {
                now += after_ms;
                last_was_request = true;
                action = m.step(EgressEvent::Requested, now);
            }
            EgressAction::PollStatus { after_ms } => {
                now += after_ms;
                if last_was_request {
                    polls_after_request += 1;
                }
                last_was_request = false;
                action = m.step(EgressEvent::Status(ProxyStatus::Stopped), now);
            }
            EgressAction::PollIp { .. } => panic!("the address is never polled before running"),
            EgressAction::Finished => panic!("a restart without running cannot finish"),
            EgressAction::Cancelled => panic!("nothing cancels this restart"),
            EgressAction::TimedOut(w) => {
                assert_eq!(w, Wait::Running);
                break;
            }
        }
    }
    assert_eq!(polls_after_request, 2);
    assert!(now >= 5000);
    let e = Restart::timeout_error(Wait::Running);
    assert_eq!(e.error_type, ErrorType::Timeout);
    assert_eq!(e.message, "waiting for the egress path to run timed out");
    assert_eq!(Restart::timeout_error(Wait::Ip).message, "waiting for a public address timed out");
    assert!(!e.fatal);
}

#[test]
fn unexpected_event_repeats_action() {
    let mut m = Restart::new(1);
    assert_eq!(m.step(EgressEvent::Ip(true), 0), EgressAction::Request { state: ProxyStatus::Stopped, after_ms: 0 });
    assert_eq!(m.phase, RestartPhase::RequestingStop);
}

#[test]
fn cancellation_ends_a_restart() {
    let mut m = Restart::new(10);
    assert_eq!(m.step(EgressEvent::Requested, 0), EgressAction::PollStatus { after_ms: PHASE_PAUSE_MS });
    assert_eq!(m.step(EgressEvent::Cancelled, 10), EgressAction::Cancelled);
    assert_eq!(m.phase, RestartPhase::Cancelled);
    assert_eq!(m.step(EgressEvent::Status(ProxyStatus::Stopped), 20), EgressAction::Cancelled);
}
