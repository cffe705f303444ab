use wnrake::error::{Error, ErrorType};

#[test]
fn tunnel_failure_is_fatal_egress_error() {
    let e = Error::parse_solution_error("net::ERR_TUNNEL_CONNECTION_FAILED at https://x");
    assert_eq!(e.error_type, ErrorType::Proxy);
    assert!(e.fatal);
    assert_eq!(e.message, "net::ERR_TUNNEL_CONNECTION_FAILED at https://x");
}

#[test]
fn failed_challenge_is_retryable() {
    let e = Error::parse_solution_error("Error: Error solving the challenge. Timeout after 60.0 seconds.");
    assert_eq!(e.error_type, ErrorType::Solution);
    assert!(!e.fatal);
}

#[test]
fn other_solver_message_is_fatal_transport_error() {
    let e = Error::parse_solution_error("Error: Session not found");
    assert_eq!(e.error_type, ErrorType::Solver);
    assert!(e.fatal);
}

#[test]
fn status_error_names_the_code() {
    let e = Error::status(404);
    assert_eq!(e.error_type, ErrorType::Status);
    assert!(e.fatal);
    assert_eq!(e.message, "returned status 404");
    assert_eq!(Error::status(0).message, "returned status 0");
    assert_eq!(Error::status(65535).message, "returned status 65535");
}

#[test]
fn describe_joins_kind_and_message() {
    assert_eq!(Error::io("disk full").describe(), "io: disk full");
    assert_eq!(Error::timeout("waited").describe(), "timeout: waited");
}

#[test]
fn constructors_set_kind_and_fatality() {
    assert!(Error::config("x").fatal && Error::config("x").error_type == ErrorType::Config);
    assert!(Error::epub("x").fatal && Error::epub("x").error_type == ErrorType::Epub);
    assert!(!Error::html("x", false).fatal && Error::html("x", true).fatal);
    assert!(Error::json("x").fatal && Error::json("x").error_type == ErrorType::Json);
    assert!(Error::parser("x").fatal && Error::parser("x").error_type == ErrorType::Parser);
    assert!(!Error::proxy("x").fatal && Error::proxy("x").error_type == ErrorType::Proxy);
    assert!(!Error::solution("x").fatal && Error::solution("x").error_type == ErrorType::Solution);
    assert!(Error::solver("x").fatal && Error::solver("x").error_type == ErrorType::Solver);
    assert!(!Error::timeout("x").fatal && Error::timeout("x").error_type == ErrorType::Timeout);
}

#[test]
fn exit_codes_are_distinct() {
    let kinds = [
        ErrorType::Config,
        ErrorType::Epub,
        ErrorType::Html,
        ErrorType::Io,
        ErrorType::Json,
        ErrorType::Parser,
        ErrorType::Proxy,
        ErrorType::Solution,
        ErrorType::Solver,
        ErrorType::Status,
        ErrorType::Timeout,
    ];
    for a in kinds.iter() {
        assert!(a.exit_code() >= 1);
        for b in kinds.iter() {
            if a != b {
                assert_ne!(a.exit_code(), b.exit_code());
            }
        }
    }
    assert_eq!(ErrorType::Solution.as_str(), "solution");
}
