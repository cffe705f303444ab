use wnrake::error::ErrorType;
use wnrake::solution::{Response, Solution};

fn response(status: &str, message: &str, session: Option<&str>, solution: Option<(u16, &str)>) -> Response {
    Response {
        status: status.to_string(),
        message: message.to_string(),
        session: session.map(|s| s.to_string()),
        solution: solution.map(|(code, body)| Solution {
            url: "https://site/1".to_string(),
            status: code,
            response: body.to_string(),
            user_agent: "agent".to_string(),
        }),
    }
}

#[test]
fn ok_with_page_200_gives_body() {
    assert_eq!(response("ok", "", None, Some((200, "<html>1</html>"))).into_page().unwrap(), "<html>1</html>");
}

#[test]
fn ok_with_other_status_is_fatal_status_error() {
    let e = response("ok", "", None, Some((503, "x"))).into_page().unwrap_err();
    assert_eq!(e.error_type, ErrorType::Status);
    assert!(e.fatal);
    assert_eq!(e.message, "returned status 503");
}

#[test]
fn ok_without_solution_is_retryable() {
    let e = response("ok", "", None, None).into_page().unwrap_err();
    assert_eq!(e.error_type, ErrorType::Solution);
    assert!(!e.fatal);
    assert_eq!(e.message, "no solution in response");
}

#[test]
fn error_status_is_classified_by_message() {
    let e = response("error", "ERR_TUNNEL_CONNECTION_FAILED", None, None).into_page().unwrap_err();
    assert_eq!((e.error_type, e.fatal), (ErrorType::Proxy, true));
    let e = response("error", "Error solving the challenge.", None, None).into_page().unwrap_err();
    assert_eq!((e.error_type, e.fatal), (ErrorType::Solution, false));
    let e = response("error", "boom", None, Some((200, "x"))).into_page().unwrap_err();
    assert_eq!((e.error_type, e.fatal), (ErrorType::Solver, true));
    assert_eq!(e.message, "boom");
}

#[test]
fn session_answers() {
    assert_eq!(response("ok", "", Some("s1"), None).into_session().unwrap(), "s1");
    let e = response("ok", "", None, None).into_session().unwrap_err();
    assert!(e.fatal);
    assert_eq!(e.message, "no session in response");
    let e = response("error", "Error solving the challenge", None, None).into_session().unwrap_err();
    assert_eq!(e.error_type, ErrorType::Solution);
    assert_eq!(e.message, "Error solving the challenge");
    assert!(e.fatal);
}
