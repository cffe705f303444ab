//! Failures, each tagged with a kind and with whether it is fatal.
use vstd::prelude::*;
use crate::text::{contains, decimal, occurs_in, push_decimal};

verus! {

/// The kind of a failure.
#[derive(Clone, Copy, Debug, PartialEq, Eq, Structural)]
pub enum ErrorType {
    /// Configuration errors
    Config,
    /// EPUB building errors
    Epub,
    /// HTML parsing errors
    Html,
    /// Local input and output errors
    Io,
    /// JSON encoding and decoding errors
    Json,
    /// Site parser errors
    Parser,
    /// The egress path is broken
    Proxy,
    /// The solver failed to pass the challenge
    Solution,
    /// Transport errors between the client and the solver or the egress controller
    Solver,
    /// The solver succeeded but the page answered with a status other than 200
    Status,
    /// A bounded wait did not converge in time
    Timeout,
}

impl ErrorType {
    /// The stable lower-case name of the kind.
    pub open spec fn name_spec(self) -> Seq<char> {
        match self {
            ErrorType::Config => "config"@,
            ErrorType::Epub => "epub"@,
            ErrorType::Html => "html"@,
            ErrorType::Io => "io"@,
            ErrorType::Json => "json"@,
            ErrorType::Parser => "parser"@,
            ErrorType::Proxy => "proxy"@,
            ErrorType::Solution => "solution"@,
            ErrorType::Solver => "solver"@,
            ErrorType::Status => "status"@,
            ErrorType::Timeout => "timeout"@,
        }
    }

    /// The stable lower-case name of the kind.
    pub fn as_str(&self) -> (r: &'static str)
        ensures
            r@ == self.name_spec(),
    {
        match self {
            ErrorType::Config => "config",
            ErrorType::Epub => "epub",
            ErrorType::Html => "html",
            ErrorType::Io => "io",
            ErrorType::Json => "json",
            ErrorType::Parser => "parser",
            ErrorType::Proxy => "proxy",
            ErrorType::Solution => "solution",
            ErrorType::Solver => "solver",
            ErrorType::Status => "status",
            ErrorType::Timeout => "timeout",
        }
    }

    /// The process exit code that reports this kind.
    pub open spec fn exit_code_spec(self) -> u8 {
        match self {
            ErrorType::Config => 1,
            ErrorType::Epub => 2,
            ErrorType::Html => 3,
            ErrorType::Io => 4,
            ErrorType::Json => 5,
            ErrorType::Parser => 6,
            ErrorType::Proxy => 7,
            ErrorType::Solution => 8,
            ErrorType::Solver => 9,
            ErrorType::Status => 10,
            ErrorType::Timeout => 11,
        }
    }

    /// The process exit code that reports this kind: distinct for each kind, never 0.
    pub fn exit_code(&self) -> (r: u8)
        ensures
            r == self.exit_code_spec(),
            r >= 1,
    {
        match self {
            ErrorType::Config => 1,
            ErrorType::Epub => 2,
            ErrorType::Html => 3,
            ErrorType::Io => 4,
            ErrorType::Json => 5,
            ErrorType::Parser => 6,
            ErrorType::Proxy => 7,
            ErrorType::Solution => 8,
            ErrorType::Solver => 9,
            ErrorType::Status => 10,
            ErrorType::Timeout => 11,
        }
    }
}

/// Two kinds share an exit code only if they are the same kind.
pub proof fn lemma_exit_codes_distinct(a: ErrorType, b: ErrorType)
    ensures
        a.exit_code_spec() == b.exit_code_spec() ==> a == b,
{
}

/// A failure: its kind, whether it must end the operation at once, and a description.
#[derive(Debug)]
pub struct Error {
    pub error_type: ErrorType,
    pub fatal: bool,
    pub message: String,
}

/// The marker of a failed tunnel connection in a solver message.
pub open spec fn tunnel_marker() -> Seq<char> {
    "ERR_TUNNEL_CONNECTION_FAILED"@
}

/// The marker of a failed challenge in a solver message.
pub open spec fn challenge_marker() -> Seq<char> {
    "Error solving the challenge"@
}

/// The kind that a solver's failure message is classified as.
pub open spec fn solution_error_type(message: Seq<char>) -> ErrorType {
    if occurs_in(message, tunnel_marker()) {
        ErrorType::Proxy
    } else if occurs_in(message, challenge_marker()) {
        ErrorType::Solution
    } else {
        ErrorType::Solver
    }
}

/// Only a failed challenge may be retried.
pub open spec fn solution_error_fatal(message: Seq<char>) -> bool {
    solution_error_type(message) != ErrorType::Solution
}

impl Error {
    /// Builds an error of the given kind.
    pub fn new(error_type: ErrorType, fatal: bool, msg: &str) -> (r: Error)
        ensures
            r.error_type == error_type,
            r.fatal == fatal,
            r.message@ == msg@,
    {
        Error { error_type, fatal, message: msg.to_owned() }
    }

    /// Classifies the free-text failure message of the solver.
    pub fn parse_solution_error(msg: &str) -> (r: Error)
        ensures
            r.error_type == solution_error_type(msg@),
            r.fatal == solution_error_fatal(msg@),
            r.message@ == msg@,
    {
        if contains(msg, "ERR_TUNNEL_CONNECTION_FAILED") {
            Error::new(ErrorType::Proxy, true, msg)
        } else if contains(msg, "Error solving the challenge") {
            Error::new(ErrorType::Solution, false, msg)
        } else {
            Error::new(ErrorType::Solver, true, msg)
        }
    }

    /// A fatal configuration error.
    pub fn config(msg: &str) -> (r: Error)
        ensures
            r.error_type == ErrorType::Config,
            r.fatal,
            r.message@ == msg@,
    {
        Error::new(ErrorType::Config, true, msg)
    }

    /// A fatal EPUB building error.
    pub fn epub(msg: &str) -> (r: Error)
        ensures
            r.error_type == ErrorType::Epub,
            r.fatal,
            r.message@ == msg@,
    {
        Error::new(ErrorType::Epub, true, msg)
    }

    /// An HTML error, fatal or not.
    pub fn html(msg: &str, fatal: bool) -> (r: Error)
        ensures
            r.error_type == ErrorType::Html,
            r.fatal == fatal,
            r.message@ == msg@,
    {
        Error::new(ErrorType::Html, fatal, msg)
    }

    /// A fatal local input or output error.
    pub fn io(msg: &str) -> (r: Error)
        ensures
            r.error_type == ErrorType::Io,
            r.fatal,
            r.message@ == msg@,
    {
        Error::new(ErrorType::Io, true, msg)
    }

    /// A fatal JSON error.
    pub fn json(msg: &str) -> (r: Error)
        ensures
            r.error_type == ErrorType::Json,
            r.fatal,
            r.message@ == msg@,
    {
        Error::new(ErrorType::Json, true, msg)
    }

    /// A fatal site parser error.
    pub fn parser(msg: &str) -> (r: Error)
        ensures
            r.error_type == ErrorType::Parser,
            r.fatal,
            r.message@ == msg@,
    {
        Error::new(ErrorType::Parser, true, msg)
    }

    /// A retryable egress error.
    pub fn proxy(msg: &str) -> (r: Error)
        ensures
            r.error_type == ErrorType::Proxy,
            !r.fatal,
            r.message@ == msg@,
    {
        Error::new(ErrorType::Proxy, false, msg)
    }

    /// A retryable failure of the solver to pass the challenge.
    pub fn solution(msg: &str) -> (r: Error)
        ensures
            r.error_type == ErrorType::Solution,
            !r.fatal,
            r.message@ == msg@,
    {
        Error::new(ErrorType::Solution, false, msg)
    }

    /// A fatal transport error.
    pub fn solver(msg: &str) -> (r: Error)
        ensures
            r.error_type == ErrorType::Solver,
            r.fatal,
            r.message@ == msg@,
    {
        Error::new(ErrorType::Solver, true, msg)
    }

    /// A retryable timeout of a bounded wait.
    pub fn timeout(msg: &str) -> (r: Error)
        ensures
            r.error_type == ErrorType::Timeout,
            !r.fatal,
            r.message@ == msg@,
    {
        Error::new(ErrorType::Timeout, false, msg)
    }

    /// A fatal error for a page that answered with `status`.
    pub fn status(status: u16) -> (r: Error)
        ensures
            r.error_type == ErrorType::Status,
            r.fatal,
            r.message@ == "returned status "@ + decimal(status as nat),
    {
        let mut message = "returned status ".to_owned();
        push_decimal(&mut message, status as u64);
        Error { error_type: ErrorType::Status, fatal: true, message }
    }

    /// The kind's name, a colon, and the message.
    pub fn describe(&self) -> (r: String)
        ensures
            r@ == self.error_type.name_spec() + ": "@ + self.message@,
    {
        let mut r = self.error_type.as_str().to_owned();
        r.append(": ");
        r.append(self.message.as_str());
        r
    }
}

} // verus!
