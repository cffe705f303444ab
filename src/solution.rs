//! The solver's answer envelope and how it is judged.
use vstd::prelude::*;
use crate::error::{Error, ErrorType, solution_error_type};
use crate::text::{decimal, equals};

verus! {

/// The page the solver fetched.
#[derive(Clone, Debug)]
pub struct Solution {
    pub url: String,
    pub status: u16,
    pub response: String,
    pub user_agent: String,
}

/// The solver's answer envelope.
#[derive(Clone, Debug)]
pub struct Response {
    pub status: String,
    pub message: String,
    pub session: Option<String>,
    pub solution: Option<Solution>,
}

/// How a page request failed, as a kind and whether it is fatal; `None` where it succeeded.
pub open spec fn fetch_failure(res: Response) -> Option<(ErrorType, bool)> {
    if res.status@ == "ok"@ {
        match res.solution {
            Some(s) => if s.status == 200 {
                None
            } else {
                Some((ErrorType::Status, true))
            },
            None => Some((ErrorType::Solution, false)),
        }
    } else {
        let k = solution_error_type(res.message@);
        Some((k, k != ErrorType::Solution))
    }
}

/// How a session request failed, as a kind; `None` where it succeeded. Such a failure is
/// always fatal.
pub open spec fn session_failure(res: Response) -> Option<ErrorType> {
    if res.status@ == "ok"@ {
        match res.session {
            Some(_) => None,
            None => Some(ErrorType::Solver),
        }
    } else {
        Some(solution_error_type(res.message@))
    }
}

impl Response {
    /// Judges the answer to a page request: the page body where the solver succeeded and the
    /// page answered 200, an error of the kind the decision table gives otherwise.
    pub fn into_page(self) -> (r: Result<String, Error>)
        ensures
            r is Ok <==> fetch_failure(self) is None,
            r matches Ok(body) ==> body@ == self.solution->0.response@,
            r matches Err(e) ==> fetch_failure(self) == Some((e.error_type, e.fatal)),
            r matches Err(e) ==> e.message@ == (if self.status@ != "ok"@ {
                self.message@
            } else {
                match self.solution {
                    Some(s) => "returned status "@ + decimal(s.status as nat),
                    None => "no solution in response"@,
                }
            }),
    {
        if equals(self.status.as_str(), "ok") {
            match self.solution {
                Some(s) => {
                    if s.status == 200 {
                        Ok(s.response)
                    } else {
                        Err(Error::status(s.status))
                    }
                },
                None => Err(Error::solution("no solution in response")),
            }
        } else {
            Err(Error::parse_solution_error(self.message.as_str()))
        }
    }

    /// Judges the answer to a session request: the session token, or a fatal error.
    pub fn into_session(self) -> (r: Result<String, Error>)
        ensures
            r is Ok <==> session_failure(self) is None,
            r matches Ok(token) ==> token@ == self.session->0@,
            r matches Err(e) ==> session_failure(self) == Some(e.error_type) && e.fatal,
            r matches Err(e) ==> e.message@ == (if self.status@ != "ok"@ {
                self.message@
            } else {
                "no session in response"@
            }),
    {
        if equals(self.status.as_str(), "ok") {
            match self.session {
                Some(token) => Ok(token),
                None => Err(Error::solver("no session in response")),
            }
        } else {
            let e = Error::parse_solution_error(self.message.as_str());
            Err(Error { fatal: true, ..e })
        }
    }
}

} // verus!
