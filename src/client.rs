//! The session client: what it holds and how it prepares its commands.
//!
//! The client owns at most one live solver session, the egress path its requests leave
//! through, and the cache. Sending commands over the network is left to the caller; the
//! retry decisions are made by `Retry`.
use vstd::prelude::*;
use crate::cache::{Cache, entry_name_of};
use crate::error::Error;
use crate::proxy::Proxy;
use crate::request::{Request, Session};
use crate::retry::{RECOVER_TIMEOUT_SECS, Retry, RetryPhase};
use crate::solution::{Response, session_failure};

verus! {

/// The default bound on one solver request, in milliseconds.
pub const CLIENT_TIMEOUT_MS: u64 = 60000;

/// A client of the challenge solver.
#[derive(Clone, Debug)]
pub struct Client {
    pub solver: String,
    pub timeout_ms: u64,
    pub proxy: Option<Proxy>,
    pub session: Option<String>,
    pub cache: Option<Cache>,
}

impl Client {
    fn new_internal(solver: String, timeout_ms: u64, proxy: Option<Proxy>, cache: Option<Cache>) -> (r: Client)
        ensures
            r == (Client { solver, timeout_ms, proxy, session: None, cache }),
    {
        Client { solver, timeout_ms, proxy, session: None, cache }
    }

    /// Starts a builder for a client of the solver at `solver`.
    pub fn builder(solver: &str) -> (r: ClientBuilder)
        ensures
            r.solver@ == solver@,
            r.timeout_ms == CLIENT_TIMEOUT_MS,
            r.proxy is None,
            r.cache is None,
    {
        ClientBuilder::new(solver)
    }

    /// A client of the solver at `solver`, without egress path or cache.
    pub fn new(solver: &str) -> (r: Client)
        ensures
            r.solver@ == solver@,
            r.timeout_ms == CLIENT_TIMEOUT_MS,
            r.proxy is None,
            r.session is None,
            r.cache is None,
    {
        Client::new_internal(solver.to_owned(), CLIENT_TIMEOUT_MS, None, None)
    }

    /// A client of the solver at `solver` whose requests leave through `proxy`.
    pub fn with_proxy(solver: &str, proxy: Proxy) -> (r: Client)
        ensures
            r.solver@ == solver@,
            r.timeout_ms == CLIENT_TIMEOUT_MS,
            r.proxy == Some(proxy),
            r.session is None,
            r.cache is None,
    {
        Client::new_internal(solver.to_owned(), CLIENT_TIMEOUT_MS, Some(proxy), None)
    }

    /// The solver address.
    pub fn solver(&self) -> (r: &str)
        ensures
            r@ == self.solver@,
    {
        self.solver.as_str()
    }

    /// The bound on one solver request, in milliseconds.
    pub fn timeout(&self) -> (r: u64)
        ensures
            r == self.timeout_ms,
    {
        self.timeout_ms
    }

    /// The egress path, if any.
    pub fn proxy(&self) -> (r: Option<&Proxy>)
        ensures
            r is Some <==> self.proxy is Some,
            r matches Some(p) ==> *p == self.proxy->0,
    {
        match &self.proxy {
            Some(p) => Some(p),
            None => None,
        }
    }

    /// The live session token, if any.
    pub fn session(&self) -> (r: Option<&str>)
        ensures
            r is Some <==> self.session is Some,
            r matches Some(s) ==> s@ == self.session->0@,
    {
        match &self.session {
            Some(s) => Some(s.as_str()),
            None => None,
        }
    }

    /// The cache, if any.
    pub fn cache(&self) -> (r: Option<&Cache>)
        ensures
            r is Some <==> self.cache is Some,
            r matches Some(c) ==> *c == self.cache->0,
    {
        match &self.cache {
            Some(c) => Some(c),
            None => None,
        }
    }

    /// Whether recovery restarts the egress path: there is one, and it has a control API.
    pub open spec fn has_egress_spec(&self) -> bool {
        self.proxy matches Some(p) && p.api is Some
    }

    /// Whether recovery restarts the egress path.
    pub fn has_egress(&self) -> (r: bool)
        ensures
            r == self.has_egress_spec(),
    {
        match &self.proxy {
            Some(p) => p.api.is_some(),
            None => false,
        }
    }

    /// The command that opens a session, carrying the egress path if there is one.
    pub fn create_command(&self) -> (r: Session<'_>)
        ensures
            r.cmd@ == "sessions.create"@,
            r.session is None,
            r.proxy is Some <==> self.proxy is Some,
            r.proxy matches Some(p) ==> *p == self.proxy->0,
    {
        Session::create(self.proxy())
    }

    /// Takes in the answer to a session command: on success the token becomes the live
    /// session; on failure the session is left as it was and a fatal error is returned.
    pub fn accept_session(&mut self, res: Response) -> (r: Result<(), Error>)
        ensures
            r is Ok <==> session_failure(res) is None,
            r is Ok ==> (final(self).session matches Some(s) && s@ == res.session->0@),
            r matches Err(e) ==> e.fatal && session_failure(res) == Some(e.error_type) && final(self).session == old(self).session,
            final(self).solver == old(self).solver,
            final(self).timeout_ms == old(self).timeout_ms,
            final(self).proxy == old(self).proxy,
            final(self).cache == old(self).cache,
    {
        match res.into_session() {
            Ok(token) => {
                self.session = Some(token);
                Ok(())
            },
            Err(e) => Err(e),
        }
    }

    /// The command that closes the live session, if one is held.
    pub fn destroy_command(&self) -> (r: Option<Session<'_>>)
        ensures
            r is Some <==> self.session is Some,
            r matches Some(c) ==> c.cmd@ == "sessions.destroy"@ && (c.session matches Some(s) && s@ == self.session->0@),
    {
        match &self.session {
            Some(s) => Some(Session::destroy(s.as_str())),
            None => None,
        }
    }

    /// Turns the cache off, as where its directory could not be prepared.
    pub fn disable_cache(&mut self)
        ensures
            final(self).cache is None,
            final(self).solver == old(self).solver,
            final(self).timeout_ms == old(self).timeout_ms,
            final(self).proxy == old(self).proxy,
            final(self).session == old(self).session,
    {
        self.cache = None;
    }

    /// Drops the live session, whatever became of the command that closes it.
    pub fn forget_session(&mut self)
        ensures
            final(self).session is None,
            final(self).solver == old(self).solver,
            final(self).timeout_ms == old(self).timeout_ms,
            final(self).proxy == old(self).proxy,
            final(self).cache == old(self).cache,
    {
        self.session = None;
    }

    /// The request as it is sent: with the client's bound and the live session.
    pub fn prepare(&self, request: Request) -> (r: Request)
        ensures
            r == (Request { max_timeout: self.timeout_ms, session: r.session, ..request }),
            r.session is Some <==> self.session is Some,
            r.session matches Some(s) ==> s@ == self.session->0@,
    {
        let session = match &self.session {
            Some(s) => Some(s.clone()),
            None => None,
        };
        Request { max_timeout: self.timeout_ms, session, ..request }
    }

    /// The cache entry the request reads and fills: one exists where the request allows
    /// the cache and the client has one.
    pub fn cache_entry(&self, request: &Request) -> (r: Option<String>)
        ensures
            r is Some <==> (request.enable_cache && self.cache is Some),
            r matches Some(n) ==> n@ == entry_name_of(self.cache->0.prefix@, request.url@),
    {
        if request.enable_cache {
            match &self.cache {
                Some(c) => Some(c.entry_name(request.url.as_str())),
                None => None,
            }
        } else {
            None
        }
    }

    /// The retry state for the request: its own budget, and an egress restart in each
    /// recovery where the client has a controllable egress path.
    pub fn retry(&self, request: &Request) -> (r: Retry)
        ensures
            r == (Retry {
                phase: RetryPhase::Fetching,
                attempts: 0,
                max_attempts: request.attempts,
                has_egress: self.has_egress_spec(),
                recover_secs: RECOVER_TIMEOUT_SECS,
            }),
            r.wf(),
    {
        Retry::new(request.attempts, self.has_egress(), RECOVER_TIMEOUT_SECS)
    }
}

/// Builds a `Client` step by step.
#[derive(Clone, Debug)]
pub struct ClientBuilder {
    pub solver: String,
    pub timeout_ms: u64,
    pub proxy: Option<Proxy>,
    pub cache: Option<Cache>,
}

impl ClientBuilder {
    /// Starts a builder for a client of the solver at `solver`.
    pub fn new(solver: &str) -> (r: Self)
        ensures
            r.solver@ == solver@,
            r.timeout_ms == CLIENT_TIMEOUT_MS,
            r.proxy is None,
            r.cache is None,
    {
        ClientBuilder { solver: solver.to_owned(), timeout_ms: CLIENT_TIMEOUT_MS, proxy: None, cache: None }
    }

    /// Sets the bound on one solver request, in milliseconds.
    pub fn timeout(self, timeout_ms: u64) -> (r: Self)
        ensures
            r == (ClientBuilder { timeout_ms, ..self }),
    {
        ClientBuilder { timeout_ms, ..self }
    }

    /// Sets the egress path.
    pub fn proxy(self, proxy: Proxy) -> (r: Self)
        ensures
            r == (ClientBuilder { proxy: Some(proxy), ..self }),
    {
        ClientBuilder { proxy: Some(proxy), ..self }
    }

    /// Sets the cache.
    pub fn cache(self, cache: Cache) -> (r: Self)
        ensures
            r == (ClientBuilder { cache: Some(cache), ..self }),
    {
        ClientBuilder { cache: Some(cache), ..self }
    }

    /// The finished client, with no session yet.
    pub fn build(self) -> (r: Client)
        ensures
            r == (Client { solver: self.solver, timeout_ms: self.timeout_ms, proxy: self.proxy, session: None, cache: self.cache }),
    {
        Client::new_internal(self.solver, self.timeout_ms, self.proxy, self.cache)
    }
}

} // verus!
