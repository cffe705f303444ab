//! The egress path: its address, its credentials and its control API.
use vstd::prelude::*;
use crate::api::Api;
use crate::text::equals;

verus! {

/// The state of an egress path as its controller reports it.
#[derive(Clone, Copy, Debug, PartialEq, Eq, Structural)]
pub enum ProxyStatus {
    Running,
    Stopped,
    Unknown,
}

/// The state named by a controller's status text.
pub open spec fn status_of(s: Option<Seq<char>>) -> ProxyStatus {
    match s {
        Some(t) => if t == "running"@ {
            ProxyStatus::Running
        } else if t == "stopped"@ {
            ProxyStatus::Stopped
        } else {
            ProxyStatus::Unknown
        },
        None => ProxyStatus::Unknown,
    }
}

impl ProxyStatus {
    /// The text the controller uses for this state.
    pub open spec fn text_spec(self) -> Seq<char> {
        match self {
            ProxyStatus::Running => "running"@,
            ProxyStatus::Stopped => "stopped"@,
            ProxyStatus::Unknown => "unknown"@,
        }
    }

    /// The text the controller uses for this state.
    pub fn as_str(&self) -> (r: &'static str)
        ensures
            r@ == self.text_spec(),
    {
        match self {
            ProxyStatus::Running => "running",
            ProxyStatus::Stopped => "stopped",
            ProxyStatus::Unknown => "unknown",
        }
    }

    /// Maps the controller's status text: `running` and `stopped` to their states, anything
    /// else, or no text at all, to `Unknown`.
    pub fn from_text(s: Option<&str>) -> (r: ProxyStatus)
        ensures
            r == status_of(
                match s {
                    Some(t) => Some(t@),
                    None => None,
                },
            ),
    {
        match s {
            Some(t) => {
                if equals(t, "running") {
                    ProxyStatus::Running
                } else if equals(t, "stopped") {
                    ProxyStatus::Stopped
                } else {
                    ProxyStatus::Unknown
                }
            },
            None => ProxyStatus::Unknown,
        }
    }
}

/// An egress path: the proxy address handed to the solver, its optional basic
/// authentication, and the optional control API that can restart it.
#[derive(Clone, Debug)]
pub struct Proxy {
    pub url: String,
    pub username: Option<String>,
    pub password: Option<String>,
    pub api: Option<Api>,
}

impl Proxy {
    /// An egress path without credentials or control API.
    pub fn new(url: &str) -> (r: Self)
        ensures
            r.url@ == url@,
            r.username is None,
            r.password is None,
            r.api is None,
    {
        Proxy { url: url.to_owned(), username: None, password: None, api: None }
    }

    /// An egress path with a control API.
    pub fn with_api(url: &str, api: Api) -> (r: Self)
        ensures
            r.url@ == url@,
            r.username is None,
            r.password is None,
            r.api == Some(api),
    {
        Proxy { url: url.to_owned(), username: None, password: None, api: Some(api) }
    }

    /// Starts a builder for an egress path at `url`.
    pub fn builder(url: &str) -> (r: ProxyBuilder)
        ensures
            r.url@ == url@,
            r.username is None,
            r.password is None,
            r.api is None,
    {
        ProxyBuilder::new(url)
    }

    /// The proxy address.
    pub fn url(&self) -> (r: &str)
        ensures
            r@ == self.url@,
    {
        self.url.as_str()
    }

    /// The user name, if any.
    pub fn username(&self) -> (r: Option<&str>)
        ensures
            r is Some <==> self.username is Some,
            r matches Some(u) ==> u@ == self.username->0@,
    {
        match &self.username {
            Some(u) => Some(u.as_str()),
            None => None,
        }
    }

    /// The password, if any.
    pub fn password(&self) -> (r: Option<&str>)
        ensures
            r is Some <==> self.password is Some,
            r matches Some(p) ==> p@ == self.password->0@,
    {
        match &self.password {
            Some(p) => Some(p.as_str()),
            None => None,
        }
    }

    /// The basic authentication handed to the solver with the proxy: the user name, and
    /// the password only beside a user name.
    pub fn auth(&self) -> (r: (Option<&str>, Option<&str>))
        ensures
            r.0 is Some <==> self.username is Some,
            r.0 matches Some(u) ==> u@ == self.username->0@,
            r.1 is Some <==> (self.username is Some && self.password is Some),
            r.1 matches Some(p) ==> p@ == self.password->0@,
    {
        match &self.username {
            Some(u) => (Some(u.as_str()), self.password()),
            None => (None, None),
        }
    }

    /// The control API, if any.
    pub fn api(&self) -> (r: Option<&Api>)
        ensures
            r is Some <==> self.api is Some,
            r matches Some(a) ==> *a == self.api->0,
    {
        match &self.api {
            Some(a) => Some(a),
            None => None,
        }
    }
}

/// Builds a `Proxy` step by step.
#[derive(Clone, Debug)]
pub struct ProxyBuilder {
    pub url: String,
    pub username: Option<String>,
    pub password: Option<String>,
    pub api: Option<Api>,
}

impl ProxyBuilder {
    /// Starts a builder for an egress path at `url`.
    pub fn new(url: &str) -> (r: Self)
        ensures
            r.url@ == url@,
            r.username is None,
            r.password is None,
            r.api is None,
    {
        ProxyBuilder { url: url.to_owned(), username: None, password: None, api: None }
    }

    /// Sets the user name of the egress path.
    pub fn username(self, username: &str) -> (r: Self)
        ensures
            r.username matches Some(u) && u@ == username@,
            r.url == self.url,
            r.password == self.password,
            r.api == self.api,
    {
        let mut s = self;
        s.username = Some(username.to_owned());
        s
    }

    /// Sets the password of the egress path.
    pub fn password(self, password: &str) -> (r: Self)
        ensures
            r.password matches Some(p) && p@ == password@,
            r.url == self.url,
            r.username == self.username,
            r.api == self.api,
    {
        let mut s = self;
        s.password = Some(password.to_owned());
        s
    }

    /// Sets the control API of the egress path.
    pub fn api(self, api: Api) -> (r: Self)
        ensures
            r.api == Some(api),
            r.url == self.url,
            r.username == self.username,
            r.password == self.password,
    {
        let mut s = self;
        s.api = Some(api);
        s
    }

    /// The finished egress path.
    pub fn build(self) -> (r: Proxy)
        ensures
            r.url == self.url,
            r.username == self.username,
            r.password == self.password,
            r.api == self.api,
    {
        Proxy { url: self.url, username: self.username, password: self.password, api: self.api }
    }
}

} // verus!
