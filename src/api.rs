//! The control API of an egress path: where to ask, how to authenticate, and how to read
//! its answers.
use vstd::prelude::*;
use crate::auth::Credentials;
use crate::error::Error;
use crate::text::{trim_of, trimmed};

verus! {

/// The path of the public address endpoint.
pub open spec fn ip_path() -> Seq<char> {
    "/v1/publicip/ip"@
}

/// The path of the status endpoint.
pub open spec fn status_path() -> Seq<char> {
    "/v1/openvpn/status"@
}

/// The control API of an egress path.
#[derive(Clone, Debug)]
pub struct Api {
    pub url: String,
    pub credentials: Option<Credentials>,
}

impl Api {
    /// A control API without authentication.
    pub fn new(url: &str) -> (r: Self)
        ensures
            r.url@ == url@,
            r.credentials is None,
    {
        Api { url: url.to_owned(), credentials: None }
    }

    /// A control API with basic authentication.
    pub fn with_basic_auth(url: &str, username: &str, password: &str) -> (r: Self)
        ensures
            r.url@ == url@,
            r.credentials matches Some(Credentials::BasicAuth(b)) && b.username@ == username@
                && b.password@ == password@,
    {
        Api { url: url.to_owned(), credentials: Some(Credentials::basic(username, password)) }
    }

    /// A control API with an API key.
    pub fn with_api_key(url: &str, api_key: &str) -> (r: Self)
        ensures
            r.url@ == url@,
            r.credentials matches Some(Credentials::ApiKey(k)) && k@ == api_key@,
    {
        Api { url: url.to_owned(), credentials: Some(Credentials::api_key(api_key)) }
    }

    /// The base address of the API.
    pub fn url(&self) -> (r: &str)
        ensures
            r@ == self.url@,
    {
        self.url.as_str()
    }

    /// The credentials, if any.
    pub fn credentials(&self) -> (r: Option<&Credentials>)
        ensures
            r is Some <==> self.credentials is Some,
            r matches Some(c) ==> *c == self.credentials->0,
    {
        match &self.credentials {
            Some(c) => Some(c),
            None => None,
        }
    }

    /// The address of the public address endpoint.
    pub fn ip_url(&self) -> (r: String)
        ensures
            r@ == self.url@ + ip_path(),
    {
        let mut r = self.url.clone();
        r.append("/v1/publicip/ip");
        r
    }

    /// The address of the status endpoint, read with GET and changed with PUT.
    pub fn status_url(&self) -> (r: String)
        ensures
            r@ == self.url@ + status_path(),
    {
        let mut r = self.url.clone();
        r.append("/v1/openvpn/status");
        r
    }

    /// Reads the `public_ip` field of an answer of the public address endpoint: the trimmed
    /// address, or a JSON error where the field is missing, is not text or is blank.
    pub fn ip_from(public_ip: Option<&str>) -> (r: Result<String, Error>)
        ensures
            match public_ip {
                Some(t) => trim_of(t@).len() > 0,
                None => false,
            } <==> r is Ok,
            r matches Ok(ip) ==> ip@ == trim_of(public_ip->0@),
            r matches Err(e) ==> e.error_type == crate::error::ErrorType::Json && e.fatal,
    {
        match public_ip {
            Some(t) => {
                let ip = trimmed(t);
                if ip.unicode_len() == 0 {
                    Err(Error::json("expected public_ip in response"))
                } else {
                    Ok(ip.to_owned())
                }
            },
            None => Err(Error::json("expected public_ip in response")),
        }
    }
}

} // verus!
