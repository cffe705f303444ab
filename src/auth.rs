//! Credentials for the egress controller and for the egress path itself.
use vstd::prelude::*;
use base64::Engine;

verus! {

/// Standard, padded base64 of a sequence of bytes.
pub uninterp spec fn base64_of(bytes: Seq<u8>) -> Seq<char>;

/// Relies on base64's `STANDARD` engine (`Engine::encode`) to encode the bytes.
#[verifier::external_body]
fn base64_standard(bytes: &[u8]) -> (r: String)
    ensures
        r@ == base64_of(bytes@),
{
    base64::engine::general_purpose::STANDARD.encode(bytes)
}

/// A user name and password pair.
#[derive(Clone, Debug)]
pub struct BasicAuth {
    pub username: String,
    pub password: String,
}

/// The text of a user name and password joined by a colon.
pub open spec fn user_colon_password(username: Seq<char>, password: Seq<char>) -> Seq<char> {
    username + ":"@ + password
}

/// The value of an `Authorization` header for basic authentication.
pub open spec fn basic_header_value(username: Seq<char>, password: Seq<char>) -> Seq<char> {
    "Basic "@ + base64_of(vstd::utf8::encode_utf8(user_colon_password(username, password)))
}

impl BasicAuth {
    /// A user name and password pair.
    pub fn new(username: &str, password: &str) -> (r: Self)
        ensures
            r.username@ == username@,
            r.password@ == password@,
    {
        BasicAuth { username: username.to_owned(), password: password.to_owned() }
    }

    /// The user name.
    pub fn username(&self) -> (r: &str)
        ensures
            r@ == self.username@,
    {
        self.username.as_str()
    }

    /// The password.
    pub fn password(&self) -> (r: &str)
        ensures
            r@ == self.password@,
    {
        self.password.as_str()
    }

    /// `Basic ` followed by the base64 of `username:password`.
    pub fn to_header_value(&self) -> (r: String)
        ensures
            r@ == basic_header_value(self.username@, self.password@),
    {
        let mut joined = self.username.clone();
        joined.append(":");
        joined.append(self.password.as_str());
        let encoded = base64_standard(joined.as_str().as_bytes());
        let mut r = "Basic ".to_owned();
        r.append(encoded.as_str());
        r
    }
}

/// How to authenticate with the egress controller.
#[derive(Clone, Debug)]
pub enum Credentials {
    BasicAuth(BasicAuth),
    ApiKey(String),
}

/// The header, as a name and a value, that carries the credentials.
pub open spec fn credentials_header(c: Credentials) -> (Seq<char>, Seq<char>) {
    match c {
        Credentials::BasicAuth(b) => ("authorization"@, basic_header_value(b.username@, b.password@)),
        Credentials::ApiKey(k) => ("x-api-key"@, k@),
    }
}

impl Credentials {
    /// Basic authentication with a user name and password.
    pub fn basic(username: &str, password: &str) -> (r: Self)
        ensures
            r matches Credentials::BasicAuth(b) && b.username@ == username@ && b.password@
                == password@,
    {
        Credentials::BasicAuth(BasicAuth::new(username, password))
    }

    /// Authentication with an API key.
    pub fn api_key(api_key: &str) -> (r: Self)
        ensures
            r matches Credentials::ApiKey(k) && k@ == api_key@,
    {
        Credentials::ApiKey(api_key.to_owned())
    }

    /// The header name and value that carry the credentials.
    pub fn to_header(&self) -> (r: (String, String))
        ensures
            (r.0@, r.1@) == credentials_header(*self),
    {
        match self {
            Credentials::BasicAuth(b) => ("authorization".to_owned(), b.to_header_value()),
            Credentials::ApiKey(k) => ("x-api-key".to_owned(), k.clone()),
        }
    }
}

} // verus!
