//! Commands for the challenge solver: session commands and page requests.
use vstd::prelude::*;
use crate::proxy::Proxy;

verus! {

/// A condition the solver waits for before it returns a page.
#[derive(Clone, Debug)]
pub enum WaitFor {
    Id(String),
    XPath(String),
    Link(String),
    ExactLink(String),
    Name(String),
    Tag(String),
    Class(String),
    Selector(String),
}

impl WaitFor {
    /// The name under which the solver knows the kind of condition.
    pub open spec fn kind_name_spec(&self) -> Seq<char> {
        match self {
            WaitFor::Id(_) => "id"@,
            WaitFor::XPath(_) => "xpath"@,
            WaitFor::Link(_) => "link"@,
            WaitFor::ExactLink(_) => "exact-link"@,
            WaitFor::Name(_) => "name"@,
            WaitFor::Tag(_) => "tag"@,
            WaitFor::Class(_) => "class"@,
            WaitFor::Selector(_) => "selector"@,
        }
    }

    /// The value the condition waits for.
    pub open spec fn value_spec(&self) -> Seq<char> {
        match self {
            WaitFor::Id(v) => v@,
            WaitFor::XPath(v) => v@,
            WaitFor::Link(v) => v@,
            WaitFor::ExactLink(v) => v@,
            WaitFor::Name(v) => v@,
            WaitFor::Tag(v) => v@,
            WaitFor::Class(v) => v@,
            WaitFor::Selector(v) => v@,
        }
    }

    /// Waits for an element with this id.
    pub fn id(val: &str) -> (r: Self)
        ensures
            r is Id,
            r.value_spec() == val@,
    {
        WaitFor::Id(val.to_owned())
    }

    /// Waits for an element matching this XPath.
    pub fn xpath(val: &str) -> (r: Self)
        ensures
            r is XPath,
            r.value_spec() == val@,
    {
        WaitFor::XPath(val.to_owned())
    }

    /// Waits for a link containing this text.
    pub fn link(val: &str) -> (r: Self)
        ensures
            r is Link,
            r.value_spec() == val@,
    {
        WaitFor::Link(val.to_owned())
    }

    /// Waits for a link with exactly this text.
    pub fn exact_link(val: &str) -> (r: Self)
        ensures
            r is ExactLink,
            r.value_spec() == val@,
    {
        WaitFor::ExactLink(val.to_owned())
    }

    /// Waits for an element with this name.
    pub fn name(val: &str) -> (r: Self)
        ensures
            r is Name,
            r.value_spec() == val@,
    {
        WaitFor::Name(val.to_owned())
    }

    /// Waits for an element with this tag.
    pub fn tag(val: &str) -> (r: Self)
        ensures
            r is Tag,
            r.value_spec() == val@,
    {
        WaitFor::Tag(val.to_owned())
    }

    /// Waits for an element with this class.
    pub fn class(val: &str) -> (r: Self)
        ensures
            r is Class,
            r.value_spec() == val@,
    {
        WaitFor::Class(val.to_owned())
    }

    /// Waits for an element matching this CSS selector.
    pub fn selector(val: &str) -> (r: Self)
        ensures
            r is Selector,
            r.value_spec() == val@,
    {
        WaitFor::Selector(val.to_owned())
    }

    /// The name under which the solver knows the kind of condition.
    pub fn kind_name(&self) -> (r: &'static str)
        ensures
            r@ == self.kind_name_spec(),
    {
        match self {
            WaitFor::Id(_) => "id",
            WaitFor::XPath(_) => "xpath",
            WaitFor::Link(_) => "link",
            WaitFor::ExactLink(_) => "exact-link",
            WaitFor::Name(_) => "name",
            WaitFor::Tag(_) => "tag",
            WaitFor::Class(_) => "class",
            WaitFor::Selector(_) => "selector",
        }
    }

    /// The value the condition waits for.
    pub fn value(&self) -> (r: &str)
        ensures
            r@ == self.value_spec(),
    {
        match self {
            WaitFor::Id(v) => v.as_str(),
            WaitFor::XPath(v) => v.as_str(),
            WaitFor::Link(v) => v.as_str(),
            WaitFor::ExactLink(v) => v.as_str(),
            WaitFor::Name(v) => v.as_str(),
            WaitFor::Tag(v) => v.as_str(),
            WaitFor::Class(v) => v.as_str(),
            WaitFor::Selector(v) => v.as_str(),
        }
    }
}

/// A session command for the solver.
#[derive(Clone, Debug)]
pub struct Session<'a> {
    pub cmd: String,
    pub session: Option<String>,
    pub proxy: Option<&'a Proxy>,
}

impl<'a> Session<'a> {
    /// The command that opens a session, routed through `proxy` if there is one.
    pub fn create(proxy: Option<&'a Proxy>) -> (r: Self)
        ensures
            r.cmd@ == "sessions.create"@,
            r.session is None,
            r.proxy == proxy,
    {
        Session { cmd: "sessions.create".to_owned(), session: None, proxy }
    }

    /// The command that closes the session `session`.
    pub fn destroy(session: &str) -> (r: Self)
        ensures
            r.cmd@ == "sessions.destroy"@,
            r.session matches Some(s) && s@ == session@,
            r.proxy is None,
    {
        Session {
            cmd: "sessions.destroy".to_owned(),
            session: Some(session.to_owned()),
            proxy: None,
        }
    }
}

/// A cookie handed to the solver.
#[derive(Clone, Debug)]
pub struct Cookie {
    pub name: String,
    pub value: String,
}

/// The solver's default bound on one request, in milliseconds.
pub const DEFAULT_TIMEOUT_MS: u64 = 60000;

/// The default number of failed attempts after which a request gives up.
pub const DEFAULT_ATTEMPTS: usize = 3;

/// A page request for the solver.
#[derive(Clone, Debug)]
pub struct Request {
    pub cmd: String,
    pub url: String,
    pub max_timeout: u64,
    pub session: Option<String>,
    pub wait_for: Option<WaitFor>,
    pub cookies: Option<Vec<Cookie>>,
    pub no_kill: bool,
    pub post_data: Option<String>,
    pub enable_cache: bool,
    pub attempts: usize,
}

impl Request {
    /// Starts a GET request for `url`.
    pub fn get(url: &str) -> (r: RequestBuilder)
        ensures
            r.0.cmd@ == "request.get"@,
            r.0.url@ == url@,
            r.0.max_timeout == DEFAULT_TIMEOUT_MS,
            r.0.session is None,
            r.0.wait_for is None,
            r.0.cookies is None,
            r.0.no_kill,
            r.0.post_data is None,
            r.0.enable_cache,
            r.0.attempts == DEFAULT_ATTEMPTS,
    {
        RequestBuilder::get(url)
    }

    /// Starts a POST request for `url`, with an empty body.
    pub fn post(url: &str) -> (r: RequestBuilder)
        ensures
            r.0.cmd@ == "request.post"@,
            r.0.url@ == url@,
            r.0.max_timeout == DEFAULT_TIMEOUT_MS,
            r.0.session is None,
            r.0.wait_for is None,
            r.0.cookies is None,
            r.0.no_kill,
            r.0.post_data matches Some(d) && d@.len() == 0,
            !r.0.enable_cache,
            r.0.attempts == DEFAULT_ATTEMPTS,
    {
        RequestBuilder::post(url)
    }
}

/// The text of a list of pairs, seen as character sequences.
pub open spec fn pairs_view(pairs: Seq<(&str, &str)>) -> Seq<(Seq<char>, Seq<char>)> {
    pairs.map_values(|p: (&str, &str)| (p.0@, p.1@))
}

/// The `application/x-www-form-urlencoded` serialization of a list of name and value pairs.
pub uninterp spec fn form_encoding(pairs: Seq<(Seq<char>, Seq<char>)>) -> Seq<char>;

/// Relies on form_urlencoded::Serializer (`extend_pairs`, then `finish`) to encode the pairs,
/// which yields the empty text for no pairs.
#[verifier::external_body]
fn encode_form(pairs: &[(&str, &str)]) -> (r: String)
    ensures
        r@ == form_encoding(pairs_view(pairs@)),
        pairs@.len() == 0 ==> r@.len() == 0,
{
    form_urlencoded::Serializer::new(String::new()).extend_pairs(pairs).finish()
}

/// Builds a `Request` step by step.
#[derive(Clone, Debug)]
pub struct RequestBuilder(pub Request);

impl RequestBuilder {
    /// Starts a GET request for `url`.
    pub fn get(url: &str) -> (r: RequestBuilder)
        ensures
            r.0.cmd@ == "request.get"@,
            r.0.url@ == url@,
            r.0.max_timeout == DEFAULT_TIMEOUT_MS,
            r.0.session is None,
            r.0.wait_for is None,
            r.0.cookies is None,
            r.0.no_kill,
            r.0.post_data is None,
            r.0.enable_cache,
            r.0.attempts == DEFAULT_ATTEMPTS,
    {
        RequestBuilder(Request {
            cmd: "request.get".to_owned(),
            url: url.to_owned(),
            max_timeout: DEFAULT_TIMEOUT_MS,
            session: None,
            wait_for: None,
            cookies: None,
            no_kill: true,
            post_data: None,
            enable_cache: true,
            attempts: DEFAULT_ATTEMPTS,
        })
    }

    /// Starts a POST request for `url`, with an empty body.
    pub fn post(url: &str) -> (r: RequestBuilder)
        ensures
            r.0.cmd@ == "request.post"@,
            r.0.url@ == url@,
            r.0.max_timeout == DEFAULT_TIMEOUT_MS,
            r.0.session is None,
            r.0.wait_for is None,
            r.0.cookies is None,
            r.0.no_kill,
            r.0.post_data matches Some(d) && d@.len() == 0,
            !r.0.enable_cache,
            r.0.attempts == DEFAULT_ATTEMPTS,
    {
        RequestBuilder(Request {
            cmd: "request.post".to_owned(),
            url: url.to_owned(),
            max_timeout: DEFAULT_TIMEOUT_MS,
            session: None,
            wait_for: None,
            cookies: None,
            no_kill: true,
            post_data: Some(String::new()),
            enable_cache: false,
            attempts: DEFAULT_ATTEMPTS,
        })
    }

    /// Sets the condition to wait for.
    pub fn wait_for(self, wait_for: WaitFor) -> (r: Self)
        ensures
            r.0 == (Request { wait_for: Some(wait_for), ..self.0 }),
    {
        let mut s = self;
        s.0.wait_for = Some(wait_for);
        s
    }

    /// Sets the cookies, in the given order.
    pub fn cookies(self, cookies: &[(&str, &str)]) -> (r: Self)
        ensures
            r.0.cookies matches Some(c) && c@.len() == cookies@.len() && (forall|i: int|
                0 <= i < c@.len() ==> c@[i].name@ == cookies@[i].0@ && c@[i].value@
                    == cookies@[i].1@),
            r.0 == (Request { cookies: r.0.cookies, ..self.0 }),
    {
        let mut list: Vec<Cookie> = Vec::new();
        let mut i: usize = 0;
        while i < cookies.len()
            invariant
                i <= cookies@.len(),
                list@.len() == i,
                forall|k: int|
                    0 <= k < i ==> list@[k].name@ == cookies@[k].0@ && list@[k].value@
                        == cookies@[k].1@,
            decreases cookies@.len() - i,
        {
            let (n, v) = cookies[i];
            list.push(Cookie { name: n.to_owned(), value: v.to_owned() });
            i = i + 1;
        }
        let mut s = self;
        s.0.cookies = Some(list);
        s
    }

    /// Lets the solver close its browser after the request.
    pub fn with_kill(self) -> (r: Self)
        ensures
            r.0 == (Request { no_kill: false, ..self.0 }),
    {
        let mut s = self;
        s.0.no_kill = false;
        s
    }

    /// Keeps the solver's browser open after the request.
    pub fn without_kill(self) -> (r: Self)
        ensures
            r.0 == (Request { no_kill: true, ..self.0 }),
    {
        let mut s = self;
        s.0.no_kill = true;
        s
    }

    /// Sets the form body of a POST request.
    pub fn post_data(self, post_data: &[(&str, &str)]) -> (r: Self)
        ensures
            r.0.post_data matches Some(d) && d@ == form_encoding(pairs_view(post_data@)),
            r.0 == (Request { post_data: r.0.post_data, ..self.0 }),
    {
        let mut s = self;
        s.0.post_data = Some(encode_form(post_data));
        s
    }

    /// Lets the response come from, and go to, the cache.
    pub fn enable_cache(self) -> (r: Self)
        ensures
            r.0 == (Request { enable_cache: true, ..self.0 }),
    {
        let mut s = self;
        s.0.enable_cache = true;
        s
    }

    /// Keeps the request away from the cache.
    pub fn disable_cache(self) -> (r: Self)
        ensures
            r.0 == (Request { enable_cache: false, ..self.0 }),
    {
        let mut s = self;
        s.0.enable_cache = false;
        s
    }

    /// Sets the number of failed attempts after which the request gives up.
    pub fn attempts(self, attempts: usize) -> (r: Self)
        ensures
            r.0 == (Request { attempts, ..self.0 }),
    {
        let mut s = self;
        s.0.attempts = attempts;
        s
    }

    /// The finished request.
    pub fn build(self) -> (r: Request)
        ensures
            r == self.0,
    {
        self.0
    }
}

} // verus!
