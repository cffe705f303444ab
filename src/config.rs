//! The library's configuration: the solver address, the cache directory, and the named
//! egress paths.
use vstd::prelude::*;
use crate::api::Api;
use crate::auth::Credentials;
use crate::cache::{Cache, day_text};
use crate::client::{Client, ClientBuilder};
use crate::error::Error;
use crate::proxy::Proxy;
use crate::text::equals;

verus! {

/// The solver address used where none is configured.
pub open spec fn solver_default_spec() -> Seq<char> {
    "http://localhost:8191/v1"@
}

/// The solver address used where none is configured.
pub fn solver_default() -> (r: String)
    ensures
        r@ == solver_default_spec(),
{
    "http://localhost:8191/v1".to_owned()
}

fn copy_option(s: &Option<String>) -> (r: Option<String>)
    ensures
        r == *s,
{
    match s {
        Some(t) => Some(t.clone()),
        None => None,
    }
}

fn as_text(s: &Option<String>) -> (r: Option<&str>)
    ensures
        r is Some <==> s is Some,
        r matches Some(t) ==> t@ == s->0@,
{
    match s {
        Some(t) => Some(t.as_str()),
        None => None,
    }
}

/// The settings of one named egress path.
#[derive(Clone, Debug)]
pub struct ProxyConfig {
    pub url: String,
    pub username: Option<String>,
    pub password: Option<String>,
    pub api: Option<String>,
    pub api_username: Option<String>,
    pub api_password: Option<String>,
    pub api_key: Option<String>,
}

/// Whether the settings name an API user without a password, which is refused.
pub open spec fn half_basic_auth(c: ProxyConfig) -> bool {
    c.api is Some && c.api_key is None && c.api_username is Some && c.api_password is None
}

/// The control API the settings describe: an API key wins over a user name and password.
pub open spec fn api_of(c: ProxyConfig) -> Option<(Seq<char>, Option<Credentials>)> {
    match c.api {
        Some(url) => Some((url@, match c.api_key {
            Some(k) => Some(Credentials::ApiKey(k)),
            None => match (c.api_username, c.api_password) {
                (Some(u), Some(p)) => Some(Credentials::BasicAuth(crate::auth::BasicAuth { username: u, password: p })),
                _ => None,
            },
        })),
        None => None,
    }
}

/// Credentials seen through the text of their fields.
pub open spec fn same_credentials(a: Option<Credentials>, b: Option<Credentials>) -> bool {
    match (a, b) {
        (None, None) => true,
        (Some(Credentials::ApiKey(x)), Some(Credentials::ApiKey(y))) => x@ == y@,
        (Some(Credentials::BasicAuth(x)), Some(Credentials::BasicAuth(y))) => x.username@ == y.username@ && x.password@ == y.password@,
        _ => false,
    }
}

/// The optional control API of a proxy matches what the settings describe.
pub open spec fn api_matches(a: Option<Api>, c: ProxyConfig) -> bool {
    match (a, api_of(c)) {
        (None, None) => true,
        (Some(a), Some((url, cred))) => a.url@ == url && same_credentials(a.credentials, cred),
        _ => false,
    }
}

/// The text of an optional string.
pub open spec fn opt_view(o: Option<String>) -> Option<Seq<char>> {
    match o {
        Some(s) => Some(s@),
        None => None,
    }
}

/// The egress path the settings describe: the password counts only beside a user name.
pub open spec fn proxy_matches(p: Proxy, c: ProxyConfig) -> bool {
    &&& p.url@ == c.url@
    &&& opt_view(p.username) == opt_view(c.username)
    &&& opt_view(p.password) == (if c.username is Some { opt_view(c.password) } else { None })
    &&& api_matches(p.api, c)
}

impl ProxyConfig {
    /// The proxy address.
    pub fn url(&self) -> (r: &str)
        ensures
            r@ == self.url@,
    {
        self.url.as_str()
    }

    /// The proxy user name.
    pub fn username(&self) -> (r: Option<&str>)
        ensures
            r is Some <==> self.username is Some,
            r matches Some(t) ==> t@ == self.username->0@,
    {
        as_text(&self.username)
    }

    /// The proxy password.
    pub fn password(&self) -> (r: Option<&str>)
        ensures
            r is Some <==> self.password is Some,
            r matches Some(t) ==> t@ == self.password->0@,
    {
        as_text(&self.password)
    }

    /// The control API address.
    pub fn api(&self) -> (r: Option<&str>)
        ensures
            r is Some <==> self.api is Some,
            r matches Some(t) ==> t@ == self.api->0@,
    {
        as_text(&self.api)
    }

    /// The control API user name.
    pub fn api_username(&self) -> (r: Option<&str>)
        ensures
            r is Some <==> self.api_username is Some,
            r matches Some(t) ==> t@ == self.api_username->0@,
    {
        as_text(&self.api_username)
    }

    /// The control API password.
    pub fn api_password(&self) -> (r: Option<&str>)
        ensures
            r is Some <==> self.api_password is Some,
            r matches Some(t) ==> t@ == self.api_password->0@,
    {
        as_text(&self.api_password)
    }

    /// The control API key.
    pub fn api_key(&self) -> (r: Option<&str>)
        ensures
            r is Some <==> self.api_key is Some,
            r matches Some(t) ==> t@ == self.api_key->0@,
    {
        as_text(&self.api_key)
    }

    /// The egress path the settings describe; a configuration error where an API user
    /// name comes without its password.
    pub fn to_proxy(&self) -> (r: Result<Proxy, Error>)
        ensures
            r is Err <==> half_basic_auth(*self),
            r matches Ok(p) ==> proxy_matches(p, *self),
            r matches Err(e) ==> e.error_type == crate::error::ErrorType::Config && e.fatal,
    {
        let api = match &self.api {
            Some(url) => {
                match &self.api_key {
                    Some(key) => Some(Api::with_api_key(url.as_str(), key.as_str())),
                    None => match &self.api_username {
                        Some(username) => match &self.api_password {
                            Some(password) => Some(Api::with_basic_auth(url.as_str(), username.as_str(), password.as_str())),
                            None => {
                                return Err(Error::config("API basic authentication requires both username and password"));
                            },
                        },
                        None => Some(Api::new(url.as_str())),
                    },
                }
            },
            None => None,
        };
        let mut proxy = Proxy::builder(self.url.as_str());
        match &self.username {
            Some(username) => {
                proxy = proxy.username(username.as_str());
                match &self.password {
                    Some(password) => {
                        proxy = proxy.password(password.as_str());
                    },
                    None => {},
                }
            },
            None => {},
        }
        match api {
            Some(a) => {
                proxy = proxy.api(a);
            },
            None => {},
        }
        Ok(proxy.build())
    }
}

/// The library's configuration.
#[derive(Clone, Debug)]
pub struct Config {
    pub solver: String,
    pub cache: Option<String>,
    pub proxy: Option<String>,
    /// The named egress paths. A configuration file cannot name a path twice (a TOML
    /// table refuses a repeated key), so a loaded list has unique names and uniqueness is
    /// not required here: where a caller builds a list with a repeated name, a lookup
    /// takes the first entry with that name.
    pub proxies: Vec<(String, ProxyConfig)>,
}

/// The first position of `name` among the names of `proxies`, if any.
pub open spec fn first_named(proxies: Seq<(String, ProxyConfig)>, name: Seq<char>, i: int) -> bool {
    0 <= i < proxies.len() && proxies[i].0@ == name && forall|j: int| 0 <= j < i ==> proxies[j].0@ != name
}

/// Whether a client can be built for the egress path named `proxy`: none is named, or
/// one is configured under that name and its settings are complete.
pub open spec fn client_possible(proxies: Seq<(String, ProxyConfig)>, proxy: Option<Seq<char>>) -> bool {
    proxy is None || exists|i: int| #[trigger] first_named(proxies, proxy->0, i) && !half_basic_auth(proxies[i].1)
}

proof fn lemma_client_possible(proxies: Seq<(String, ProxyConfig)>, name: Seq<char>, i: int)
    requires
        first_named(proxies, name, i),
        !half_basic_auth(proxies[i].1),
    ensures
        client_possible(proxies, Some(name)),
{
    let p = Some(name);
    assert(p->0 == name);
    assert(first_named(proxies, p->0, i));
}

proof fn lemma_first_named_unique(proxies: Seq<(String, ProxyConfig)>, name: Seq<char>, i: int, j: int)
    requires
        first_named(proxies, name, i),
        first_named(proxies, name, j),
    ensures
        i == j,
{
    if i < j {
        assert(proxies[i].0@ == name);
    } else if j < i {
        assert(proxies[j].0@ == name);
    }
}

impl Config {
    /// Starts overriding this configuration.
    pub fn builder(self) -> (r: ConfigBuilder)
        ensures
            r.inner == self,
    {
        ConfigBuilder::new(self)
    }

    /// A configuration with the default solver, no cache, and no egress path.
    pub fn default() -> (r: Config)
        ensures
            r.solver@ == solver_default_spec(),
            r.cache is None,
            r.proxy is None,
            r.proxies@.len() == 0,
    {
        Config { solver: solver_default(), cache: None, proxy: None, proxies: Vec::new() }
    }

    /// The solver address.
    pub fn solver(&self) -> (r: &str)
        ensures
            r@ == self.solver@,
    {
        self.solver.as_str()
    }

    /// The cache directory, if caching is on.
    pub fn cache(&self) -> (r: Option<&str>)
        ensures
            r is Some <==> self.cache is Some,
            r matches Some(t) ==> t@ == self.cache->0@,
    {
        as_text(&self.cache)
    }

    /// The name of the egress path in use, if any.
    pub fn proxy(&self) -> (r: Option<&str>)
        ensures
            r is Some <==> self.proxy is Some,
            r matches Some(t) ==> t@ == self.proxy->0@,
    {
        as_text(&self.proxy)
    }

    /// The names of the configured egress paths, in order.
    pub fn proxies(&self) -> (r: Vec<&str>)
        ensures
            r@.len() == self.proxies@.len(),
            forall|i: int| 0 <= i < r@.len() ==> #[trigger] r@[i]@ == self.proxies@[i].0@,
    {
        let mut r: Vec<&str> = Vec::new();
        let mut i: usize = 0;
        while i < self.proxies.len()
            invariant
                i <= self.proxies@.len(),
                r@.len() == i,
                forall|k: int| 0 <= k < i ==> #[trigger] r@[k]@ == self.proxies@[k].0@,
            decreases self.proxies@.len() - i,
        {
            r.push(self.proxies[i].0.as_str());
            i = i + 1;
        }
        r
    }

    /// The settings of the egress path named `name`: the first with that name.
    pub fn proxy_config(&self, name: &str) -> (r: Option<&ProxyConfig>)
        ensures
            r is None <==> forall|j: int| 0 <= j < self.proxies@.len() ==> self.proxies@[j].0@ != name@,
            r matches Some(c) ==> exists|i: int| first_named(self.proxies@, name@, i) && *c == self.proxies@[i].1,
    {
        let mut i: usize = 0;
        while i < self.proxies.len()
            invariant
                i <= self.proxies@.len(),
                forall|j: int| 0 <= j < i ==> self.proxies@[j].0@ != name@,
            decreases self.proxies@.len() - i,
        {
            if equals(self.proxies[i].0.as_str(), name) {
                assert(first_named(self.proxies@, name@, i as int));
                return Some(&self.proxies[i].1);
            }
            i = i + 1;
        }
        None
    }

    fn build_client(&self, proxy: Option<&str>) -> (r: Result<Client, Error>)
        ensures
            r is Ok <==> client_possible(self.proxies@, match proxy {
                Some(p) => Some(p@),
                None => None,
            }),
            r is Ok ==> (r->Ok_0.solver@ == self.solver@ && r->Ok_0.session is None),
            r is Ok ==> (r->Ok_0.cache is Some <==> self.cache is Some),
            r is Ok ==> (r->Ok_0.proxy is Some <==> proxy is Some),
            r is Ok ==> self.client_matches(r->Ok_0, match proxy {
                Some(p) => Some(p@),
                None => None,
            }),
            r matches Err(e) ==> e.error_type == crate::error::ErrorType::Config && e.fatal,
    {
        let mut builder = ClientBuilder::new(self.solver.as_str());
        match proxy {
            Some(name) => match self.proxy_config(name) {
                Some(pconf) => match pconf.to_proxy() {
                    Ok(p) => {
                        proof {
                            let i = choose|i: int| first_named(self.proxies@, name@, i) && *pconf == self.proxies@[i].1;
                            lemma_client_possible(self.proxies@, name@, i);
                            let sn = Some(name@);
                            assert(sn->0 == name@);
                            assert(first_named(self.proxies@, sn->0, i) && proxy_matches(p, self.proxies@[i].1));
                        }
                        builder = builder.proxy(p);
                    },
                    Err(e) => {
                        proof {
                            let i = choose|i: int| first_named(self.proxies@, name@, i) && *pconf == self.proxies@[i].1;
                            assert forall|j: int| first_named(self.proxies@, name@, j) implies half_basic_auth(self.proxies@[j].1) by {
                                lemma_first_named_unique(self.proxies@, name@, i, j);
                            }
                        }
                        return Err(e);
                    },
                },
                None => {
                    assert(!client_possible(self.proxies@, Some(name@)));
                    let mut message = "invalid proxy `".to_owned();
                    message.append(name);
                    message.append("`");
                    return Err(Error::config(message.as_str()));
                },
            },
            None => {},
        }
        match &self.cache {
            Some(dir) => {
                builder = builder.cache(Cache::for_today(dir.as_str()));
            },
            None => {},
        }
        Ok(builder.build())
    }

    /// The client's egress path is the first one configured under `proxy`, and its cache,
    /// if any, lives in the configured directory.
    pub open spec fn client_matches(&self, c: Client, proxy: Option<Seq<char>>) -> bool {
        &&& (c.proxy matches Some(p) ==> exists|i: int| #[trigger] first_named(self.proxies@, proxy->0, i) && proxy_matches(p, self.proxies@[i].1))
        &&& (c.cache matches Some(k) ==> self.cache matches Some(d) && k.dir@ == d@ && day_text(k.prefix@))
    }

    /// A client for the configured egress path; its cache directory, if any, still has
    /// to be prepared by the caller.
    pub fn to_client(&self) -> (r: Result<Client, Error>)
        ensures
            r is Ok <==> client_possible(self.proxies@, opt_view(self.proxy)),
            r is Ok ==> (r->Ok_0.solver@ == self.solver@ && r->Ok_0.session is None),
            r is Ok ==> (r->Ok_0.proxy is Some <==> self.proxy is Some),
            r is Ok ==> (r->Ok_0.cache is Some <==> self.cache is Some),
            r is Ok ==> self.client_matches(r->Ok_0, opt_view(self.proxy)),
            r matches Err(e) ==> e.error_type == crate::error::ErrorType::Config && e.fatal,
    {
        self.build_client(as_text(&self.proxy))
    }

    /// A client for the egress path named `proxy`.
    pub fn to_client_with_proxy(&self, proxy: &str) -> (r: Result<Client, Error>)
        ensures
            r is Ok <==> client_possible(self.proxies@, Some(proxy@)),
            r is Ok ==> (r->Ok_0.solver@ == self.solver@ && r->Ok_0.session is None && r->Ok_0.proxy is Some),
            r is Ok ==> (r->Ok_0.cache is Some <==> self.cache is Some),
            r is Ok ==> self.client_matches(r->Ok_0, Some(proxy@)),
            r matches Err(e) ==> e.error_type == crate::error::ErrorType::Config && e.fatal,
    {
        self.build_client(Some(proxy))
    }
}

/// Overrides a loaded configuration step by step.
#[derive(Clone, Debug)]
pub struct ConfigBuilder {
    pub inner: Config,
}

impl ConfigBuilder {
    /// Starts from the default configuration.
    pub fn default() -> (r: Self)
        ensures
            r.inner.solver@ == solver_default_spec(),
            r.inner.cache is None,
            r.inner.proxy is None,
            r.inner.proxies@.len() == 0,
    {
        ConfigBuilder { inner: Config::default() }
    }

    /// Starts from a loaded configuration.
    pub fn new(inner: Config) -> (r: Self)
        ensures
            r.inner == inner,
    {
        ConfigBuilder { inner }
    }

    /// Overrides the solver address, where one is given.
    pub fn solver(self, solver: Option<String>) -> (r: Self)
        ensures
            r.inner == (Config { solver: match solver { Some(s) => s, None => self.inner.solver }, ..self.inner }),
    {
        let mut s = self;
        match solver {
            Some(v) => {
                s.inner.solver = v;
            },
            None => {},
        }
        s
    }

    /// Turns caching off, where asked.
    pub fn disable_cache(self, disable_cache: bool) -> (r: Self)
        ensures
            r.inner == (Config { cache: if disable_cache { None } else { self.inner.cache }, ..self.inner }),
    {
        let mut s = self;
        if disable_cache {
            s.inner.cache = None;
        }
        s
    }

    /// Overrides the cache directory, where one is given.
    pub fn cache(self, cache: Option<String>) -> (r: Self)
        ensures
            r.inner == (Config { cache: if cache is Some { cache } else { self.inner.cache }, ..self.inner }),
    {
        let mut s = self;
        match cache {
            Some(v) => {
                s.inner.cache = Some(v);
            },
            None => {},
        }
        s
    }

    /// Overrides the egress path in use, where one is named.
    pub fn proxy(self, proxy: Option<String>) -> (r: Self)
        ensures
            r.inner == (Config { proxy: if proxy is Some { proxy } else { self.inner.proxy }, ..self.inner }),
    {
        let mut s = self;
        match proxy {
            Some(v) => {
                s.inner.proxy = Some(v);
            },
            None => {},
        }
        s
    }

    /// The finished configuration.
    pub fn build(self) -> (r: Config)
        ensures
            r == self.inner,
    {
        self.inner
    }
}

} // verus!
