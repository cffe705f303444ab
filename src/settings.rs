//! The command line's settings: options given on the command line merged over the
//! configuration file, where the command line wins.
use vstd::prelude::*;
use crate::api::Api;
use crate::cache::{Cache, day_text};
use crate::client::{Client, ClientBuilder};
use crate::auth::{BasicAuth, Credentials};
use crate::config::{opt_view, same_credentials, solver_default, solver_default_spec};
use crate::proxy::Proxy;
use crate::text::equals;

verus! {

/// The settings of one named egress path in the configuration file.
#[derive(Clone, Debug)]
pub struct ProxyConfig {
    pub url: String,
    pub username: Option<String>,
    pub password: Option<String>,
    pub api: Option<String>,
    pub api_username: Option<String>,
    pub api_password: Option<String>,
    pub api_key: Option<String>,
}

/// The credentials of the control API the settings describe: an API key wins, otherwise a
/// complete user name and password pair gives basic authentication, otherwise none.
pub open spec fn lenient_credentials(c: ProxyConfig) -> Option<Credentials> {
    match c.api_key {
        Some(k) => Some(Credentials::ApiKey(k)),
        None => match (c.api_username, c.api_password) {
            (Some(u), Some(p)) => Some(Credentials::BasicAuth(BasicAuth { username: u, password: p })),
            _ => None,
        },
    }
}

/// The egress path `p` is the one the settings `c` describe: the same address, the user
/// name, the password only beside a user name, and the control API with its credentials.
pub open spec fn describes(p: Proxy, c: ProxyConfig) -> bool {
    &&& p.url@ == c.url@
    &&& opt_view(p.username) == opt_view(c.username)
    &&& opt_view(p.password) == (if c.username is Some { opt_view(c.password) } else { None })
    &&& (p.api is Some <==> c.api is Some)
    &&& (p.api matches Some(a) ==> a.url@ == c.api->0@ && same_credentials(a.credentials, lenient_credentials(c)))
}

impl ProxyConfig {
    /// The egress path the settings describe. An API key wins over a user name and
    /// password; an incomplete user name and password pair leaves the API unauthenticated.
    pub fn to_proxy(&self) -> (r: Proxy)
        ensures
            describes(r, *self),
    {
        let api = match &self.api {
            Some(url) => match &self.api_key {
                Some(key) => Some(Api::with_api_key(url.as_str(), key.as_str())),
                None => match (&self.api_username, &self.api_password) {
                    (Some(username), Some(password)) => Some(Api::with_basic_auth(url.as_str(), username.as_str(), password.as_str())),
                    _ => Some(Api::new(url.as_str())),
                },
            },
            None => None,
        };
        let mut proxy = Proxy::builder(self.url.as_str());
        match &self.username {
            Some(username) => {
                proxy = proxy.username(username.as_str());
                match &self.password {
                    Some(password) => {
                        proxy = proxy.password(password.as_str());
                    },
                    None => {},
                }
            },
            None => {},
        }
        match api {
            Some(a) => {
                proxy = proxy.api(a);
            },
            None => {},
        }
        proxy.build()
    }
}

/// What the configuration file holds.
#[derive(Clone, Debug)]
pub struct ConfigFile {
    pub solver: String,
    pub cache: Option<String>,
    pub proxy: Option<String>,
    /// The named egress paths. A configuration file cannot name a path twice (a TOML
    /// table refuses a repeated key), so a loaded list has unique names and uniqueness is
    /// not required here: where a caller builds a list with a repeated name, a lookup
    /// takes the first entry with that name.
    pub proxies: Vec<(String, ProxyConfig)>,
}

impl ConfigFile {
    /// What an absent or unreadable configuration file stands for.
    pub fn default() -> (r: Self)
        ensures
            r.solver@ == solver_default_spec(),
            r.cache is None,
            r.proxy is None,
            r.proxies@.len() == 0,
    {
        ConfigFile { solver: solver_default(), cache: None, proxy: None, proxies: Vec::new() }
    }
}

/// The merged settings.
#[derive(Clone, Debug)]
pub struct Config {
    pub config_file: Option<String>,
    pub solver: String,
    pub cache: Option<String>,
    pub proxy: Option<ProxyConfig>,
}

/// The first position of `name` among the names of `proxies`, if any.
pub open spec fn first_position(proxies: Seq<(String, ProxyConfig)>, name: Seq<char>) -> Option<int> {
    if exists|i: int| 0 <= i < proxies.len() && proxies[i].0@ == name {
        Some(choose|i: int| 0 <= i < proxies.len() && proxies[i].0@ == name && forall|j: int| 0 <= j < i ==> proxies[j].0@ != name)
    } else {
        None
    }
}

fn find_named(proxies: &Vec<(String, ProxyConfig)>, name: &str) -> (r: Option<usize>)
    ensures
        r is None <==> forall|j: int| 0 <= j < proxies@.len() ==> proxies@[j].0@ != name@,
        r matches Some(i) ==> i < proxies@.len() && proxies@[i as int].0@ == name@ && forall|j: int| 0 <= j < i ==> proxies@[j].0@ != name@,
{
    let mut i: usize = 0;
    while i < proxies.len()
        invariant
            i <= proxies@.len(),
            forall|j: int| 0 <= j < i ==> proxies@[j].0@ != name@,
        decreases proxies@.len() - i,
    {
        if equals(proxies[i].0.as_str(), name) {
            return Some(i);
        }
        i = i + 1;
    }
    None
}

impl Config {
    /// Merges the command line's options over the configuration file: a given solver wins,
    /// caching is off where disabled and otherwise uses the given directory or the file's,
    /// and the egress path named on the command line, or else in the file, is taken from
    /// the file's list; a name the list lacks means no egress path.
    pub fn merge(
        config_file: Option<String>,
        solver: Option<String>,
        disable_cache: bool,
        cache: Option<String>,
        proxy_name: Option<String>,
        file: ConfigFile,
    ) -> (r: Config)
        ensures
            r.config_file == config_file,
            r.solver == (match solver { Some(s) => s, None => file.solver }),
            r.cache == (if disable_cache { None } else if cache is Some { cache } else { file.cache }),
            ({
                let name = if proxy_name is Some { proxy_name } else { file.proxy };
                match name {
                    Some(n) => match first_position(file.proxies@, n@) {
                        Some(i) => r.proxy == Some(file.proxies@[i].1),
                        None => r.proxy is None,
                    },
                    None => r.proxy is None,
                }
            }),
    {
        let ghost given = file;
        let mut file = file;
        let solver = match solver {
            Some(s) => s,
            None => file.solver,
        };
        let cache = if disable_cache {
            None
        } else if cache.is_some() {
            cache
        } else {
            file.cache
        };
        let name = match proxy_name {
            Some(n) => Some(n),
            None => file.proxy,
        };
        let proxy = match name {
            Some(n) => match find_named(&file.proxies, n.as_str()) {
                Some(i) => {
                    let entry = file.proxies.remove(i);
                    proof {
                        let k = first_position(given.proxies@, n@);
                        assert(k == Some(i as int)) by {
                            let c = choose|c: int| 0 <= c < given.proxies@.len() && given.proxies@[c].0@ == n@ && forall|j: int| 0 <= j < c ==> given.proxies@[j].0@ != n@;
                            if c < i {
                            } else if c > i {
                                assert(given.proxies@[i as int].0@ == n@);
                            }
                        }
                    }
                    Some(entry.1)
                },
                None => None,
            },
            None => None,
        };
        Config { config_file, solver, cache, proxy }
    }

    /// A client for the merged settings; its cache directory, if any, still has to be
    /// prepared by the caller.
    pub fn to_client(&self) -> (r: Client)
        ensures
            r.solver@ == self.solver@,
            r.session is None,
            r.proxy is Some <==> self.proxy is Some,
            r.proxy matches Some(p) ==> describes(p, self.proxy->0),
            r.cache is Some <==> self.cache is Some,
            r.cache matches Some(c) ==> c.dir@ == self.cache->0@ && day_text(c.prefix@),
    {
        let mut builder = ClientBuilder::new(self.solver.as_str());
        match &self.proxy {
            Some(p) => {
                builder = builder.proxy(p.to_proxy());
            },
            None => {},
        }
        match &self.cache {
            Some(dir) => {
                builder = builder.cache(Cache::for_today(dir.as_str()));
            },
            None => {},
        }
        builder.build()
    }

    /// A client whose egress path is `proxy` rather than the merged one.
    pub fn to_client_with_proxy(&self, proxy: &ProxyConfig) -> (r: Client)
        ensures
            r.solver@ == self.solver@,
            r.session is None,
            r.proxy matches Some(p) && describes(p, *proxy),
            r.cache is Some <==> self.cache is Some,
            r.cache matches Some(c) ==> c.dir@ == self.cache->0@ && day_text(c.prefix@),
    {
        let mut builder = ClientBuilder::new(self.solver.as_str()).proxy(proxy.to_proxy());
        match &self.cache {
            Some(dir) => {
                builder = builder.cache(Cache::for_today(dir.as_str()));
            },
            None => {},
        }
        builder.build()
    }

    /// The configuration file in use, if any.
    pub fn config_file(&self) -> (r: Option<&str>)
        ensures
            r is Some <==> self.config_file is Some,
            r matches Some(t) ==> t@ == self.config_file->0@,
    {
        match &self.config_file {
            Some(t) => Some(t.as_str()),
            None => None,
        }
    }
}

} // verus!
