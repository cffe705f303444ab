use wnrake::auth::Credentials;
use wnrake::client::{Client, ClientBuilder, CLIENT_TIMEOUT_MS};
use wnrake::config::{Config, ConfigBuilder, ProxyConfig};
use wnrake::error::ErrorType;
use wnrake::proxy::Proxy;
use wnrake::settings;

fn pconf(url: &str, api: Option<&str>, user: Option<&str>, pass: Option<&str>, key: Option<&str>) -> ProxyConfig {
    ProxyConfig {
        url: url.to_string(),
        username: Some("pu".to_string()),
        password: Some("pp".to_string()),
        api: api.map(|s| s.to_string()),
        api_username: user.map(|s| s.to_string()),
        api_password: pass.map(|s| s.to_string()),
        api_key: key.map(|s| s.to_string()),
    }
}

#[test]
fn api_key_wins_over_basic_auth() {
    let p = pconf("http://vpn:8888", Some("http://vpn:8000"), Some("u"), Some("p"), Some("KEY")).to_proxy().unwrap();
    assert_eq!(p.url(), "http://vpn:8888");
    assert_eq!(p.username(), Some("pu"));
    assert_eq!(p.password(), Some("pp"));
    assert!(matches!(p.api().unwrap().credentials(), Some(Credentials::ApiKey(k)) if k == "KEY"));
}

#[test]
fn api_user_without_password_is_refused() {
    let e = pconf("http://vpn:8888", Some("http://vpn:8000"), Some("u"), None, None).to_proxy().unwrap_err();
    assert_eq!(e.error_type, ErrorType::Config);
    assert!(e.fatal);
    let p = pconf("http://vpn:8888", None, Some("u"), None, None).to_proxy().unwrap();
    assert!(p.api().is_none());
}

#[test]
fn configuration_lookup_and_clients() {
    let config = Config {
        solver: "http://solver/v1".to_string(),
        cache: None,
        proxy: Some("b".to_string()),
        proxies: vec![
            ("a".to_string(), pconf("http://a", None, None, None, None)),
            ("b".to_string(), pconf("http://b", Some("http://b:8000"), None, None, None)),
        ],
    };
    assert_eq!(config.proxies(), vec!["a", "b"]);
    assert_eq!(config.proxy_config("b").unwrap().url(), "http://b");
    assert!(config.proxy_config("c").is_none());
    let client = config.to_client().unwrap();
    assert_eq!(client.solver(), "http://solver/v1");
    assert_eq!(client.proxy().unwrap().url(), "http://b");
    assert!(client.has_egress());
    assert!(client.cache().is_none());
    let e = config.to_client_with_proxy("missing").unwrap_err();
    assert_eq!(e.error_type, ErrorType::Config);
    assert_eq!(e.message, "invalid proxy `missing`");
}

#[test]
fn builder_overrides() {
    let c = ConfigBuilder::default()
        .solver(Some("http://s".to_string()))
        .cache(Some("/c".to_string()))
        .proxy(None)
        .build();
    assert_eq!(c.solver(), "http://s");
    assert_eq!(c.cache(), Some("/c"));
    assert_eq!(c.proxy(), None);
    let d = ConfigBuilder::new(c).disable_cache(true).solver(None).build();
    let e = d.clone().builder().cache(Some("/e".to_string())).build();
    assert_eq!(e.cache(), Some("/e"));
    assert_eq!(d.cache(), None);
    assert_eq!(d.solver(), "http://s");
    assert_eq!(Config::default().solver(), "http://localhost:8191/v1");
}

fn sconf(url: &str) -> settings::ProxyConfig {
    settings::ProxyConfig {
        url: url.to_string(),
        username: None,
        password: Some("ignored".to_string()),
        api: Some("http://api".to_string()),
        api_username: Some("u".to_string()),
        api_password: None,
        api_key: None,
    }
}

#[test]
fn command_line_wins_over_file() {
    let file = settings::ConfigFile {
        solver: "http://file/v1".to_string(),
        cache: Some("/file-cache".to_string()),
        proxy: Some("one".to_string()),
        proxies: vec![("one".to_string(), sconf("http://one")), ("two".to_string(), sconf("http://two"))],
    };
    let merged = settings::Config::merge(Some("cfg.toml".to_string()), None, false, None, Some("two".to_string()), file.clone());
    assert_eq!(merged.solver, "http://file/v1");
    assert_eq!(merged.cache.as_deref(), Some("/file-cache"));
    assert_eq!(merged.proxy.as_ref().unwrap().url, "http://two");
    assert_eq!(merged.config_file(), Some("cfg.toml"));
    let merged = settings::Config::merge(None, Some("http://cli".to_string()), true, Some("/cli".to_string()), Some("three".to_string()), file);
    assert_eq!(merged.solver, "http://cli");
    assert!(merged.cache.is_none());
    assert!(merged.proxy.is_none());
    let d = settings::ConfigFile::default();
    assert_eq!(d.solver, "http://localhost:8191/v1");
}

#[test]
fn lenient_proxy_settings() {
    let p = sconf("http://one").to_proxy();
    assert!(p.username().is_none());
    assert!(p.password().is_none());
    let api = p.api().unwrap();
    assert_eq!(api.url(), "http://api");
    assert!(api.credentials().is_none());
    let mut full = sconf("http://two");
    full.api_password = Some("pw".to_string());
    match full.to_proxy().api().unwrap().credentials() {
        Some(Credentials::BasicAuth(b)) => assert_eq!((b.username(), b.password()), ("u", "pw")),
        other => panic!("unexpected {:?}", other),
    }
    full.api_key = Some("K".to_string());
    assert!(matches!(full.to_proxy().api().unwrap().credentials(), Some(Credentials::ApiKey(k)) if k == "K"));
    let client = settings::Config::merge(None, None, false, None, Some("x".to_string()), settings::ConfigFile::default()).to_client();
    assert!(client.proxy().is_none());
}

#[test]
fn client_preparation() {
    let mut client = ClientBuilder::new("http://s").timeout(5000).proxy(Proxy::new("http://p")).build();
    assert_eq!(client.timeout(), 5000);
    assert!(!client.has_egress());
    assert!(client.destroy_command().is_none());
    let created = wnrake::solution::Response { status: "ok".to_string(), message: String::new(), session: Some("tok".to_string()), solution: None };
    assert!(client.accept_session(created).is_ok());
    let r = client.prepare(wnrake::request::Request::get("https://site/1").build());
    assert_eq!(r.max_timeout, 5000);
    assert_eq!(r.session.as_deref(), Some("tok"));
    assert_eq!(client.destroy_command().unwrap().session.as_deref(), Some("tok"));
    assert_eq!(client.create_command().proxy.unwrap().url(), "http://p");
    client.forget_session();
    assert!(client.session().is_none());
    let plain = Client::new("http://s");
    assert_eq!(plain.timeout(), CLIENT_TIMEOUT_MS);
    assert!(plain.cache_entry(&wnrake::request::Request::get("u").build()).is_none());
    let cached = Client::builder("http://s").cache(wnrake::cache::Cache::with_prefix("d", "2024-01-01")).build();
    assert_eq!(cached.cache_entry(&wnrake::request::Request::get("https://site/1").build()).unwrap(), "2024-01-01_https_site_1");
    assert!(cached.cache_entry(&wnrake::request::Request::post("https://site/1").build()).is_none());
    assert!(Client::with_proxy("http://s", Proxy::new("http://p")).proxy().is_some());
}
