use wnrake::request::{Request, RequestBuilder, Session, WaitFor, DEFAULT_ATTEMPTS, DEFAULT_TIMEOUT_MS};

#[test]
fn get_defaults() {
    let r = Request::get("https://site/1").build();
    assert_eq!(r.cmd, "request.get");
    assert_eq!(r.url, "https://site/1");
    assert_eq!(r.max_timeout, DEFAULT_TIMEOUT_MS);
    assert!(r.session.is_none() && r.wait_for.is_none() && r.cookies.is_none());
    assert!(r.no_kill && r.enable_cache);
    assert!(r.post_data.is_none());
    assert_eq!(r.attempts, DEFAULT_ATTEMPTS);
}

#[test]
fn post_defaults() {
    let r = RequestBuilder::post("https://site/form").build();
    assert_eq!(r.cmd, "request.post");
    assert_eq!(r.post_data.as_deref(), Some(""));
    assert!(!r.enable_cache);
}

#[test]
fn post_data_is_form_encoded() {
    let r = Request::post("https://site/form").post_data(&[("a", "1"), ("b", "x y&z")]).build();
    assert_eq!(r.post_data.as_deref(), Some("a=1&b=x+y%26z"));
    let empty = Request::post("https://site/form").post_data(&[]).build();
    assert_eq!(empty.post_data.as_deref(), Some(""));
}

#[test]
fn builder_options() {
    let r = Request::get("u")
        .wait_for(WaitFor::exact_link("Next"))
        .cookies(&[("k1", "v1"), ("k2", "v2")])
        .with_kill()
        .disable_cache()
        .attempts(7)
        .build();
    let w = r.wait_for.as_ref().unwrap();
    assert_eq!(w.kind_name(), "exact-link");
    assert_eq!(w.value(), "Next");
    let c = r.cookies.as_ref().unwrap();
    assert_eq!(c.len(), 2);
    assert_eq!(c[1].name, "k2");
    assert_eq!(c[1].value, "v2");
    assert!(!r.no_kill);
    assert!(!r.enable_cache);
    assert_eq!(r.attempts, 7);
    let r2 = Request::get("u").disable_cache().enable_cache().with_kill().without_kill().build();
    assert!(r2.enable_cache && r2.no_kill);
}

#[test]
fn wait_condition_names() {
    assert_eq!(WaitFor::id("a").kind_name(), "id");
    assert_eq!(WaitFor::xpath("a").kind_name(), "xpath");
    assert_eq!(WaitFor::link("a").kind_name(), "link");
    assert_eq!(WaitFor::name("a").kind_name(), "name");
    assert_eq!(WaitFor::tag("a").kind_name(), "tag");
    assert_eq!(WaitFor::class("a").kind_name(), "class");
    assert_eq!(WaitFor::selector("#b").value(), "#b");
}

#[test]
fn session_commands() {
    let c = Session::create(None);
    assert_eq!(c.cmd, "sessions.create");
    assert!(c.session.is_none() && c.proxy.is_none());
    let d = Session::destroy("tok");
    assert_eq!(d.cmd, "sessions.destroy");
    assert_eq!(d.session.as_deref(), Some("tok"));
}
