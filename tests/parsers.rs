use wnrake::error::ErrorType;
use wnrake::parser::{FanfictionParser, RanobesParser, RoyalRoadParser, ScribbleHubParser, WnParser};

#[test]
fn domains_select_parsers() {
    assert_eq!(WnParser::from_domain(Some("www.royalroad.com")).unwrap(), WnParser::RoyalRoad(RoyalRoadParser));
    assert_eq!(WnParser::from_domain(Some("fanfiction.net")).unwrap(), WnParser::Fanfiction(FanfictionParser));
    assert_eq!(WnParser::from_domain(Some("ranobes.top")).unwrap(), WnParser::Ranobes(RanobesParser));
    assert_eq!(WnParser::from_domain(Some("www.scribblehub.com")).unwrap(), WnParser::ScribbleHub(ScribbleHubParser));
    assert_eq!(WnParser::from_domain(Some("example.com")).unwrap_err().error_type, ErrorType::Parser);
    assert_eq!(WnParser::from_domain(None).unwrap_err().error_type, ErrorType::Parser);
}

#[test]
fn addresses_select_parsers() {
    assert_eq!(WnParser::try_from("https://www.scribblehub.com/series/1/x/").unwrap(), WnParser::ScribbleHub(ScribbleHubParser));
    assert_eq!(WnParser::try_from("https://example.com/a").unwrap_err().error_type, ErrorType::Parser);
    assert_eq!(WnParser::try_from("not an address").unwrap_err().error_type, ErrorType::Solver);
    assert_eq!(WnParser::try_from("https://127.0.0.1/a").unwrap_err().error_type, ErrorType::Parser);
}

#[test]
fn chapter_requests_wait_for_site_content() {
    let r = WnParser::RoyalRoad(RoyalRoadParser).chapter_request("https://www.royalroad.com/fiction/1/c/2");
    assert_eq!(r.cmd, "request.get");
    assert_eq!(r.url, "https://www.royalroad.com/fiction/1/c/2");
    let w = r.wait_for.as_ref().unwrap();
    assert_eq!((w.kind_name(), w.value()), ("selector", "div.chapter-content"));
    assert!(!r.no_kill);
    assert!(r.enable_cache);
    let f = WnParser::Fanfiction(FanfictionParser).chapter_request("u");
    assert_eq!(f.wait_for.as_ref().unwrap().value(), "storytext");
    let r2 = WnParser::Ranobes(RanobesParser).chapter_request("u");
    assert_eq!(r2.wait_for.as_ref().unwrap().value(), "arrticle");
    let s = WnParser::ScribbleHub(ScribbleHubParser).chapter_request("u");
    assert_eq!(s.wait_for.as_ref().unwrap().kind_name(), "id");
    assert_eq!(s.wait_for.as_ref().unwrap().value(), "main read chapter");
}
