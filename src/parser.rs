//! The registry of site parsers, chosen by the domain of a book's address.
//!
//! What each site parser extracts from a page is left to the caller; the library only
//! decides which parser an address belongs to.
use vstd::prelude::*;
use crate::error::{Error, ErrorType};
use crate::request::{Request, WaitFor, DEFAULT_ATTEMPTS, DEFAULT_TIMEOUT_MS};
use crate::text::equals;

verus! {

/// The parser for fanfiction.net.
#[derive(Clone, Copy, Debug, PartialEq, Eq, Structural)]
pub struct FanfictionParser;

/// The parser for ranobes.top.
#[derive(Clone, Copy, Debug, PartialEq, Eq, Structural)]
pub struct RanobesParser;

/// The parser for royalroad.com.
#[derive(Clone, Copy, Debug, PartialEq, Eq, Structural)]
pub struct RoyalRoadParser;

/// The parser for scribblehub.com.
#[derive(Clone, Copy, Debug, PartialEq, Eq, Structural)]
pub struct ScribbleHubParser;

/// One of the site parsers.
#[derive(Clone, Copy, Debug, PartialEq, Eq, Structural)]
pub enum WnParser {
    Fanfiction(FanfictionParser),
    Ranobes(RanobesParser),
    RoyalRoad(RoyalRoadParser),
    ScribbleHub(ScribbleHubParser),
}

/// The outcome of parsing an address: `None` where it is not a valid address, otherwise
/// its domain, if it has one.
pub uninterp spec fn parsed_domain(url: Seq<char>) -> Option<Option<Seq<char>>>;

/// Relies on `reqwest::Url::parse` and `Url::domain` to read the domain of an address.
#[verifier::external_body]
fn domain_of(url: &str) -> (r: Option<Option<String>>)
    ensures
        match r {
            None => parsed_domain(url@) is None,
            Some(None) => parsed_domain(url@) == Some(None::<Seq<char>>),
            Some(Some(d)) => parsed_domain(url@) == Some(Some(d@)),
        },
{
    match reqwest::Url::parse(url) {
        Ok(u) => match u.domain() {
            Some(d) => Some(Some(d.to_string())),
            None => Some(None),
        },
        Err(_) => None,
    }
}

/// The parser serving a domain, with or without its `www.` prefix.
pub open spec fn parser_for(domain: Seq<char>) -> Option<WnParser> {
    if domain == "fanfiction.net"@ || domain == "www.fanfiction.net"@ {
        Some(WnParser::Fanfiction(FanfictionParser))
    } else if domain == "ranobes.top"@ || domain == "www.ranobes.top"@ {
        Some(WnParser::Ranobes(RanobesParser))
    } else if domain == "royalroad.com"@ || domain == "www.royalroad.com"@ {
        Some(WnParser::RoyalRoad(RoyalRoadParser))
    } else if domain == "scribblehub.com"@ || domain == "www.scribblehub.com"@ {
        Some(WnParser::ScribbleHub(ScribbleHubParser))
    } else {
        None
    }
}

/// The kind and value of the condition a site's chapter page is awaited by.
pub open spec fn chapter_wait(p: WnParser) -> (Seq<char>, Seq<char>) {
    match p {
        WnParser::Fanfiction(_) => ("id"@, "storytext"@),
        WnParser::Ranobes(_) => ("id"@, "arrticle"@),
        WnParser::RoyalRoad(_) => ("selector"@, "div.chapter-content"@),
        WnParser::ScribbleHub(_) => ("id"@, "main read chapter"@),
    }
}

impl WnParser {
    /// The request for a chapter page of this site: a GET that waits for the chapter's
    /// content and lets the solver close its browser afterwards.
    pub fn chapter_request(&self, url: &str) -> (r: Request)
        ensures
            r.cmd@ == "request.get"@,
            r.url@ == url@,
            r.max_timeout == DEFAULT_TIMEOUT_MS,
            r.session is None,
            r.wait_for matches Some(w) && (w.kind_name_spec(), w.value_spec()) == chapter_wait(*self),
            r.cookies is None,
            !r.no_kill,
            r.post_data is None,
            r.enable_cache,
            r.attempts == DEFAULT_ATTEMPTS,
    {
        let wait = match self {
            WnParser::Fanfiction(_) => WaitFor::id("storytext"),
            WnParser::Ranobes(_) => WaitFor::id("arrticle"),
            WnParser::RoyalRoad(_) => WaitFor::selector("div.chapter-content"),
            WnParser::ScribbleHub(_) => WaitFor::id("main read chapter"),
        };
        Request::get(url).wait_for(wait).with_kill().build()
    }

    /// The parser serving `domain`; a parser error for a domain no parser serves, or none.
    pub fn from_domain(domain: Option<&str>) -> (r: Result<WnParser, Error>)
        ensures
            match domain {
                Some(d) => match parser_for(d@) {
                    Some(p) => r == Ok::<WnParser, Error>(p),
                    None => r is Err,
                },
                None => r is Err,
            },
            r matches Err(e) ==> e.error_type == ErrorType::Parser && e.fatal,
    {
        match domain {
            Some(d) => {
                if equals(d, "fanfiction.net") || equals(d, "www.fanfiction.net") {
                    Ok(WnParser::Fanfiction(FanfictionParser))
                } else if equals(d, "ranobes.top") || equals(d, "www.ranobes.top") {
                    Ok(WnParser::Ranobes(RanobesParser))
                } else if equals(d, "royalroad.com") || equals(d, "www.royalroad.com") {
                    Ok(WnParser::RoyalRoad(RoyalRoadParser))
                } else if equals(d, "scribblehub.com") || equals(d, "www.scribblehub.com") {
                    Ok(WnParser::ScribbleHub(ScribbleHubParser))
                } else {
                    Err(Error::parser("invalid url: no parser for this domain"))
                }
            },
            None => Err(Error::parser("invalid url: no domain")),
        }
    }

    /// The parser for the book at `url`: a transport error for an invalid address, a parser
    /// error for an address that no parser serves.
    pub fn try_from(url: &str) -> (r: Result<WnParser, Error>)
        ensures
            match parsed_domain(url@) {
                None => r matches Err(e) && e.error_type == ErrorType::Solver,
                Some(None) => r matches Err(e) && e.error_type == ErrorType::Parser,
                Some(Some(d)) => match parser_for(d) {
                    Some(p) => r == Ok::<WnParser, Error>(p),
                    None => r matches Err(e) && e.error_type == ErrorType::Parser,
                },
            },
    {
        match domain_of(url) {
            None => Err(Error::solver("invalid url")),
            Some(None) => WnParser::from_domain(None),
            Some(Some(d)) => WnParser::from_domain(Some(d.as_str())),
        }
    }
}

} // verus!
