//! A resilient fetch layer for pages behind browser challenges.
//!
//! Pages are fetched through a challenge-solving service, optionally over a restartable
//! egress path. The library holds the decisions: how a solver answer is judged
//! (`solution`), when a request is retried and how it recovers (`retry`), how an egress
//! path is restarted and awaited (`egress`), which cache entries are live (`cache`), and
//! how workers share a backlog (`pool`, `worker`). Network and file access are left to
//! the caller, who performs the actions these state machines ask for.
use vstd::prelude::*;

pub mod api;
pub mod auth;
pub mod book;
pub mod cache;
pub mod client;
pub mod config;
pub mod egress;
pub mod error;
pub mod naming;
pub mod parser;
pub mod pool;
pub mod proxy;
pub mod request;
pub mod retry;
pub mod settings;
pub mod solution;
pub mod text;
pub mod worker;

verus! {

} // verus!
