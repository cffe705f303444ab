use std::collections::BTreeMap;
use wnrake::client::Client;
use wnrake::error::{Error, ErrorType};
use wnrake::naming::url_to_filename;
use wnrake::pool::{worker_count, ItemState, Pool};
use wnrake::request::Request;
use wnrake::retry::{RetryAction, RetryEvent};
use wnrake::solution::{Response, Solution};
use wnrake::worker::{Worker, WorkerAction, WorkerEvent, WorkerPhase};

fn urls(list: &[&str]) -> Vec<String> {
    list.iter().map(|u| u.to_string()).collect()
}

/// Runs workers in turn, one action each, until all have exited. `fetch` says whether the
/// fetch of an address succeeds. Returns the outputs by position and the worker phases.
fn run_pool(pool: &mut Pool, workers: usize, fetch: &mut dyn FnMut(&str) -> bool) -> BTreeMap<usize, String> {
    let mut outputs = BTreeMap::new();
    let mut state: Vec<(Worker, WorkerAction, Option<(usize, String)>)> =
        (0..workers).map(|_| {
            let w = Worker::new();
            let a = w.resume();
            (w, a, None)
        }).collect();
    loop {
        let mut all_done = true;
        for (w, action, item) in state.iter_mut() {
            *action = match *action {
                WorkerAction::CreateSession => w.step(WorkerEvent::SessionCreated(true)),
                WorkerAction::Take => {
                    *item = pool.take();
                    w.step(WorkerEvent::Taken(item.is_some()))
                }
                WorkerAction::Fetch => {
                    let (index, url) = item.clone().unwrap();
                    let ok = fetch(&url);
                    if ok {
                        assert!(pool.complete(index));
                        outputs.insert(index, url_to_filename(index, &url));
                    }
                    w.step(WorkerEvent::Fetched(ok))
                }
                WorkerAction::Requeue => {
                    assert!(pool.give_back(item.take().unwrap()));
                    w.step(WorkerEvent::Requeued)
                }
                WorkerAction::DestroySession => w.step(WorkerEvent::SessionDestroyed),
                WorkerAction::Exit => WorkerAction::Exit,
            };
            if *action != WorkerAction::Exit {
                all_done = false;
            } else {
                assert_eq!(w.phase, WorkerPhase::Terminated);
            }
        }
        if all_done {
            return outputs;
        }
    }
}

#[test]
fn backlog_drains_when_every_fetch_succeeds() {
    let backlog = urls(&["https://site/1", "https://site/2", "https://site/3", "https://site/4", "https://site/5"]);
    let mut pool = Pool::new(backlog);
    let outputs = run_pool(&mut pool, 3, &mut |_| true);
    assert!(pool.outcome().is_ok());
    assert!(pool.is_empty());
    assert_eq!(outputs.len(), 5);
    assert_eq!(outputs.keys().cloned().collect::<Vec<_>>(), vec![0, 1, 2, 3, 4]);
    assert!(pool.states.iter().all(|s| *s == ItemState::Delivered));
}

#[test]
fn backlog_drains_after_requeues_on_other_workers() {
    let backlog = urls(&["https://site/1", "https://site/2", "https://site/3"]);
    let mut pool = Pool::new(backlog);
    let mut failures_left = 1;
    let outputs = run_pool(&mut pool, 2, &mut |u| {
        if u.ends_with("/2") && failures_left > 0 {
            failures_left -= 1;
            false
        } else {
            true
        }
    });
    assert!(pool.outcome().is_ok());
    assert_eq!(outputs.len(), 3);
}

#[test]
fn always_failing_last_url_leaves_one_undelivered() {
    let backlog = urls(&["https://site/1", "https://site/2", "https://site/3"]);
    let mut pool = Pool::new(backlog);
    let outputs = run_pool(&mut pool, 2, &mut |u| !u.ends_with("/3"));
    let e = pool.outcome().unwrap_err();
    assert_eq!(pool.len(), 1);
    assert_eq!(e.message, "1 URLs were not downloaded");
    assert!(e.fatal);
    assert_eq!(outputs.len(), 2);
}

#[test]
fn give_back_and_complete_refuse_items_not_taken() {
    let mut pool = Pool::new(urls(&["a", "b"]));
    assert!(!pool.complete(0));
    assert!(!pool.give_back((1, "b".to_string())));
    assert!(!pool.complete(9));
    let item = pool.take().unwrap();
    assert_eq!(item, (0, "a".to_string()));
    assert!(pool.give_back(item));
    assert_eq!(pool.take().unwrap().0, 0);
}

fn stub_solver(url: &str, calls: &mut BTreeMap<String, usize>) -> Response {
    let n = calls.entry(url.to_string()).or_insert(0);
    *n += 1;
    if url.ends_with("/2") && *n == 1 {
        Response {
            status: "error".to_string(),
            message: "Error: Error solving the challenge. Timeout".to_string(),
            session: None,
            solution: None,
        }
    } else {
        Response {
            status: "ok".to_string(),
            message: String::new(),
            session: None,
            solution: Some(Solution {
                url: url.to_string(),
                status: 200,
                response: format!("body of {}", url),
                user_agent: "agent".to_string(),
            }),
        }
    }
}

#[test]
fn end_to_end_single_worker_without_egress() {
    let backlog = urls(&["https://site/1", "https://site/2", "https://site/3"]);
    let mut pool = Pool::new(backlog);
    let mut client = Client::new("http://localhost:8191/v1");
    let created = Response { status: "ok".to_string(), message: String::new(), session: Some("s".to_string()), solution: None };
    assert!(client.accept_session(created).is_ok());
    let mut calls = BTreeMap::new();
    let mut delivered: Vec<(usize, String)> = Vec::new();
    let mut restarts = 0;
    while let Some((index, url)) = pool.take() {
        let request = Request::get(&url).build();
        let mut retry = client.retry(&request);
        let mut action = retry.resume();
        let body = loop {
            action = match action {
                RetryAction::Fetch => {
                    let sent = client.prepare(request.clone());
                    assert!(sent.session.is_some());
                    retry.step(RetryEvent::Fetched(stub_solver(&sent.url, &mut calls).into_page()))
                }
                RetryAction::DestroySession => {
                    client.forget_session();
                    retry.step(RetryEvent::SessionDestroyed)
                }
                RetryAction::RestartEgress { .. } => {
                    restarts += 1;
                    retry.step(RetryEvent::EgressRestarted(Ok(())))
                }
                RetryAction::CreateSession => {
                    let again = Response { status: "ok".to_string(), message: String::new(), session: Some("s2".to_string()), solution: None };
                    retry.step(RetryEvent::SessionCreated(client.accept_session(again)))
                }
                RetryAction::Deliver(body) => break body,
                other => panic!("unexpected {:?}", other),
            };
        };
        assert!(pool.complete(index));
        delivered.push((index, body));
    }
    assert!(pool.outcome().is_ok());
    assert_eq!(delivered.iter().map(|d| d.0).collect::<Vec<_>>(), vec![0, 1, 2]);
    assert_eq!(delivered[1].1, "body of https://site/2");
    assert_eq!(calls["https://site/2"], 2);
    assert_eq!(calls["https://site/1"], 1);
    assert_eq!(restarts, 0);
    assert_eq!(client.session(), Some("s2"));
}

#[test]
fn worker_counts() {
    assert_eq!(worker_count(false, 0).unwrap(), 1);
    assert_eq!(worker_count(false, 4).unwrap(), 1);
    assert_eq!(worker_count(true, 3).unwrap(), 3);
    let e = worker_count(true, 0).unwrap_err();
    assert!(e.fatal);
    assert_eq!(e.message, "must have at least 1 proxy configured");
}

#[test]
fn report_keeps_a_lone_worker_error() {
    let mut pool = Pool::new(urls(&["a", "b"]));
    assert!(pool.report(1, None).is_err());
    let item = pool.take().unwrap();
    assert!(pool.give_back(item));
    let e = pool.report(1, Some(Error::status(404))).unwrap_err();
    assert_eq!(e.error_type, ErrorType::Status);
    let e = pool.report(2, Some(Error::status(404))).unwrap_err();
    assert_eq!(e.message, "2 URLs were not downloaded");
    while let Some((i, _)) = pool.take() {
        assert!(pool.complete(i));
    }
    assert!(pool.report(1, Some(Error::status(404))).is_ok());
}
