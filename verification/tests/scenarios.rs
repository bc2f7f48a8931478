use conn_pool::backend::Reply;
use conn_pool::checkout::{Signal, Wake};
use conn_pool::error::{AcquireFault, Error, ErrorKind, MobcError, PoolFailure, Strategy};
use conn_pool::pool::{Grant, Pool, PoolConfig};
use conn_pool::pooled::{Move, PooledRequest, Report, Task};
use conn_pool::session::{Action, Event, Request, Session};
use std::collections::HashMap;

/// A backend that keeps what it is given, and counts the connections opened.
struct Store {
    values: HashMap<String, Vec<u8>>,
    opened: usize,
    reachable: bool,
}

impl Store {
    fn new() -> Store {
        Store { values: HashMap::new(), opened: 0, reachable: true }
    }

    fn connect(&mut self) -> Result<(), redis::RedisError> {
        if self.reachable {
            self.opened += 1;
            Ok(())
        } else {
            Err(redis::RedisError::from((redis::ErrorKind::IoError, "connection refused")))
        }
    }

    fn get(&self, key: &str) -> Reply {
        match self.values.get(key) {
            Some(bytes) => Reply::Bulk(bytes.clone()),
            None => Reply::Nil,
        }
    }
}

fn request(key: &str, value: &str) -> Request {
    Request { key: key.to_string(), value: value.to_string(), ttl_seconds: 120 }
}

/// Performs a command of a session against the store.
fn perform(store: &mut Store, action: &Action) -> Event {
    match action {
        Action::Store { key, value, .. } => {
            store.values.insert(key.clone(), value.as_bytes().to_vec());
            Event::Stored
        }
        Action::Fetch { key } => Event::Fetched(store.get(key)),
        other => panic!("not a command: {:?}", other),
    }
}

/// Serves a request over a connection of its own.
fn handle_direct(store: &mut Store, request: Request) -> Result<String, Error> {
    let (mut session, mut action) = Session::begin(Strategy::Direct, request);
    loop {
        let event = match &action {
            Action::Connect => match store.connect() {
                Ok(()) => Event::Connected,
                Err(cause) => Event::ConnectFailed(AcquireFault::Client(cause)),
            },
            Action::Finish(_) => break,
            Action::Release => panic!("a direct request has nothing to release"),
            command => perform(store, command),
        };
        let (moved, next) = session.step(event);
        session = moved;
        action = next.expect("expected event");
    }
    assert!(session.is_closed());
    match action {
        Action::Finish(outcome) => outcome,
        _ => unreachable!(),
    }
}

/// A pooled request that is run until it has to wait, the way a runtime
/// would run it.
struct Pooled {
    job: Option<PooledRequest>,
    outcome: Option<Result<String, Error>>,
}

impl Pooled {
    /// Starts the request and runs it as far as it goes. Whoever it woke on
    /// the way is named in `woken`.
    fn start(
        pool: &mut Pool,
        store: &mut Store,
        caller: u64,
        request: Request,
        woken: &mut Vec<Wake>,
    ) -> Pooled {
        assert!(!pool.is_waiting(caller));
        let (job, next) = PooledRequest::begin(pool, caller, request);
        let mut pooled = Pooled { job: Some(job), outcome: None };
        pooled.run(pool, store, next, woken);
        pooled
    }

    /// Goes on after a report that came from outside: a wake-up or a timeout.
    fn resume(
        &mut self,
        pool: &mut Pool,
        store: &mut Store,
        signal: Signal,
        woken: &mut Vec<Wake>,
    ) {
        let (job, next) = self.job.take().expect("job").advance(pool, Report::Checkout(signal));
        self.job = Some(job);
        self.run(pool, store, next.expect("the report fits"), woken);
    }

    fn run(&mut self, pool: &mut Pool, store: &mut Store, first: Move, woken: &mut Vec<Wake>) {
        let mut next = first;
        loop {
            woken.extend(next.wake);
            let report = match next.task {
                Task::Probe(_) => Report::Checkout(Signal::Alive),
                Task::Open(_) => match store.connect() {
                    Ok(()) => Report::Checkout(Signal::Opened),
                    Err(cause) => Report::Checkout(Signal::OpenFailed(cause)),
                },
                Task::Park { .. } => return,
                Task::Store { key, value, .. } => {
                    store.values.insert(key, value.into_bytes());
                    Report::Command(Event::Stored)
                }
                Task::Fetch { key, .. } => Report::Command(Event::Fetched(store.get(&key))),
                Task::Finish(outcome) => {
                    self.outcome = Some(outcome);
                    return;
                }
                Task::Dropped => panic!("nobody walked away"),
            };
            let (job, moved) = self.job.take().expect("job").advance(pool, report);
            self.job = Some(job);
            next = moved.expect("the report fits");
        }
    }

    fn waits(&self) -> bool {
        self.outcome.is_none()
    }
}

#[test]
fn second_request_waits_for_the_only_connection() {
    let mut pool = Pool::new(PoolConfig { max_size: 1, max_waiting: 1, timeout_ms: 1000 });
    let mut store = Store::new();
    let mut woken = Vec::new();

    // The first request gets the only connection and stops short of its read.
    let (first, next) = PooledRequest::begin(&mut pool, 1, request("mobc_hello", "mobc_world"));
    assert!(matches!(next.task, Task::Open(_)));
    store.connect().unwrap();
    let (first, next) = first.advance(&mut pool, Report::Checkout(Signal::Opened));
    let conn = match next.expect("fits").task {
        Task::Store { conn, key, value, .. } => {
            store.values.insert(key, value.into_bytes());
            conn
        }
        other => panic!("unexpected: {:?}", other),
    };

    // The second request finds the pool full and waits.
    let mut second =
        Pooled::start(&mut pool, &mut store, 2, request("other_key", "other_value"), &mut woken);
    assert!(second.waits());
    assert!(pool.is_waiting(2));
    assert_eq!(pool.checked_out_count(), 1);
    assert!(woken.is_empty());

    // The first request finishes; its release serves the second.
    let (first, next) = first.advance(&mut pool, Report::Command(Event::Stored));
    assert!(matches!(next.expect("fits").task, Task::Fetch { .. }));
    assert!(pool.is_waiting(2));
    let reply = store.get("mobc_hello");
    let (_, next) = first.advance(&mut pool, Report::Command(Event::Fetched(reply)));
    let next = next.expect("fits");
    assert_eq!(next.wake, Some(Wake { caller: 2, grant: Grant::Reuse(conn) }));
    match next.task {
        Task::Finish(Ok(text)) => assert_eq!(text, "mobc_world"),
        other => panic!("unexpected: {:?}", other),
    }

    second.resume(&mut pool, &mut store, Signal::Woken(Grant::Reuse(conn)), &mut woken);
    assert_eq!(second.outcome.take().unwrap().unwrap(), "other_value");
    assert_eq!(store.opened, 1);
    assert_eq!(pool.checked_out_count(), 0);
    assert_eq!(pool.idle_count(), 1);
}

#[test]
fn pooled_requests_share_connections() {
    let mut pool = Pool::new(PoolConfig { max_size: 2, max_waiting: 0, timeout_ms: 1000 });
    let mut store = Store::new();
    let mut woken = Vec::new();
    for round in 0..50u64 {
        let value = format!("value-{}", round);
        let mut job =
            Pooled::start(&mut pool, &mut store, round, request("mobc_hello", &value), &mut woken);
        assert_eq!(job.outcome.take().unwrap().unwrap(), value);
        assert_eq!(pool.checked_out_count(), 0);
    }
    assert_eq!(store.opened, 1);
    assert_eq!(pool.idle_count(), 1);
    assert!(woken.is_empty());
}

#[test]
fn waiting_requests_are_served_in_the_order_they_came() {
    let mut pool = Pool::new(PoolConfig { max_size: 1, max_waiting: 3, timeout_ms: 1000 });
    let mut store = Store::new();
    let mut woken = Vec::new();
    let (holder, _) = PooledRequest::begin(&mut pool, 1, request("h", "0"));
    store.connect().unwrap();
    let (holder, _) = holder.advance(&mut pool, Report::Checkout(Signal::Opened));
    let mut waiting = Vec::new();
    for caller in [30u64, 20, 25] {
        let key = format!("key-{}", caller);
        let job = Pooled::start(&mut pool, &mut store, caller, request(&key, "v"), &mut woken);
        assert!(job.waits());
        waiting.push((caller, job));
    }
    let (holder, _) = holder.advance(&mut pool, Report::Command(Event::Stored));
    let (_, last) = holder.advance(&mut pool, Report::Command(Event::Fetched(Reply::holding("0"))));
    woken.extend(last.expect("fits").wake);
    let mut served = Vec::new();
    while let Some(wake) = woken.pop() {
        served.push(wake.caller);
        let at = waiting.iter().position(|(caller, _)| *caller == wake.caller).expect("waiting");
        let (_, mut job) = waiting.remove(at);
        job.resume(&mut pool, &mut store, Signal::Woken(wake.grant), &mut woken);
        assert_eq!(job.outcome.take().unwrap().unwrap(), "v");
    }
    assert_eq!(served, vec![30, 20, 25]);
    assert_eq!(store.opened, 1);
    assert_eq!(pool.idle_count(), 1);
}

#[test]
fn request_beyond_pool_and_queue_fails_with_pool_exhausted() {
    let mut pool = Pool::new(PoolConfig { max_size: 1, max_waiting: 1, timeout_ms: 1000 });
    let mut store = Store::new();
    let mut woken = Vec::new();
    let (_holder, _) = PooledRequest::begin(&mut pool, 1, request("a", "1"));
    let second = Pooled::start(&mut pool, &mut store, 2, request("b", "2"), &mut woken);
    assert!(second.waits());
    let mut third = Pooled::start(&mut pool, &mut store, 3, request("c", "3"), &mut woken);
    let error = third.outcome.take().unwrap().unwrap_err();
    assert_eq!(error.kind(), ErrorKind::PoolExhausted);
    assert_eq!(pool.checked_out_count(), 1);
    assert_eq!(pool.waiting_count(), 1);
}

#[test]
fn request_that_waits_too_long_fails_with_pool_timeout() {
    let mut pool = Pool::new(PoolConfig { max_size: 1, max_waiting: 1, timeout_ms: 1000 });
    let mut store = Store::new();
    let mut woken = Vec::new();
    let (_holder, _) = PooledRequest::begin(&mut pool, 1, request("a", "1"));
    let mut second = Pooled::start(&mut pool, &mut store, 2, request("b", "2"), &mut woken);
    assert!(second.waits());
    second.resume(&mut pool, &mut store, Signal::TimedOut, &mut woken);
    let error = second.outcome.take().unwrap().unwrap_err();
    assert_eq!(error.kind(), ErrorKind::PoolTimeout);
    assert!(matches!(
        error,
        Error::MobcError(MobcError::RedisPoolError(PoolFailure::Timeout))
    ));
    assert_eq!(pool.checked_out_count(), 1);
    assert_eq!(pool.waiting_count(), 0);
    assert_eq!(store.values.get("b"), None);
}

#[test]
fn pooled_request_fails_with_client_error_when_the_backend_is_down() {
    let mut pool = Pool::new(PoolConfig { max_size: 1, max_waiting: 1, timeout_ms: 1000 });
    let mut store = Store::new();
    let mut woken = Vec::new();
    store.reachable = false;
    let mut job = Pooled::start(&mut pool, &mut store, 1, request("a", "1"), &mut woken);
    assert_eq!(job.outcome.take().unwrap().unwrap_err().kind(), ErrorKind::Client);
    assert_eq!(pool.checked_out_count(), 0);
    store.reachable = true;
    let mut job = Pooled::start(&mut pool, &mut store, 2, request("a", "1"), &mut woken);
    assert_eq!(job.outcome.take().unwrap().unwrap(), "1");
}

#[test]
fn hundred_direct_requests_open_hundred_connections() {
    let mut store = Store::new();
    for round in 0..100 {
        let key = format!("key-{}", round);
        let value = format!("value-{}", round);
        let read = handle_direct(&mut store, request(&key, &value)).expect("served");
        assert_eq!(read, value);
    }
    assert_eq!(store.opened, 100);
}

#[test]
fn outage_fails_only_the_requests_that_meet_it() {
    let mut store = Store::new();
    let mut failed = 0;
    let mut served = 0;
    for round in 0..100 {
        store.reachable = !(40..45).contains(&round);
        let value = format!("value-{}", round);
        match handle_direct(&mut store, request("hello", &value)) {
            Ok(read) => {
                assert_eq!(read, value);
                served += 1;
            }
            Err(error) => {
                assert!((40..45).contains(&round));
                assert_eq!(error.kind(), ErrorKind::Client);
                assert_eq!(error.strategy(), Strategy::Direct);
                failed += 1;
            }
        }
    }
    assert_eq!(failed, 5);
    assert_eq!(served, 95);
    assert_eq!(store.opened, 95);
}

#[test]
fn direct_request_returns_what_it_wrote() {
    let mut store = Store::new();
    let read = handle_direct(&mut store, request("hello", "direct_world")).unwrap();
    assert_eq!(read, "direct_world");
    assert_eq!(store.values.get("hello").map(|v| v.as_slice()), Some("direct_world".as_bytes()));
}
