use conn_pool::backend::Reply;
use conn_pool::checkout::{Signal, Wake};
use conn_pool::error::{Error, ErrorKind, MobcError, PoolFailure};
use conn_pool::pool::{Grant, Pool, PoolConfig};
use conn_pool::pooled::{Move, PooledRequest, Report, Task};
use conn_pool::session::{Event, Request};

fn pool(max_size: usize, max_waiting: usize) -> Pool {
    Pool::new(PoolConfig { max_size, max_waiting, timeout_ms: 400 })
}

fn request(key: &str, value: &str) -> Request {
    Request { key: key.to_string(), value: value.to_string(), ttl_seconds: 120 }
}

fn failure(kind: redis::ErrorKind, text: &'static str) -> redis::RedisError {
    redis::RedisError::from((kind, text))
}

fn advance(request: PooledRequest, pool: &mut Pool, report: Report) -> (PooledRequest, Move) {
    let (request, next) = request.advance(pool, report);
    (request, next.expect("the report fits"))
}

/// Brings a request to the point where it holds a connection and has stored
/// its value.
fn connected(pool: &mut Pool, caller: u64, key: &str, value: &str) -> (PooledRequest, usize) {
    let (job, next) = PooledRequest::begin(pool, caller, request(key, value));
    let report = match next.task {
        Task::Open(_) => Report::Checkout(Signal::Opened),
        Task::Probe(_) => Report::Checkout(Signal::Alive),
        other => panic!("not served: {:?}", other),
    };
    let (job, next) = advance(job, pool, report);
    let conn = match next.task {
        Task::Store { conn, .. } => conn,
        other => panic!("not writing: {:?}", other),
    };
    (job, conn)
}

#[test]
fn pooled_request_writes_reads_and_gives_back() {
    let mut pool = pool(2, 1);
    let (job, next) = PooledRequest::begin(&mut pool, 7, request("mobc_hello", "mobc_world"));
    assert_eq!(job.caller(), 7);
    assert_eq!(job.holds(), None);
    assert!(matches!(next.task, Task::Open(0)));
    assert_eq!(next.wake, None);

    let (job, next) = advance(job, &mut pool, Report::Checkout(Signal::Opened));
    match next.task {
        Task::Store { conn, key, value, ttl_seconds } => {
            assert_eq!(conn, 0);
            assert_eq!(key, "mobc_hello");
            assert_eq!(value, "mobc_world");
            assert_eq!(ttl_seconds, 120);
        }
        other => panic!("unexpected: {:?}", other),
    }
    assert_eq!(job.holds(), Some(0));
    assert_eq!(pool.checked_out_count(), 1);

    let (job, next) = advance(job, &mut pool, Report::Command(Event::Stored));
    match next.task {
        Task::Fetch { conn, key } => {
            assert_eq!(conn, 0);
            assert_eq!(key, "mobc_hello");
        }
        other => panic!("unexpected: {:?}", other),
    }
    assert_eq!(job.holds(), Some(0));

    let (job, next) =
        advance(job, &mut pool, Report::Command(Event::Fetched(Reply::holding("mobc_world"))));
    match next.task {
        Task::Finish(Ok(text)) => assert_eq!(text, "mobc_world"),
        other => panic!("unexpected: {:?}", other),
    }
    assert_eq!(next.wake, None);
    assert_eq!(job.holds(), None);
    assert_eq!(pool.checked_out_count(), 0);
    assert_eq!(pool.idle_count(), 1);
}

#[test]
fn connection_goes_back_when_the_write_fails() {
    let mut pool = pool(1, 0);
    let (job, conn) = connected(&mut pool, 1, "k", "v");
    let report = Report::Command(Event::StoreFailed(failure(redis::ErrorKind::IoError, "reset")));
    let (job, next) = advance(job, &mut pool, report);
    assert!(matches!(
        next.task,
        Task::Finish(Err(Error::MobcError(MobcError::RedisCMDError(_))))
    ));
    assert_eq!(job.holds(), None);
    assert!(!pool.is_checked_out(conn));
    assert_eq!(pool.checked_out_count(), 0);
    assert_eq!(pool.idle_count(), 1);
}

#[test]
fn connection_goes_back_when_the_read_fails() {
    let mut pool = pool(1, 0);
    let (job, _) = connected(&mut pool, 1, "k", "v");
    let (job, _) = advance(job, &mut pool, Report::Command(Event::Stored));
    let report = Report::Command(Event::FetchFailed(failure(redis::ErrorKind::IoError, "reset")));
    let (job, next) = advance(job, &mut pool, report);
    match next.task {
        Task::Finish(Err(error)) => assert_eq!(error.kind(), ErrorKind::Command),
        other => panic!("unexpected: {:?}", other),
    }
    assert_eq!(job.holds(), None);
    assert_eq!(pool.checked_out_count(), 0);
}

#[test]
fn connection_goes_back_when_the_value_is_absent() {
    let mut pool = pool(1, 0);
    let (job, _) = connected(&mut pool, 1, "k", "v");
    let (job, _) = advance(job, &mut pool, Report::Command(Event::Stored));
    let (job, next) = advance(job, &mut pool, Report::Command(Event::Fetched(Reply::Nil)));
    match next.task {
        Task::Finish(Err(error)) => assert_eq!(error.kind(), ErrorKind::Type),
        other => panic!("unexpected: {:?}", other),
    }
    assert_eq!(job.holds(), None);
    assert_eq!(pool.checked_out_count(), 0);
    assert_eq!(pool.idle_count(), 1);
}

#[test]
fn returned_connection_goes_to_the_waiting_request() {
    let mut pool = pool(1, 1);
    let (first, conn) = connected(&mut pool, 1, "a", "1");
    let (second, next) = PooledRequest::begin(&mut pool, 2, request("b", "2"));
    assert!(matches!(next.task, Task::Park { timeout_ms: 400 }));
    let (first, _) = advance(first, &mut pool, Report::Command(Event::Stored));
    let (_, next) = advance(first, &mut pool, Report::Command(Event::Fetched(Reply::holding("1"))));
    assert!(matches!(next.task, Task::Finish(Ok(_))));
    assert_eq!(next.wake, Some(Wake { caller: 2, grant: Grant::Reuse(conn) }));
    assert_eq!(pool.checked_out_count(), 1);
    assert_eq!(pool.idle_count(), 0);

    let (second, next) =
        advance(second, &mut pool, Report::Checkout(Signal::Woken(Grant::Reuse(conn))));
    assert!(matches!(next.task, Task::Probe(c) if c == conn));
    let (second, next) = advance(second, &mut pool, Report::Checkout(Signal::Alive));
    assert!(matches!(next.task, Task::Store { .. }));
    assert_eq!(second.holds(), Some(conn));
}

#[test]
fn request_is_refused_when_pool_and_queue_are_full() {
    let mut pool = pool(1, 0);
    let (_first, _) = connected(&mut pool, 1, "a", "1");
    let (job, next) = PooledRequest::begin(&mut pool, 2, request("b", "2"));
    assert!(matches!(
        next.task,
        Task::Finish(Err(Error::MobcError(MobcError::RedisPoolError(PoolFailure::Exhausted))))
    ));
    assert_eq!(job.holds(), None);
    assert_eq!(pool.checked_out_count(), 1);
    assert_eq!(pool.waiting_count(), 0);
}

#[test]
fn parked_request_times_out() {
    let mut pool = pool(1, 1);
    let (_first, _) = connected(&mut pool, 1, "a", "1");
    let (job, _) = PooledRequest::begin(&mut pool, 2, request("b", "2"));
    let (job, next) = advance(job, &mut pool, Report::Checkout(Signal::TimedOut));
    assert!(matches!(
        next.task,
        Task::Finish(Err(Error::MobcError(MobcError::RedisPoolError(PoolFailure::Timeout))))
    ));
    assert_eq!(job.holds(), None);
    assert_eq!(pool.checked_out_count(), 1);
    assert_eq!(pool.waiting_count(), 0);
}

#[test]
fn request_fails_when_no_connection_can_be_opened() {
    let mut pool = pool(1, 1);
    let (job, _) = PooledRequest::begin(&mut pool, 1, request("a", "1"));
    let (_waiting, _) = PooledRequest::begin(&mut pool, 2, request("b", "2"));
    let report = Report::Checkout(Signal::OpenFailed(failure(redis::ErrorKind::IoError, "down")));
    let (job, next) = advance(job, &mut pool, report);
    assert!(matches!(
        next.task,
        Task::Finish(Err(Error::MobcError(MobcError::RedisClientError(_))))
    ));
    assert_eq!(next.wake, Some(Wake { caller: 2, grant: Grant::Create(0) }));
    assert_eq!(job.holds(), None);
}

#[test]
fn dead_connection_is_replaced_before_the_request_works() {
    let mut pool = pool(1, 0);
    let (job, conn) = connected(&mut pool, 1, "a", "1");
    let (job, _) = advance(job, &mut pool, Report::Command(Event::Stored));
    advance(job, &mut pool, Report::Command(Event::Fetched(Reply::holding("1"))));
    let (job, next) = PooledRequest::begin(&mut pool, 2, request("b", "2"));
    assert!(matches!(next.task, Task::Probe(c) if c == conn));
    let (job, next) = advance(job, &mut pool, Report::Checkout(Signal::Dead));
    assert!(matches!(next.task, Task::Open(c) if c == conn));
    let (job, next) = advance(job, &mut pool, Report::Checkout(Signal::Opened));
    assert!(matches!(next.task, Task::Store { .. }));
    assert_eq!(job.holds(), Some(conn));
}

#[test]
fn abandoned_request_gives_its_connection_back() {
    let mut pool = pool(1, 1);
    let (job, conn) = connected(&mut pool, 1, "a", "1");
    let (_waiting, _) = PooledRequest::begin(&mut pool, 2, request("b", "2"));
    let (job, next) = advance(job, &mut pool, Report::Checkout(Signal::Abandoned));
    assert!(matches!(next.task, Task::Dropped));
    assert_eq!(next.wake, Some(Wake { caller: 2, grant: Grant::Reuse(conn) }));
    assert_eq!(job.holds(), None);
    let (_, refused) = job.advance(&mut pool, Report::Command(Event::Stored));
    assert!(refused.is_none());
}

#[test]
fn abandoned_request_leaves_the_queue() {
    let mut pool = pool(1, 1);
    let (_first, _) = connected(&mut pool, 1, "a", "1");
    let (job, _) = PooledRequest::begin(&mut pool, 2, request("b", "2"));
    let (_, next) = advance(job, &mut pool, Report::Checkout(Signal::Abandoned));
    assert!(matches!(next.task, Task::Dropped));
    assert_eq!(next.wake, None);
    assert_eq!(pool.waiting_count(), 0);
    assert_eq!(pool.checked_out_count(), 1);
}

#[test]
fn report_out_of_place_is_refused() {
    let mut pool = pool(1, 0);
    let (job, _) = PooledRequest::begin(&mut pool, 1, request("a", "1"));
    let (job, refused) = job.advance(&mut pool, Report::Command(Event::Stored));
    assert!(refused.is_none());
    let (job, refused) = job.advance(&mut pool, Report::Command(Event::Connected));
    assert!(refused.is_none());
    let (job, refused) = job.advance(&mut pool, Report::Checkout(Signal::Alive));
    assert!(refused.is_none());
    let (job, _) = advance(job, &mut pool, Report::Checkout(Signal::Opened));
    let (job, refused) = job.advance(&mut pool, Report::Checkout(Signal::Opened));
    assert!(refused.is_none());
    let (job, refused) = job.advance(&mut pool, Report::Command(Event::Released));
    assert!(refused.is_none());
    let (job, refused) = job.advance(&mut pool, Report::Command(Event::Fetched(Reply::Nil)));
    assert!(refused.is_none());
    assert_eq!(job.holds(), Some(0));
    assert_eq!(pool.checked_out_count(), 1);
}

#[test]
fn nothing_follows_the_result() {
    let mut pool = pool(1, 0);
    let (job, _) = connected(&mut pool, 1, "a", "1");
    let (job, _) = advance(job, &mut pool, Report::Command(Event::Stored));
    let (job, _) = advance(job, &mut pool, Report::Command(Event::Fetched(Reply::holding("1"))));
    let (job, refused) = job.advance(&mut pool, Report::Command(Event::Released));
    assert!(refused.is_none());
    let (job, refused) = job.advance(&mut pool, Report::Checkout(Signal::Abandoned));
    assert!(refused.is_none());
    let (_, refused) = job.advance(&mut pool, Report::Checkout(Signal::Opened));
    assert!(refused.is_none());
    assert_eq!(pool.idle_count(), 1);
    assert_eq!(pool.checked_out_count(), 0);
}

#[test]
fn pool_size_is_unchanged_by_a_request() {
    let mut pool = pool(3, 0);
    let (warm, _) = connected(&mut pool, 1, "w", "0");
    let (warm, _) = advance(warm, &mut pool, Report::Command(Event::Stored));
    advance(warm, &mut pool, Report::Command(Event::Fetched(Reply::holding("0"))));
    let before = pool.idle_count() + pool.checked_out_count();
    for caller in 2..20u64 {
        let (job, _) = connected(&mut pool, caller, "k", "v");
        let (job, _) = advance(job, &mut pool, Report::Command(Event::Stored));
        advance(job, &mut pool, Report::Command(Event::Fetched(Reply::holding("v"))));
        assert_eq!(pool.idle_count() + pool.checked_out_count(), before);
        assert_eq!(pool.checked_out_count(), 0);
    }
}
