//! Failure kinds of a request, by the strategy that served it.
//!
//! The errors of the backend client travel inside these types unopened: the
//! library decides which kind of failure a backend error stands for and never
//! looks at what the error says.

use vstd::prelude::*;
use vstd::std_specs::convert::FromSpecImpl;

verus! {

/// `redis::RedisError`, declared so that it can stand in fields and
/// signatures. Nothing is assumed about what an error value holds.
#[verifier::external_type_specification]
#[verifier::external_body]
pub struct ExRedisError(redis::RedisError);

/// How a request gets its connection.
#[derive(Debug, Clone, Copy, PartialEq, Eq, Structural)]
pub enum Strategy {
    /// A fresh connection is opened for the request and dropped after it.
    Direct,
    /// A connection is borrowed from the pool and given back.
    Pooled,
}

/// Why the pool handed out no connection although the backend was never asked.
#[derive(Debug, Clone, Copy, PartialEq, Eq, Structural)]
pub enum PoolFailure {
    /// The pool was at capacity and no waiting slot was free.
    Exhausted,
    /// The caller waited for the configured time and no connection came back.
    Timeout,
}

/// Why a caller got no connection.
#[derive(Debug)]
pub enum AcquireFault {
    /// The pool turned the caller away or let it wait in vain.
    Pool(PoolFailure),
    /// The backend could not be reached.
    Client(redis::RedisError),
}

/// Failures of a request served over a single-use connection.
#[derive(Debug)]
pub enum DirectError {
    /// The value read back was absent or is no string.
    RedisTypeError(redis::RedisError),
    /// No connection to the backend could be made.
    RedisClientError(redis::RedisError),
    /// The backend refused or failed a command.
    RedisCMDError(redis::RedisError),
}

/// Failures of a request served over a pooled connection.
#[derive(Debug)]
pub enum MobcError {
    /// The pool gave no connection.
    RedisPoolError(PoolFailure),
    /// The value read back was absent or is no string.
    RedisTypeError(redis::RedisError),
    /// No connection to the backend could be made.
    RedisClientError(redis::RedisError),
    /// The backend refused or failed a command.
    RedisCMDError(redis::RedisError),
}

/// What a request can fail with.
#[derive(Debug)]
pub enum Error {
    DirectError(DirectError),
    MobcError(MobcError),
}

/// The kinds of failure that a caller can tell apart.
#[derive(Debug, Clone, Copy, PartialEq, Eq, Structural)]
pub enum ErrorKind {
    /// No connection could be established.
    Client,
    /// A command failed after a connection was there.
    Command,
    /// The read succeeded but gave no string.
    Type,
    /// The pool was at capacity and its queue was full.
    PoolExhausted,
    /// The wait for a pooled connection ran out.
    PoolTimeout,
}

impl PoolFailure {
    /// The kind that the failure is reported as.
    pub open spec fn spec_kind(self) -> ErrorKind {
        match self {
            PoolFailure::Exhausted => ErrorKind::PoolExhausted,
            PoolFailure::Timeout => ErrorKind::PoolTimeout,
        }
    }
}

impl DirectError {
    /// The kind of the failure.
    pub open spec fn spec_kind(self) -> ErrorKind {
        match self {
            DirectError::RedisTypeError(_) => ErrorKind::Type,
            DirectError::RedisClientError(_) => ErrorKind::Client,
            DirectError::RedisCMDError(_) => ErrorKind::Command,
        }
    }

    /// The kind of the failure.
    pub fn kind(&self) -> (kind: ErrorKind)
        ensures
            kind == self.spec_kind(),
    {
        match self {
            DirectError::RedisTypeError(_) => ErrorKind::Type,
            DirectError::RedisClientError(_) => ErrorKind::Client,
            DirectError::RedisCMDError(_) => ErrorKind::Command,
        }
    }
}

impl MobcError {
    /// The kind of the failure.
    pub open spec fn spec_kind(self) -> ErrorKind {
        match self {
            MobcError::RedisPoolError(failure) => failure.spec_kind(),
            MobcError::RedisTypeError(_) => ErrorKind::Type,
            MobcError::RedisClientError(_) => ErrorKind::Client,
            MobcError::RedisCMDError(_) => ErrorKind::Command,
        }
    }

    /// The kind of the failure.
    pub fn kind(&self) -> (kind: ErrorKind)
        ensures
            kind == self.spec_kind(),
    {
        match self {
            MobcError::RedisPoolError(PoolFailure::Exhausted) => ErrorKind::PoolExhausted,
            MobcError::RedisPoolError(PoolFailure::Timeout) => ErrorKind::PoolTimeout,
            MobcError::RedisTypeError(_) => ErrorKind::Type,
            MobcError::RedisClientError(_) => ErrorKind::Client,
            MobcError::RedisCMDError(_) => ErrorKind::Command,
        }
    }
}

impl Error {
    /// The strategy that met the failure.
    pub open spec fn spec_strategy(self) -> Strategy {
        match self {
            Error::DirectError(_) => Strategy::Direct,
            Error::MobcError(_) => Strategy::Pooled,
        }
    }

    /// The strategy that met the failure.
    pub fn strategy(&self) -> (strategy: Strategy)
        ensures
            strategy == self.spec_strategy(),
    {
        match self {
            Error::DirectError(_) => Strategy::Direct,
            Error::MobcError(_) => Strategy::Pooled,
        }
    }

    /// The failure to connect, as `strategy` reports it.
    pub open spec fn spec_client(strategy: Strategy, cause: redis::RedisError) -> Error {
        match strategy {
            Strategy::Direct => Error::DirectError(DirectError::RedisClientError(cause)),
            Strategy::Pooled => Error::MobcError(MobcError::RedisClientError(cause)),
        }
    }

    /// The failure to connect, as `strategy` reports it.
    pub fn client(strategy: Strategy, cause: redis::RedisError) -> (error: Error)
        ensures
            error == Error::spec_client(strategy, cause),
    {
        match strategy {
            Strategy::Direct => Error::DirectError(DirectError::RedisClientError(cause)),
            Strategy::Pooled => Error::MobcError(MobcError::RedisClientError(cause)),
        }
    }

    /// The failure of a command, as `strategy` reports it.
    pub open spec fn spec_command(strategy: Strategy, cause: redis::RedisError) -> Error {
        match strategy {
            Strategy::Direct => Error::DirectError(DirectError::RedisCMDError(cause)),
            Strategy::Pooled => Error::MobcError(MobcError::RedisCMDError(cause)),
        }
    }

    /// The failure of a command, as `strategy` reports it.
    pub fn command(strategy: Strategy, cause: redis::RedisError) -> (error: Error)
        ensures
            error == Error::spec_command(strategy, cause),
    {
        match strategy {
            Strategy::Direct => Error::DirectError(DirectError::RedisCMDError(cause)),
            Strategy::Pooled => Error::MobcError(MobcError::RedisCMDError(cause)),
        }
    }

    /// The failure to read a string, as `strategy` reports it.
    pub open spec fn spec_wrong_type(strategy: Strategy, cause: redis::RedisError) -> Error {
        match strategy {
            Strategy::Direct => Error::DirectError(DirectError::RedisTypeError(cause)),
            Strategy::Pooled => Error::MobcError(MobcError::RedisTypeError(cause)),
        }
    }

    /// The failure to read a string, as `strategy` reports it.
    pub fn wrong_type(strategy: Strategy, cause: redis::RedisError) -> (error: Error)
        ensures
            error == Error::spec_wrong_type(strategy, cause),
    {
        match strategy {
            Strategy::Direct => Error::DirectError(DirectError::RedisTypeError(cause)),
            Strategy::Pooled => Error::MobcError(MobcError::RedisTypeError(cause)),
        }
    }

    /// The failure to get a connection, as `strategy` reports it. Only the
    /// pooled strategy knows failures of the pool.
    pub open spec fn spec_acquire(strategy: Strategy, fault: AcquireFault) -> Option<Error> {
        match (strategy, fault) {
            (_, AcquireFault::Client(cause)) => Some(Error::spec_client(strategy, cause)),
            (Strategy::Pooled, AcquireFault::Pool(failure)) => Some(
                Error::MobcError(MobcError::RedisPoolError(failure)),
            ),
            (Strategy::Direct, AcquireFault::Pool(_)) => None,
        }
    }

    /// The failure to get a connection, as `strategy` reports it.
    pub fn acquire(strategy: Strategy, fault: AcquireFault) -> (error: Result<Error, AcquireFault>)
        ensures
            match Error::spec_acquire(strategy, fault) {
                Some(expected) => error == Ok::<Error, AcquireFault>(expected),
                None => error == Err::<Error, AcquireFault>(fault),
            },
    {
        match (strategy, fault) {
            (_, AcquireFault::Client(cause)) => Ok(Error::client(strategy, cause)),
            (Strategy::Pooled, AcquireFault::Pool(failure)) => Ok(
                Error::MobcError(MobcError::RedisPoolError(failure)),
            ),
            (Strategy::Direct, AcquireFault::Pool(failure)) => Err(AcquireFault::Pool(failure)),
        }
    }

    /// The backend error behind the failure. A failure of the pool has none,
    /// and nothing is said of the value then.
    pub open spec fn spec_cause(self) -> redis::RedisError {
        match self {
            Error::DirectError(DirectError::RedisTypeError(cause)) => cause,
            Error::DirectError(DirectError::RedisClientError(cause)) => cause,
            Error::DirectError(DirectError::RedisCMDError(cause)) => cause,
            Error::MobcError(MobcError::RedisTypeError(cause)) => cause,
            Error::MobcError(MobcError::RedisClientError(cause)) => cause,
            Error::MobcError(MobcError::RedisCMDError(cause)) => cause,
            Error::MobcError(MobcError::RedisPoolError(_)) => arbitrary(),
        }
    }

    /// The kind of the failure, whichever strategy met it.
    pub open spec fn spec_kind(self) -> ErrorKind {
        match self {
            Error::DirectError(e) => e.spec_kind(),
            Error::MobcError(e) => e.spec_kind(),
        }
    }

    /// The kind of the failure, whichever strategy met it.
    pub fn kind(&self) -> (kind: ErrorKind)
        ensures
            kind == self.spec_kind(),
    {
        match self {
            Error::DirectError(e) => e.kind(),
            Error::MobcError(e) => e.kind(),
        }
    }
}

impl From<DirectError> for Error {
    fn from(e: DirectError) -> (error: Error) {
        Error::DirectError(e)
    }
}

impl FromSpecImpl<DirectError> for Error {
    open spec fn obeys_from_spec() -> bool {
        true
    }

    open spec fn from_spec(e: DirectError) -> Error {
        Error::DirectError(e)
    }
}

impl From<MobcError> for Error {
    fn from(e: MobcError) -> (error: Error) {
        Error::MobcError(e)
    }
}

impl FromSpecImpl<MobcError> for Error {
    open spec fn obeys_from_spec() -> bool {
        true
    }

    open spec fn from_spec(e: MobcError) -> Error {
        Error::MobcError(e)
    }
}

} // verus!
