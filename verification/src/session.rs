//! One request: write a value under a key, read it back, return what was read.
//!
//! Both strategies run the same protocol. They differ in where the connection
//! comes from and in what happens to it afterwards: a pooled connection is
//! given back before the result is handed out, whatever the result is.
//!
//! The session does no I/O. It tells the runtime what to do as an [`Action`]
//! and takes what happened as an [`Event`].

use crate::backend::{read_text, Reply};
use crate::error::{AcquireFault, Error, Strategy};
use vstd::prelude::*;

verus! {

/// The record that a request writes: a value, the key to store it under, and
/// the time in seconds after which the backend forgets it.
#[derive(Debug, Clone, PartialEq, Eq)]
pub struct Request {
    pub key: String,
    pub value: String,
    pub ttl_seconds: u64,
}

/// A request as the contracts see it.
pub struct RequestView {
    pub key: Seq<char>,
    pub value: Seq<char>,
    pub ttl_seconds: u64,
}

impl View for Request {
    type V = RequestView;

    open spec fn view(&self) -> RequestView {
        RequestView { key: self.key@, value: self.value@, ttl_seconds: self.ttl_seconds }
    }
}

/// What the runtime is asked to do.
#[derive(Debug)]
pub enum Action {
    /// Get a connection: open one, or check one out of the pool.
    Connect,
    /// Store the value under the key, to expire after the given seconds.
    Store { key: String, value: String, ttl_seconds: u64 },
    /// Read what the key holds.
    Fetch { key: String },
    /// Give the connection back to the pool.
    Release,
    /// Hand the result to whoever made the request. Nothing follows.
    Finish(Result<String, Error>),
}

/// How a request ends, as the contracts see it.
pub type Outcome = Result<Seq<char>, Error>;

/// An action as the contracts see it.
pub enum ActionView {
    Connect,
    Store { key: Seq<char>, value: Seq<char>, ttl_seconds: u64 },
    Fetch { key: Seq<char> },
    Release,
    Finish(Outcome),
}

/// The result of a request with its string taken by its view.
pub open spec fn outcome_view(outcome: Result<String, Error>) -> Outcome {
    match outcome {
        Ok(text) => Ok(text@),
        Err(error) => Err(error),
    }
}

impl View for Action {
    type V = ActionView;

    open spec fn view(&self) -> ActionView {
        match *self {
            Action::Connect => ActionView::Connect,
            Action::Store { key, value, ttl_seconds } => ActionView::Store {
                key: key@,
                value: value@,
                ttl_seconds,
            },
            Action::Fetch { key } => ActionView::Fetch { key: key@ },
            Action::Release => ActionView::Release,
            Action::Finish(outcome) => ActionView::Finish(outcome_view(outcome)),
        }
    }
}

/// What the runtime reports back.
#[derive(Debug)]
pub enum Event {
    /// A connection is there.
    Connected,
    /// No connection could be had.
    ConnectFailed(AcquireFault),
    /// The value was stored.
    Stored,
    /// Storing failed.
    StoreFailed(redis::RedisError),
    /// The backend answered the read.
    Fetched(Reply),
    /// Reading failed.
    FetchFailed(redis::RedisError),
    /// The connection is back in the pool.
    Released,
}

/// How far a request has come.
#[derive(Debug)]
enum Stage {
    Connecting,
    Writing,
    Reading,
    Releasing(Result<String, Error>),
    Closed,
}

/// How far a request has come, as the contracts see it.
pub enum StageView {
    /// Waiting for a connection.
    Connecting,
    /// The connection is held and the value is being stored.
    Writing,
    /// The connection is held and the value is being read back.
    Reading,
    /// The result is known and the connection is on its way back to the pool.
    Releasing(Outcome),
    /// The result has been handed out.
    Closed,
}

/// A request in progress.
#[derive(Debug)]
pub struct Session {
    strategy: Strategy,
    request: Request,
    stage: Stage,
}

/// A request in progress, as the contracts see it.
pub struct SessionView {
    pub strategy: Strategy,
    pub request: RequestView,
    pub stage: StageView,
}

impl View for Session {
    type V = SessionView;

    closed spec fn view(&self) -> SessionView {
        SessionView {
            strategy: self.strategy,
            request: self.request@,
            stage: match self.stage {
                Stage::Connecting => StageView::Connecting,
                Stage::Writing => StageView::Writing,
                Stage::Reading => StageView::Reading,
                Stage::Releasing(outcome) => StageView::Releasing(outcome_view(outcome)),
                Stage::Closed => StageView::Closed,
            },
        }
    }
}

impl SessionView {
    /// A request on which nothing has been done yet.
    pub open spec fn fresh(strategy: Strategy, request: RequestView) -> SessionView {
        SessionView { strategy, request, stage: StageView::Connecting }
    }

    /// Whether the session holds a connection that it still has to account for.
    pub open spec fn holds_connection(self) -> bool {
        self.stage is Writing || self.stage is Reading
    }

    /// Whether `event` is one that the session can take in its stage.
    pub open spec fn expects(self, event: Event) -> bool {
        match (self.stage, event) {
            (StageView::Connecting, Event::Connected) => true,
            (StageView::Connecting, Event::ConnectFailed(fault)) => Error::spec_acquire(
                self.strategy,
                fault,
            ) is Some,
            (StageView::Writing, Event::Stored) => true,
            (StageView::Writing, Event::StoreFailed(_)) => true,
            (StageView::Reading, Event::Fetched(_)) => true,
            (StageView::Reading, Event::FetchFailed(_)) => true,
            (StageView::Releasing(_), Event::Released) => true,
            _ => false,
        }
    }

    /// How a session that holds a connection ends with `outcome`: at once
    /// if the connection was its own, by way of a release if it was borrowed.
    pub open spec fn conclude(self, outcome: Outcome) -> (StageView, ActionView) {
        match self.strategy {
            Strategy::Direct => (StageView::Closed, ActionView::Finish(outcome)),
            Strategy::Pooled => (StageView::Releasing(outcome), ActionView::Release),
        }
    }

    /// The session takes an event that it expects, becomes `after` and asks
    /// for `action`.
    ///
    /// - With a connection, it stores the value; without one, it ends with
    ///   the failure to connect.
    /// - Once the value is stored, it reads the key back.
    /// - A failed command ends it with that failure. A reply ends it with the
    ///   string that the reply stands for, or with a failure of kind
    ///   `Type` if it stands for none.
    /// - Once its connection is released, it hands out the result.
    pub open spec fn step(self, event: Event, after: SessionView, action: ActionView) -> bool {
        &&& after.strategy == self.strategy
        &&& after.request == self.request
        &&& match (self.stage, event) {
            (StageView::Connecting, Event::Connected) => {
                &&& after.stage == StageView::Writing
                &&& action == (ActionView::Store {
                    key: self.request.key,
                    value: self.request.value,
                    ttl_seconds: self.request.ttl_seconds,
                })
            },
            (StageView::Connecting, Event::ConnectFailed(fault)) => {
                &&& Error::spec_acquire(self.strategy, fault) matches Some(error)
                &&& after.stage == StageView::Closed
                &&& action == ActionView::Finish(Err(error))
            },
            (StageView::Writing, Event::Stored) => {
                &&& after.stage == StageView::Reading
                &&& action == (ActionView::Fetch { key: self.request.key })
            },
            (StageView::Writing, Event::StoreFailed(cause)) => (after.stage, action)
                == self.conclude(Err(Error::spec_command(self.strategy, cause))),
            (StageView::Reading, Event::Fetched(reply)) => match reply.text() {
                Some(text) => (after.stage, action) == self.conclude(Ok(text)),
                None => exists|cause: redis::RedisError|
                    (after.stage, action) == #[trigger] self.conclude(
                        Err(Error::spec_wrong_type(self.strategy, cause)),
                    ),
            },
            (StageView::Reading, Event::FetchFailed(cause)) => (after.stage, action)
                == self.conclude(Err(Error::spec_command(self.strategy, cause))),
            (StageView::Releasing(outcome), Event::Released) => {
                &&& after.stage == StageView::Closed
                &&& action == ActionView::Finish(outcome)
            },
            _ => false,
        }
    }
}

impl Session {
    /// Starts a request. The first thing it needs is a connection.
    pub fn begin(strategy: Strategy, request: Request) -> (started: (Session, Action))
        ensures
            started.0@ == SessionView::fresh(strategy, request@),
            started.1@ == ActionView::Connect,
    {
        (Session { strategy, request, stage: Stage::Connecting }, Action::Connect)
    }

    /// The strategy that serves the request.
    pub fn strategy(&self) -> (strategy: Strategy)
        ensures
            strategy == self@.strategy,
    {
        self.strategy
    }

    /// Whether the result has been handed out.
    pub fn is_closed(&self) -> (closed: bool)
        ensures
            closed == (self@.stage is Closed),
    {
        match self.stage {
            Stage::Closed => true,
            _ => false,
        }
    }

    /// Whether the session holds a connection that it still has to account for.
    pub fn holds_connection(&self) -> (holds: bool)
        ensures
            holds == self@.holds_connection(),
    {
        match self.stage {
            Stage::Writing => true,
            Stage::Reading => true,
            _ => false,
        }
    }

    /// Ends a session that holds a connection, as [`SessionView::conclude`] says.
    fn conclude(strategy: Strategy, request: Request, outcome: Result<String, Error>) -> (moved: (
        Session,
        Option<Action>,
    ))
        ensures
            moved.0@.strategy == strategy,
            moved.0@.request == request@,
            moved.1 matches Some(action) && (moved.0@.stage, action@) == SessionView::fresh(
                strategy,
                request@,
            ).conclude(outcome_view(outcome)),
    {
        match strategy {
            Strategy::Direct => (
                Session { strategy, request, stage: Stage::Closed },
                Some(Action::Finish(outcome)),
            ),
            Strategy::Pooled => (
                Session { strategy, request, stage: Stage::Releasing(outcome) },
                Some(Action::Release),
            ),
        }
    }

    /// Takes an event from the runtime.
    ///
    /// An event that the session expects moves it as [`SessionView::step`]
    /// says. Any other event is refused: the session comes back as it was,
    /// and no action with it.
    pub fn step(self, event: Event) -> (moved: (Session, Option<Action>))
        ensures
            match moved.1 {
                Some(action) => self@.expects(event) && self@.step(event, moved.0@, action@),
                None => !self@.expects(event) && moved.0 == self,
            },
    {
        let ghost pre = self@;
        let Session { strategy, request, stage } = self;
        match (stage, event) {
            (Stage::Connecting, Event::Connected) => {
                let action = Action::Store {
                    key: request.key.clone(),
                    value: request.value.clone(),
                    ttl_seconds: request.ttl_seconds,
                };
                (Session { strategy, request, stage: Stage::Writing }, Some(action))
            },
            (Stage::Connecting, Event::ConnectFailed(fault)) => {
                match Error::acquire(strategy, fault) {
                    Ok(error) => (
                        Session { strategy, request, stage: Stage::Closed },
                        Some(Action::Finish(Err(error))),
                    ),
                    Err(_) => (Session { strategy, request, stage: Stage::Connecting }, None),
                }
            },
            (Stage::Writing, Event::Stored) => {
                let action = Action::Fetch { key: request.key.clone() };
                (Session { strategy, request, stage: Stage::Reading }, Some(action))
            },
            (Stage::Writing, Event::StoreFailed(cause)) => {
                Session::conclude(strategy, request, Err(Error::command(strategy, cause)))
            },
            (Stage::Reading, Event::Fetched(reply)) => {
                let outcome = read_text(strategy, &reply);
                let ghost read = outcome_view(outcome);
                let moved = Session::conclude(strategy, request, outcome);
                proof {
                    if let Err(error) = read {
                        let cause = error.spec_cause();
                        assert((moved.0@.stage, moved.1->0@) == pre.conclude(
                            Err(Error::spec_wrong_type(pre.strategy, cause)),
                        ));
                    }
                }
                moved
            },
            (Stage::Reading, Event::FetchFailed(cause)) => {
                Session::conclude(strategy, request, Err(Error::command(strategy, cause)))
            },
            (Stage::Releasing(outcome), Event::Released) => (
                Session { strategy, request, stage: Stage::Closed },
                Some(Action::Finish(outcome)),
            ),
            (stage, _) => (Session { strategy, request, stage }, None),
        }
    }
}

} // verus!
