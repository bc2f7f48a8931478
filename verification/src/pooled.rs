//! A request served over a borrowed connection, from the first question to
//! the pool until the connection is back and the result is out.
//!
//! A [`PooledRequest`] joins a [`Checkout`] to a [`Session`]: it asks the pool
//! for a connection, runs the write and the read over it, and gives it back
//! itself, in the same move that hands the result out. The runtime only does
//! what a [`Task`] says and reports what came of it.

use crate::checkout::{Checkout, Phase, Signal, Step, Turn, Wake};
use crate::error::{Error, Strategy};
use crate::pool::{Acquired, CallerId, ConnId, Pool, PoolView, Released};
use crate::session::{
    Action, ActionView, Event, Outcome, Request, RequestView, Session, SessionView, StageView,
    outcome_view,
};
use vstd::pervasive::unreached;
use vstd::prelude::*;

verus! {

/// What the runtime has to do next for a pooled request.
#[derive(Debug)]
pub enum Task {
    /// Ask the connection in the slot whether it is still alive.
    Probe(ConnId),
    /// Open a connection and keep it under the slot.
    Open(ConnId),
    /// Wait until the caller is woken, for so many milliseconds at most.
    Park { timeout_ms: u64 },
    /// Store the value under the key over the connection in the slot.
    Store { conn: ConnId, key: String, value: String, ttl_seconds: u64 },
    /// Read what the key holds over the connection in the slot.
    Fetch { conn: ConnId, key: String },
    /// Hand the result out. The request holds nothing any more.
    Finish(Result<String, Error>),
    /// Nothing: the caller has gone, and the request holds nothing any more.
    Dropped,
}

/// A task as the contracts see it.
pub enum TaskView {
    Probe(ConnId),
    Open(ConnId),
    Park { timeout_ms: u64 },
    Store { conn: ConnId, key: Seq<char>, value: Seq<char>, ttl_seconds: u64 },
    Fetch { conn: ConnId, key: Seq<char> },
    Finish(Outcome),
    Dropped,
}

impl View for Task {
    type V = TaskView;

    open spec fn view(&self) -> TaskView {
        match *self {
            Task::Probe(conn) => TaskView::Probe(conn),
            Task::Open(conn) => TaskView::Open(conn),
            Task::Park { timeout_ms } => TaskView::Park { timeout_ms },
            Task::Store { conn, key, value, ttl_seconds } => TaskView::Store {
                conn,
                key: key@,
                value: value@,
                ttl_seconds,
            },
            Task::Fetch { conn, key } => TaskView::Fetch { conn, key: key@ },
            Task::Finish(outcome) => TaskView::Finish(outcome_view(outcome)),
            Task::Dropped => TaskView::Dropped,
        }
    }
}

/// One move of a pooled request: the next task, and the waiting caller that
/// the move served and that has to be woken.
#[derive(Debug)]
pub struct Move {
    pub task: Task,
    pub wake: Option<Wake>,
}

/// A move as the contracts see it.
pub struct MoveView {
    pub task: TaskView,
    pub wake: Option<Wake>,
}

impl View for Move {
    type V = MoveView;

    open spec fn view(&self) -> MoveView {
        MoveView { task: self.task@, wake: self.wake }
    }
}

/// What the runtime reports back.
#[derive(Debug)]
pub enum Report {
    /// How probing, opening or waiting went, or that the caller has gone.
    Checkout(Signal),
    /// How a command went.
    Command(Event),
}

/// A request that is served over a connection of the pool.
#[derive(Debug)]
pub struct PooledRequest {
    checkout: Checkout,
    session: Session,
    /// The slot whose connection the request holds.
    conn: Option<ConnId>,
}

/// A pooled request as the contracts see it.
pub struct PooledView {
    /// Its way to a connection.
    pub checkout: Checkout,
    /// Its write and read.
    pub session: SessionView,
    /// The slot whose connection it holds, while it holds one.
    pub conn: Option<ConnId>,
}

impl View for PooledRequest {
    type V = PooledView;

    closed spec fn view(&self) -> PooledView {
        PooledView { checkout: self.checkout, session: self.session@, conn: self.conn }
    }
}

impl PooledView {
    /// What holds of a pooled request at every instant: it works only once
    /// its checkout has ended, and it holds a connection only while it works.
    pub open spec fn wf(self) -> bool {
        &&& self.session.strategy == Strategy::Pooled
        &&& self.checkout.phase != Phase::Closed ==> self.session.stage is Connecting
        &&& self.conn is Some ==> self.session.holds_connection() && self.checkout.phase
            == Phase::Closed
    }

    /// Whether the report is one that the request can take as it stands, with
    /// the pool as it is.
    pub open spec fn fits(self, pool: PoolView, report: Report) -> bool {
        match report {
            Report::Checkout(signal) => match self.conn {
                Some(conn) => signal is Abandoned && pool.busy.contains(conn),
                None => self.checkout.fits(pool, signal),
            },
            Report::Command(event) => self.conn matches Some(conn) && pool.busy.contains(conn)
                && self.session.expects(event),
        }
    }

    /// How the request goes on when its checkout has made `turn`: it passes
    /// on what the checkout asks for; with the connection it starts to write;
    /// without one it ends with the failure.
    pub open spec fn after_turn(self, turn: Turn, after: PooledView, next: MoveView) -> bool {
        &&& next.wake == turn.wake
        &&& match turn.step {
            Step::Probe(conn) => {
                &&& after.session == self.session
                &&& after.conn is None
                &&& next.task == TaskView::Probe(conn)
            },
            Step::Open(conn) => {
                &&& after.session == self.session
                &&& after.conn is None
                &&& next.task == TaskView::Open(conn)
            },
            Step::Park { timeout_ms } => {
                &&& after.session == self.session
                &&& after.conn is None
                &&& next.task == (TaskView::Park { timeout_ms })
            },
            Step::Dropped => {
                &&& after.session == self.session
                &&& after.conn is None
                &&& next.task == TaskView::Dropped
            },
            Step::Ready(conn) => {
                let request = self.session.request;
                &&& after.conn == Some(conn)
                &&& self.session.step(
                    Event::Connected,
                    after.session,
                    ActionView::Store {
                        key: request.key,
                        value: request.value,
                        ttl_seconds: request.ttl_seconds,
                    },
                )
                &&& next.task == (TaskView::Store {
                    conn,
                    key: request.key,
                    value: request.value,
                    ttl_seconds: request.ttl_seconds,
                })
            },
            Step::Failed(fault) => {
                &&& after.conn is None
                &&& Error::spec_acquire(Strategy::Pooled, fault) matches Some(error)
                &&& self.session.step(
                    Event::ConnectFailed(fault),
                    after.session,
                    ActionView::Finish(Err(error)),
                )
                &&& next.task == TaskView::Finish(Err(error))
            },
        }
    }

    /// How the request goes on when a command over `conn` has brought its
    /// session to `mid`, asking for `action`: it reads after it has written;
    /// and once the result is known, good or bad, it gives the connection
    /// back and hands the result out.
    pub open spec fn after_command(
        self,
        conn: ConnId,
        mid: SessionView,
        action: ActionView,
        pool: PoolView,
        pool_after: PoolView,
        after: PooledView,
        next: MoveView,
    ) -> bool {
        match action {
            ActionView::Fetch { key } => {
                &&& after.session == mid
                &&& after.conn == Some(conn)
                &&& pool_after == pool
                &&& next == (MoveView { task: TaskView::Fetch { conn, key }, wake: None })
            },
            ActionView::Release => {
                &&& after.conn is None
                &&& mid.stage matches StageView::Releasing(outcome)
                &&& mid.step(Event::Released, after.session, ActionView::Finish(outcome))
                &&& next.task == TaskView::Finish(outcome)
                &&& exists|released: Released|
                    {
                        &&& #[trigger] pool.release_step(conn, false, pool_after, released)
                        &&& next.wake == released.spec_wake()
                    }
            },
            _ => false,
        }
    }

    /// The request takes a report that fits: it becomes `after`, the pool
    /// goes from `pool` to `pool_after`, and the runtime is told `next`.
    ///
    /// - While the request has no connection, the report goes to its
    ///   checkout, as [`Checkout::advance_step`] says, and the request goes on
    ///   as [`PooledView::after_turn`] says.
    /// - While it holds one, a report on a command goes to its session, as
    ///   [`SessionView::step`] says, and the request goes on as
    ///   [`PooledView::after_command`] says.
    /// - A caller that walks away while the request holds a connection has
    ///   the connection given back.
    pub open spec fn advance_step(
        self,
        pool: PoolView,
        report: Report,
        pool_after: PoolView,
        after: PooledView,
        next: MoveView,
    ) -> bool {
        match report {
            Report::Checkout(signal) => match self.conn {
                Some(conn) => {
                    &&& after == (PooledView { conn: None, ..self })
                    &&& next.task == TaskView::Dropped
                    &&& exists|released: Released|
                        {
                            &&& #[trigger] pool.release_step(conn, false, pool_after, released)
                            &&& next.wake == released.spec_wake()
                        }
                },
                None => exists|turn: Turn|
                    {
                        &&& #[trigger] self.checkout.advance_step(
                            pool,
                            signal,
                            pool_after,
                            after.checkout,
                            turn,
                        )
                        &&& self.after_turn(turn, after, next)
                    },
            },
            Report::Command(event) => {
                &&& after.checkout == self.checkout
                &&& self.conn matches Some(conn)
                &&& exists|mid: SessionView, action: ActionView|
                    {
                        &&& #[trigger] self.session.step(event, mid, action)
                        &&& self.after_command(conn, mid, action, pool, pool_after, after, next)
                    }
            },
        }
    }

    /// A request that has just asked the pool, which answered `answer`.
    pub open spec fn begun(
        caller: CallerId,
        request: RequestView,
        answer: Acquired,
        timeout_ms: u64,
        after: PooledView,
        next: MoveView,
    ) -> bool {
        let started = Checkout::started(caller, answer, timeout_ms);
        let fresh = PooledView {
            checkout: started.0,
            session: SessionView::fresh(Strategy::Pooled, request),
            conn: None,
        };
        &&& after.checkout == started.0
        &&& fresh.after_turn(Turn { step: started.1, wake: None }, after, next)
    }
}

impl PooledRequest {
    /// A request that every operation may be applied to.
    pub open spec fn wf(&self) -> bool {
        self@.wf()
    }

    /// Starts a request on behalf of `caller` by asking the pool for a
    /// connection.
    ///
    /// The pool answers as [`PoolView::acquire_step`] says and the request
    /// starts from the answer as [`PooledView::begun`] says: with a probe, with
    /// opening a connection, parked, or ended by the pool's refusal.
    pub fn begin(pool: &mut Pool, caller: CallerId, request: Request) -> (started: (
        PooledRequest,
        Move,
    ))
        requires
            old(pool).wf(),
            !old(pool)@.waiting.contains(caller),
        ensures
            final(pool).wf(),
            started.0.wf(),
            exists|answer: Acquired|
                {
                    &&& #[trigger] old(pool)@.acquire_step(caller, final(pool)@, answer)
                    &&& PooledView::begun(
                        caller,
                        request@,
                        answer,
                        old(pool)@.timeout_ms,
                        started.0@,
                        started.1@,
                    )
                },
    {
        let (session, _) = Session::begin(Strategy::Pooled, request);
        let (checkout, step) = Checkout::begin(pool, caller);
        PooledRequest::follow(session, checkout, Turn { step, wake: None })
    }

    /// Goes on after a turn of the checkout, as [`PooledView::after_turn`] says.
    fn follow(session: Session, checkout: Checkout, turn: Turn) -> (moved: (PooledRequest, Move))
        requires
            session@.strategy == Strategy::Pooled,
            session@.stage is Connecting,
            turn.step is Ready || turn.step is Failed ==> checkout.phase == Phase::Closed,
        ensures
            moved.0@.checkout == checkout,
            moved.0.wf(),
            (PooledView { checkout, session: session@, conn: None }).after_turn(
                turn,
                moved.0@,
                moved.1@,
            ),
    {
        let Turn { step, wake } = turn;
        match step {
            Step::Probe(conn) => (
                PooledRequest { checkout, session, conn: None },
                Move { task: Task::Probe(conn), wake },
            ),
            Step::Open(conn) => (
                PooledRequest { checkout, session, conn: None },
                Move { task: Task::Open(conn), wake },
            ),
            Step::Park { timeout_ms } => (
                PooledRequest { checkout, session, conn: None },
                Move { task: Task::Park { timeout_ms }, wake },
            ),
            Step::Dropped => (
                PooledRequest { checkout, session, conn: None },
                Move { task: Task::Dropped, wake },
            ),
            Step::Ready(conn) => {
                let (session, action) = session.step(Event::Connected);
                match action {
                    Some(Action::Store { key, value, ttl_seconds }) => (
                        PooledRequest { checkout, session, conn: Some(conn) },
                        Move { task: Task::Store { conn, key, value, ttl_seconds }, wake },
                    ),
                    _ => unreached(),
                }
            },
            Step::Failed(fault) => {
                let (session, action) = session.step(Event::ConnectFailed(fault));
                match action {
                    Some(Action::Finish(outcome)) => (
                        PooledRequest { checkout, session, conn: None },
                        Move { task: Task::Finish(outcome), wake },
                    ),
                    _ => unreached(),
                }
            },
        }
    }

    /// Takes a report from the runtime.
    ///
    /// A report that fits moves the request as [`PooledView::advance_step`]
    /// says. One that does not fit is refused: the request comes back as it
    /// was, the pool is untouched, and no move comes with it.
    pub fn advance(self, pool: &mut Pool, report: Report) -> (moved: (PooledRequest, Option<Move>))
        requires
            self.wf(),
            old(pool).wf(),
        ensures
            final(pool).wf(),
            moved.0.wf(),
            match moved.1 {
                Some(next) => self@.fits(old(pool)@, report) && self@.advance_step(
                    old(pool)@,
                    report,
                    final(pool)@,
                    moved.0@,
                    next@,
                ),
                None => !self@.fits(old(pool)@, report) && moved.0 == self && final(pool)@ == old(
                    pool,
                )@,
            },
    {
        let PooledRequest { checkout, session, conn } = self;
        match (report, conn) {
            (Report::Checkout(Signal::Abandoned), Some(held)) => {
                if !pool.is_checked_out(held) {
                    return (PooledRequest { checkout, session, conn }, None);
                }
                let released = pool.release(held, false);
                (
                    PooledRequest { checkout, session, conn: None },
                    Some(Move { task: Task::Dropped, wake: released.wake() }),
                )
            },
            (Report::Checkout(signal), None) => {
                let mut checkout = checkout;
                let before = checkout;
                match checkout.advance(pool, signal) {
                    Some(turn) => {
                        let (request, next) = PooledRequest::follow(session, checkout, turn);
                        (request, Some(next))
                    },
                    None => (PooledRequest { checkout: before, session, conn }, None),
                }
            },
            (Report::Command(event), Some(held)) => {
                if !pool.is_checked_out(held) {
                    return (PooledRequest { checkout, session, conn }, None);
                }
                let ghost before = session@;
                let (session, action) = session.step(event);
                match action {
                    None => (PooledRequest { checkout, session, conn }, None),
                    Some(Action::Fetch { key }) => (
                        PooledRequest { checkout, session, conn },
                        Some(Move { task: Task::Fetch { conn: held, key }, wake: None }),
                    ),
                    Some(Action::Release) => {
                        let ghost mid = session@;
                        let released = pool.release(held, false);
                        let (session, action) = session.step(Event::Released);
                        match action {
                            Some(Action::Finish(outcome)) => {
                                let request = PooledRequest { checkout, session, conn: None };
                                let next = Move {
                                    task: Task::Finish(outcome),
                                    wake: released.wake(),
                                };
                                assert(before.step(event, mid, ActionView::Release));
                                assert(self@.after_command(
                                    held,
                                    mid,
                                    ActionView::Release,
                                    old(pool)@,
                                    pool@,
                                    request@,
                                    next@,
                                ));
                                (request, Some(next))
                            },
                            _ => unreached(),
                        }
                    },
                    Some(_) => unreached(),
                }
            },
            (_, conn) => (PooledRequest { checkout, session, conn }, None),
        }
    }

    /// The caller on whose behalf the request runs.
    pub fn caller(&self) -> (caller: CallerId)
        ensures
            caller == self@.checkout.caller,
    {
        self.checkout.caller
    }

    /// The slot whose connection the request holds, while it holds one.
    pub fn holds(&self) -> (conn: Option<ConnId>)
        ensures
            conn == self@.conn,
    {
        self.conn
    }
}

} // verus!
