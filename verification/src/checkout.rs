//! Getting a connection out of the pool: one caller's way from asking to
//! holding a usable connection, or to a failure.
//!
//! The pool decides at once whether a caller is served, queued or turned
//! away. What follows takes time and happens outside: probing a connection
//! that was used before, opening a new one, waiting for a release. A
//! [`Checkout`] tells the runtime which of these to do next and takes the
//! result back as a [`Signal`].

use crate::error::{AcquireFault, PoolFailure};
use crate::pool::{Acquired, CallerId, ConnId, Grant, Pool, PoolView, Released};
use vstd::prelude::*;

verus! {

/// Where a checkout stands.
#[derive(Debug, Clone, Copy, PartialEq, Eq, Structural)]
pub enum Phase {
    /// The connection in the slot is being probed.
    Probing(ConnId),
    /// A connection is being opened for the slot.
    Opening(ConnId),
    /// The caller waits in the pool's queue, or has just been taken out of it.
    Parked,
    /// The checkout has ended, with a connection or without.
    Closed,
}

/// What the runtime has to do next, or how the checkout ended.
#[derive(Debug)]
pub enum Step {
    /// Ask the connection in the slot whether it is still alive.
    Probe(ConnId),
    /// Open a connection and keep it under the slot.
    Open(ConnId),
    /// Wait until the caller is woken, for so many milliseconds at most.
    Park { timeout_ms: u64 },
    /// Ended: the caller holds the connection in the slot.
    Ready(ConnId),
    /// Ended: the caller holds nothing.
    Failed(AcquireFault),
    /// Ended: the caller has gone and holds nothing.
    Dropped,
}

/// What the runtime reports back.
#[derive(Debug)]
pub enum Signal {
    /// The probed connection answered.
    Alive,
    /// The probed connection did not answer; it has been dropped.
    Dead,
    /// The connection was opened.
    Opened,
    /// The backend could not be reached.
    OpenFailed(redis::RedisError),
    /// A release handed the caller this grant.
    Woken(Grant),
    /// The configured waiting time has passed.
    TimedOut,
    /// The caller has walked away from its request.
    Abandoned,
}

/// A waiting caller that has been served and must be woken with its grant.
#[derive(Debug, Clone, Copy, PartialEq, Eq, Structural)]
pub struct Wake {
    pub caller: CallerId,
    pub grant: Grant,
}

/// One move of a checkout: the next step, and whom it served on the way.
#[derive(Debug)]
pub struct Turn {
    pub step: Step,
    pub wake: Option<Wake>,
}

/// One caller's attempt to get a connection.
#[derive(Debug, Clone, Copy, PartialEq, Eq, Structural)]
pub struct Checkout {
    pub caller: CallerId,
    pub phase: Phase,
}

impl Grant {
    /// What the holder of a grant does first, and the phase it is in then.
    pub open spec fn first_move(self) -> (Phase, Step) {
        match self {
            Grant::Reuse(conn) => (Phase::Probing(conn), Step::Probe(conn)),
            Grant::Create(conn) => (Phase::Opening(conn), Step::Open(conn)),
        }
    }
}

impl Released {
    /// The caller that a release served, if it served one.
    pub open spec fn spec_wake(self) -> Option<Wake> {
        match self {
            Released::Handed { caller, grant } => Some(Wake { caller, grant }),
            _ => None,
        }
    }

    /// The caller that a release served, if it served one.
    pub fn wake(&self) -> (wake: Option<Wake>)
        ensures
            wake == self.spec_wake(),
    {
        match self {
            Released::Handed { caller, grant } => Some(Wake { caller: *caller, grant: *grant }),
            _ => None,
        }
    }
}

impl Checkout {
    /// How a checkout starts, given the pool's answer to the caller and the
    /// time that the pool lets a caller wait.
    pub open spec fn started(caller: CallerId, answer: Acquired, timeout_ms: u64) -> (
        Checkout,
        Step,
    ) {
        match answer {
            Acquired::Ready(grant) => (
                Checkout { caller, phase: grant.first_move().0 },
                grant.first_move().1,
            ),
            Acquired::Queued => (
                Checkout { caller, phase: Phase::Parked },
                Step::Park { timeout_ms },
            ),
            Acquired::Exhausted => (
                Checkout { caller, phase: Phase::Closed },
                Step::Failed(AcquireFault::Pool(PoolFailure::Exhausted)),
            ),
        }
    }

    /// Whether the signal is one that the checkout can take in its phase, with
    /// the pool as it is: the slot it speaks of is held, and a caller that
    /// reports a grant is out of the queue.
    pub open spec fn fits(self, pool: PoolView, signal: Signal) -> bool {
        match (self.phase, signal) {
            (Phase::Probing(conn), Signal::Alive) => pool.busy.contains(conn),
            (Phase::Probing(conn), Signal::Dead) => pool.busy.contains(conn),
            (Phase::Opening(conn), Signal::Opened) => pool.busy.contains(conn),
            (Phase::Opening(conn), Signal::OpenFailed(_)) => pool.busy.contains(conn),
            (Phase::Parked, Signal::Woken(grant)) => !pool.waiting.contains(self.caller)
                && pool.busy.contains(grant.slot()),
            (Phase::Parked, Signal::TimedOut) => true,
            (Phase::Probing(conn), Signal::Abandoned) => pool.busy.contains(conn),
            (Phase::Opening(conn), Signal::Abandoned) => pool.busy.contains(conn),
            (Phase::Parked, Signal::Abandoned) => true,
            _ => false,
        }
    }

    /// The checkout takes a signal that fits: it becomes `after`, the pool
    /// goes from `pool` to `pool_after`, and the runtime is told `turn`.
    ///
    /// - A live connection is the caller's. A dead one is replaced in its
    ///   slot.
    /// - An opened connection is the caller's. If opening fails, the slot is
    ///   given back as broken, so that the first waiting caller, if there is
    ///   one, takes it over and tries in turn.
    /// - A woken caller goes on with its grant.
    /// - A caller whose time is up leaves the queue and fails, and no
    ///   connection changes hands. If a release has served it in the
    ///   meantime, it goes on waiting for the grant that is on its way.
    /// - A caller that walks away while it waits leaves the queue; one that
    ///   has been served in the meantime must take its grant first. One that
    ///   walks away with a slot in hand gives the slot back: as it is if a
    ///   connection is in it, as broken if none was opened yet.
    pub open spec fn advance_step(
        self,
        pool: PoolView,
        signal: Signal,
        pool_after: PoolView,
        after: Checkout,
        turn: Turn,
    ) -> bool {
        &&& after.caller == self.caller
        &&& match (self.phase, signal) {
            (Phase::Probing(conn), Signal::Alive) => {
                &&& after.phase == Phase::Closed
                &&& turn == (Turn { step: Step::Ready(conn), wake: None })
                &&& pool_after == pool
            },
            (Phase::Probing(conn), Signal::Dead) => {
                &&& after.phase == Phase::Opening(conn)
                &&& turn == (Turn { step: Step::Open(conn), wake: None })
                &&& pool_after == pool
            },
            (Phase::Opening(conn), Signal::Opened) => {
                &&& after.phase == Phase::Closed
                &&& turn == (Turn { step: Step::Ready(conn), wake: None })
                &&& pool_after == pool
            },
            (Phase::Opening(conn), Signal::OpenFailed(cause)) => {
                &&& after.phase == Phase::Closed
                &&& turn.step == Step::Failed(AcquireFault::Client(cause))
                &&& exists|released: Released|
                    {
                        &&& #[trigger] pool.release_step(conn, true, pool_after, released)
                        &&& turn.wake == released.spec_wake()
                    }
            },
            (Phase::Parked, Signal::Woken(grant)) => {
                &&& after.phase == grant.first_move().0
                &&& turn == (Turn { step: grant.first_move().1, wake: None })
                &&& pool_after == pool
            },
            (Phase::Parked, Signal::TimedOut) => if pool.waiting.contains(self.caller) {
                &&& after.phase == Phase::Closed
                &&& turn == (Turn {
                    step: Step::Failed(AcquireFault::Pool(PoolFailure::Timeout)),
                    wake: None,
                })
                &&& pool.give_up_step(self.caller, pool_after, true)
            } else {
                &&& after.phase == Phase::Parked
                &&& turn == (Turn { step: Step::Park { timeout_ms: pool.timeout_ms }, wake: None })
                &&& pool_after == pool
            },
            (Phase::Probing(conn), Signal::Abandoned) => {
                &&& after.phase == Phase::Closed
                &&& turn.step == Step::Dropped
                &&& exists|released: Released|
                    {
                        &&& #[trigger] pool.release_step(conn, false, pool_after, released)
                        &&& turn.wake == released.spec_wake()
                    }
            },
            (Phase::Opening(conn), Signal::Abandoned) => {
                &&& after.phase == Phase::Closed
                &&& turn.step == Step::Dropped
                &&& exists|released: Released|
                    {
                        &&& #[trigger] pool.release_step(conn, true, pool_after, released)
                        &&& turn.wake == released.spec_wake()
                    }
            },
            (Phase::Parked, Signal::Abandoned) => if pool.waiting.contains(self.caller) {
                &&& after.phase == Phase::Closed
                &&& turn == (Turn { step: Step::Dropped, wake: None })
                &&& pool.give_up_step(self.caller, pool_after, true)
            } else {
                &&& after.phase == Phase::Parked
                &&& turn == (Turn { step: Step::Park { timeout_ms: pool.timeout_ms }, wake: None })
                &&& pool_after == pool
            },
            _ => false,
        }
    }

    /// Asks the pool for a connection on behalf of `caller`.
    ///
    /// The pool answers as [`PoolView::acquire_step`] says, and the checkout
    /// starts from that answer: with a probe of the idle connection, with
    /// opening a new one, parked in the queue for the configured time, or
    /// ended with [`PoolFailure::Exhausted`] and the pool unchanged.
    pub fn begin(pool: &mut Pool, caller: CallerId) -> (started: (Checkout, Step))
        requires
            old(pool).wf(),
            !old(pool)@.waiting.contains(caller),
        ensures
            final(pool).wf(),
            exists|answer: Acquired|
                {
                    &&& #[trigger] old(pool)@.acquire_step(caller, final(pool)@, answer)
                    &&& started == Checkout::started(caller, answer, old(pool)@.timeout_ms)
                },
    {
        let timeout_ms = pool.config().timeout_ms;
        let answer = pool.acquire(caller);
        let started = match answer {
            Acquired::Ready(Grant::Reuse(conn)) => (
                Checkout { caller, phase: Phase::Probing(conn) },
                Step::Probe(conn),
            ),
            Acquired::Ready(Grant::Create(conn)) => (
                Checkout { caller, phase: Phase::Opening(conn) },
                Step::Open(conn),
            ),
            Acquired::Queued => (
                Checkout { caller, phase: Phase::Parked },
                Step::Park { timeout_ms },
            ),
            Acquired::Exhausted => (
                Checkout { caller, phase: Phase::Closed },
                Step::Failed(AcquireFault::Pool(PoolFailure::Exhausted)),
            ),
        };
        assert(started == Checkout::started(caller, answer, old(pool)@.timeout_ms));
        started
    }

    /// Takes a signal from the runtime.
    ///
    /// A signal that fits moves the checkout as [`Checkout::advance_step`]
    /// says. One that does not fit is refused: nothing changes.
    pub fn advance(&mut self, pool: &mut Pool, signal: Signal) -> (turn: Option<Turn>)
        requires
            old(pool).wf(),
        ensures
            final(pool).wf(),
            match turn {
                Some(turn) => old(self).fits(old(pool)@, signal) && old(self).advance_step(
                    old(pool)@,
                    signal,
                    final(pool)@,
                    *final(self),
                    turn,
                ),
                None => !old(self).fits(old(pool)@, signal) && *final(self) == *old(self)
                    && final(pool)@ == old(pool)@,
            },
    {
        match (self.phase, signal) {
            (Phase::Probing(conn), Signal::Alive) => {
                if !pool.is_checked_out(conn) {
                    return None;
                }
                self.phase = Phase::Closed;
                Some(Turn { step: Step::Ready(conn), wake: None })
            },
            (Phase::Probing(conn), Signal::Dead) => {
                if !pool.is_checked_out(conn) {
                    return None;
                }
                self.phase = Phase::Opening(conn);
                Some(Turn { step: Step::Open(conn), wake: None })
            },
            (Phase::Opening(conn), Signal::Opened) => {
                if !pool.is_checked_out(conn) {
                    return None;
                }
                self.phase = Phase::Closed;
                Some(Turn { step: Step::Ready(conn), wake: None })
            },
            (Phase::Opening(conn), Signal::OpenFailed(cause)) => {
                if !pool.is_checked_out(conn) {
                    return None;
                }
                let released = pool.release(conn, true);
                self.phase = Phase::Closed;
                Some(
                    Turn { step: Step::Failed(AcquireFault::Client(cause)), wake: released.wake() },
                )
            },
            (Phase::Parked, Signal::Woken(grant)) => {
                if pool.is_waiting(self.caller) || !pool.is_checked_out(grant.conn()) {
                    return None;
                }
                match grant {
                    Grant::Reuse(conn) => {
                        self.phase = Phase::Probing(conn);
                        Some(Turn { step: Step::Probe(conn), wake: None })
                    },
                    Grant::Create(conn) => {
                        self.phase = Phase::Opening(conn);
                        Some(Turn { step: Step::Open(conn), wake: None })
                    },
                }
            },
            (Phase::Parked, Signal::TimedOut) => {
                if pool.give_up(self.caller) {
                    self.phase = Phase::Closed;
                    Some(
                        Turn {
                            step: Step::Failed(AcquireFault::Pool(PoolFailure::Timeout)),
                            wake: None,
                        },
                    )
                } else {
                    assert(pool@ == old(pool)@);
                    let timeout_ms = pool.config().timeout_ms;
                    Some(Turn { step: Step::Park { timeout_ms }, wake: None })
                }
            },
            (Phase::Probing(conn), Signal::Abandoned) => {
                if !pool.is_checked_out(conn) {
                    return None;
                }
                let released = pool.release(conn, false);
                self.phase = Phase::Closed;
                Some(Turn { step: Step::Dropped, wake: released.wake() })
            },
            (Phase::Opening(conn), Signal::Abandoned) => {
                if !pool.is_checked_out(conn) {
                    return None;
                }
                let released = pool.release(conn, true);
                self.phase = Phase::Closed;
                Some(Turn { step: Step::Dropped, wake: released.wake() })
            },
            (Phase::Parked, Signal::Abandoned) => {
                if pool.give_up(self.caller) {
                    self.phase = Phase::Closed;
                    Some(Turn { step: Step::Dropped, wake: None })
                } else {
                    assert(pool@ == old(pool)@);
                    let timeout_ms = pool.config().timeout_ms;
                    Some(Turn { step: Step::Park { timeout_ms }, wake: None })
                }
            },
            _ => None,
        }
    }
}

} // verus!
