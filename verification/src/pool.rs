//! The bounded connection pool: who holds which connection, which connections
//! rest idle, and who is waiting for one.
//!
//! The pool keeps no sockets. It hands out connection *slots*, numbered below
//! the configured capacity, and the runtime around it keeps the live
//! connection that belongs to each slot. Every decision the pool takes is a
//! transition of [`PoolView`], stated by one of the step relations below.

use std::collections::VecDeque;
use vstd::prelude::*;

verus! {

/// Names a connection slot of the pool.
pub type ConnId = usize;

/// Names a caller that asks the pool for a connection.
pub type CallerId = u64;

/// Parameters fixed when the pool is made.
#[derive(Debug, Clone, Copy, PartialEq, Eq, Structural)]
pub struct PoolConfig {
    /// Most connections that may exist at once, idle and checked out together.
    pub max_size: usize,
    /// Most callers that may wait for a connection at once.
    pub max_waiting: usize,
    /// How long a caller waits before it gives up, in milliseconds.
    pub timeout_ms: u64,
}

/// What a caller is given when it is served.
#[derive(Debug, Clone, Copy, PartialEq, Eq, Structural)]
pub enum Grant {
    /// The slot holds a connection that was used before; probe it before use.
    Reuse(ConnId),
    /// The slot is reserved and empty; a connection has to be opened for it.
    Create(ConnId),
}

impl Grant {
    /// The slot that the grant speaks of.
    pub open spec fn slot(self) -> ConnId {
        match self {
            Grant::Reuse(conn) => conn,
            Grant::Create(conn) => conn,
        }
    }

    /// The slot that the grant speaks of.
    pub fn conn(&self) -> (conn: ConnId)
        ensures
            conn == self.slot(),
    {
        match self {
            Grant::Reuse(conn) => *conn,
            Grant::Create(conn) => *conn,
        }
    }
}

/// The pool's answer to a caller that asks for a connection.
#[derive(Debug, Clone, Copy, PartialEq, Eq, Structural)]
pub enum Acquired {
    /// The caller is served at once.
    Ready(Grant),
    /// The pool is at capacity; the caller now waits at the back of the queue.
    Queued,
    /// The pool is at capacity and the queue is full; the caller is turned away.
    Exhausted,
}

/// What became of a connection that was given back.
#[derive(Debug, Clone, Copy, PartialEq, Eq, Structural)]
pub enum Released {
    /// Nobody was waiting and the connection is healthy: it rests idle.
    Parked,
    /// Nobody was waiting and the connection is broken: its slot is empty again.
    Discarded,
    /// The longest-waiting caller takes the slot over and has to be woken.
    Handed { caller: CallerId, grant: Grant },
}

/// The state of a pool as the contracts see it.
#[verifier::ext_equal]
pub struct PoolView {
    /// Capacity.
    pub max_size: nat,
    /// Length limit of the queue.
    pub max_waiting: nat,
    /// Longest wait of a queued caller, in milliseconds.
    pub timeout_ms: u64,
    /// Idle connections; the one returned last stands last and leaves first.
    pub idle: Seq<ConnId>,
    /// Connections that callers hold, slots reserved for opening included.
    pub busy: Set<ConnId>,
    /// Waiting callers; the one that has waited longest stands first.
    pub waiting: Seq<CallerId>,
}

impl PoolView {
    /// A pool in which nothing has happened yet.
    pub open spec fn fresh(config: PoolConfig) -> PoolView {
        PoolView {
            max_size: config.max_size as nat,
            max_waiting: config.max_waiting as nat,
            timeout_ms: config.timeout_ms,
            idle: Seq::empty(),
            busy: Set::empty(),
            waiting: Seq::empty(),
        }
    }

    /// Number of connections in existence or being opened.
    pub open spec fn open_count(self) -> nat {
        self.idle.len() + self.busy.len()
    }

    /// What holds of a pool at every instant.
    pub open spec fn wf(self) -> bool {
        &&& self.max_size >= 1
        &&& self.busy.finite()
        &&& forall|conn: ConnId| #[trigger] self.busy.contains(conn) ==> conn < self.max_size
        &&& self.idle.no_duplicates()
        &&& forall|i: int|
            0 <= i < self.idle.len() ==> (#[trigger] self.idle[i]) < self.max_size
                && !self.busy.contains(self.idle[i])
        &&& self.open_count() <= self.max_size
        &&& self.waiting.no_duplicates()
        &&& self.waiting.len() <= self.max_waiting
        &&& self.waiting.len() > 0 ==> self.idle.len() == 0 && self.busy.len() == self.max_size
    }

    /// The pool as `caller` finds it answers with `outcome` and becomes `post`.
    ///
    /// An idle connection is preferred to a new one, a new one to waiting, and
    /// waiting to refusal. Which empty slot a new connection gets is left
    /// open; it is one below the capacity that nobody holds.
    pub open spec fn acquire_step(
        self,
        caller: CallerId,
        post: PoolView,
        outcome: Acquired,
    ) -> bool {
        if self.idle.len() > 0 {
            let conn = self.idle.last();
            &&& outcome == Acquired::Ready(Grant::Reuse(conn))
            &&& post == (PoolView {
                idle: self.idle.drop_last(),
                busy: self.busy.insert(conn),
                ..self
            })
        } else if self.busy.len() < self.max_size {
            &&& outcome matches Acquired::Ready(Grant::Create(conn))
            &&& conn < self.max_size
            &&& !self.busy.contains(conn)
            &&& post == (PoolView { busy: self.busy.insert(conn), ..self })
        } else if self.waiting.len() < self.max_waiting {
            &&& outcome == Acquired::Queued
            &&& post == (PoolView { waiting: self.waiting.push(caller), ..self })
        } else {
            &&& outcome == Acquired::Exhausted
            &&& post == self
        }
    }

    /// Giving `conn` back, marked `broken` or not, has `outcome` and leaves `post`.
    ///
    /// While callers wait, the slot never becomes free: the first of them
    /// takes it over, with the connection if it is healthy and with the duty
    /// to open a new one if it is broken.
    pub open spec fn release_step(
        self,
        conn: ConnId,
        broken: bool,
        post: PoolView,
        outcome: Released,
    ) -> bool {
        if self.waiting.len() > 0 {
            let grant = if broken {
                Grant::Create(conn)
            } else {
                Grant::Reuse(conn)
            };
            &&& outcome == (Released::Handed { caller: self.waiting[0], grant })
            &&& post == (PoolView { waiting: self.waiting.drop_first(), ..self })
        } else if broken {
            &&& outcome == Released::Discarded
            &&& post == (PoolView { busy: self.busy.remove(conn), ..self })
        } else {
            &&& outcome == Released::Parked
            &&& post == (PoolView {
                idle: self.idle.push(conn),
                busy: self.busy.remove(conn),
                ..self
            })
        }
    }

    /// Every idle connection leaves the pool, to be closed: `closed` names
    /// them, and nothing else changes.
    pub open spec fn drain_step(self, post: PoolView, closed: Seq<ConnId>) -> bool {
        &&& closed == self.idle
        &&& post == (PoolView { idle: Seq::empty(), ..self })
    }

    /// The queue once `caller` has left it; the others keep their order.
    pub open spec fn queue_without(self, caller: CallerId) -> Seq<CallerId> {
        if self.waiting.contains(caller) {
            self.waiting.remove(self.waiting.index_of(caller))
        } else {
            self.waiting
        }
    }

    /// `caller` stops waiting. `left` tells whether it was still in the queue;
    /// connections are not touched either way.
    pub open spec fn give_up_step(self, caller: CallerId, post: PoolView, left: bool) -> bool {
        &&& left == self.waiting.contains(caller)
        &&& post == (PoolView { waiting: self.queue_without(caller), ..self })
    }
}

/// What a slot of the pool holds.
#[derive(Debug, Clone, Copy, PartialEq, Eq, Structural)]
enum Slot {
    /// No connection.
    Vacant,
    /// A connection that nobody uses.
    Idle,
    /// A connection that a caller holds, or a reservation for one.
    Busy,
}

/// A bounded pool of connection slots with a first-come queue of callers.
#[derive(Debug)]
pub struct Pool {
    config: PoolConfig,
    /// One entry per slot that was ever handed out.
    slots: Vec<Slot>,
    /// The idle slots, the one returned last at the end.
    idle: Vec<ConnId>,
    /// The slots that were handed out once and are empty now.
    vacant: Vec<ConnId>,
    /// How many slots are busy.
    busy: usize,
    /// The waiting callers, the longest-waiting at the front.
    waiting: VecDeque<CallerId>,
}

impl View for Pool {
    type V = PoolView;

    closed spec fn view(&self) -> PoolView {
        PoolView {
            max_size: self.config.max_size as nat,
            max_waiting: self.config.max_waiting as nat,
            timeout_ms: self.config.timeout_ms,
            idle: self.idle@,
            busy: Set::new(
                |conn: ConnId| conn < self.slots.len() && self.slots[conn as int] == Slot::Busy,
            ),
            waiting: self.waiting@,
        }
    }
}

impl Pool {
    /// How the fields hang together.
    pub closed spec fn rep(&self) -> bool {
        &&& self.slots.len() <= self.config.max_size
        &&& self.busy + self.idle.len() + self.vacant.len() == self.slots.len()
        &&& self@.busy.len() == self.busy
        &&& forall|i: int|
            0 <= i < self.idle.len() ==> (#[trigger] self.idle[i]) < self.slots.len()
                && self.slots[self.idle[i] as int] == Slot::Idle
        &&& forall|i: int|
            0 <= i < self.vacant.len() ==> (#[trigger] self.vacant[i]) < self.slots.len()
                && self.slots[self.vacant[i] as int] == Slot::Vacant
        &&& self.vacant@.no_duplicates()
    }

    /// A pool that every operation may be applied to.
    pub open spec fn wf(&self) -> bool {
        self.rep() && self@.wf()
    }

    /// An empty pool: no connection exists and nobody waits.
    pub fn new(config: PoolConfig) -> (pool: Pool)
        requires
            config.max_size >= 1,
        ensures
            pool.wf(),
            pool@ == PoolView::fresh(config),
    {
        let pool = Pool {
            config,
            slots: Vec::new(),
            idle: Vec::new(),
            vacant: Vec::new(),
            busy: 0,
            waiting: VecDeque::new(),
        };
        assert(pool@.busy =~= Set::empty());
        pool
    }

    /// The configuration the pool was made with.
    pub fn config(&self) -> (config: PoolConfig)
        ensures
            config.max_size == self@.max_size,
            config.max_waiting == self@.max_waiting,
            config.timeout_ms == self@.timeout_ms,
    {
        self.config
    }

    /// Serves `caller`, queues it, or turns it away, as [`PoolView::acquire_step`] says.
    pub fn acquire(&mut self, caller: CallerId) -> (outcome: Acquired)
        requires
            old(self).wf(),
            !old(self)@.waiting.contains(caller),
        ensures
            final(self).wf(),
            old(self)@.acquire_step(caller, final(self)@, outcome),
    {
        if self.idle.len() > 0 {
            let conn = self.idle.pop().unwrap();
            self.take_slot(conn);
            assert(self@.idle =~= old(self)@.idle.drop_last());
            Acquired::Ready(Grant::Reuse(conn))
        } else if self.vacant.len() > 0 {
            let conn = self.vacant.pop().unwrap();
            self.take_slot(conn);
            Acquired::Ready(Grant::Create(conn))
        } else if self.slots.len() < self.config.max_size {
            let conn = self.slots.len();
            self.slots.push(Slot::Busy);
            self.busy = self.busy + 1;
            assert(self@.busy =~= old(self)@.busy.insert(conn));
            Acquired::Ready(Grant::Create(conn))
        } else if self.waiting.len() < self.config.max_waiting {
            self.waiting.push_back(caller);
            assert(self@.busy =~= old(self)@.busy);
            Acquired::Queued
        } else {
            Acquired::Exhausted
        }
    }

    /// Takes `conn` back from the caller that held it, as
    /// [`PoolView::release_step`] says. `broken` marks a connection that must
    /// not be used again; a slot whose connection could not be opened is
    /// given back the same way.
    pub fn release(&mut self, conn: ConnId, broken: bool) -> (outcome: Released)
        requires
            old(self).wf(),
            old(self)@.busy.contains(conn),
        ensures
            final(self).wf(),
            old(self)@.release_step(conn, broken, final(self)@, outcome),
    {
        if self.waiting.len() > 0 {
            let caller = self.waiting.pop_front().unwrap();
            assert(self@.busy =~= old(self)@.busy);
            assert(self@.waiting =~= old(self)@.waiting.drop_first());
            let grant = if broken {
                Grant::Create(conn)
            } else {
                Grant::Reuse(conn)
            };
            Released::Handed { caller, grant }
        } else if broken {
            self.slots.set(conn, Slot::Vacant);
            self.vacant.push(conn);
            self.busy = self.busy - 1;
            assert(self@.busy =~= old(self)@.busy.remove(conn));
            Released::Discarded
        } else {
            self.slots.set(conn, Slot::Idle);
            self.idle.push(conn);
            self.busy = self.busy - 1;
            assert(self@.busy =~= old(self)@.busy.remove(conn));
            Released::Parked
        }
    }

    /// Takes `caller` out of the queue, as [`PoolView::give_up_step`] says: for
    /// a caller whose time is up or whose request was abandoned.
    pub fn give_up(&mut self, caller: CallerId) -> (left: bool)
        requires
            old(self).wf(),
        ensures
            final(self).wf(),
            old(self)@.give_up_step(caller, final(self)@, left),
    {
        match self.position(caller) {
            Some(at) => {
                let _ = self.waiting.remove(at);
                assert(self@.busy =~= old(self)@.busy);
                assert(old(self)@.waiting.index_of(caller) == at);
                true
            },
            None => false,
        }
    }

    /// Takes every idle connection out of the pool and names their slots, as
    /// [`PoolView::drain_step`] says, so that the connections can be closed:
    /// for the end of the pool's life. Connections that callers hold, and the
    /// callers that wait, stay.
    pub fn drain_idle(&mut self) -> (closed: Vec<ConnId>)
        requires
            old(self).wf(),
        ensures
            final(self).wf(),
            old(self)@.drain_step(final(self)@, closed@),
    {
        let mut closed: Vec<ConnId> = Vec::new();
        core::mem::swap(&mut self.idle, &mut closed);
        let mut at: usize = 0;
        while at < closed.len()
            invariant
                at <= closed.len(),
                closed@ == old(self).idle@,
                closed@.no_duplicates(),
                self.idle@.len() == 0,
                self.config == old(self).config,
                self.waiting == old(self).waiting,
                self.busy == old(self).busy,
                self.slots.len() == old(self).slots.len(),
                self.slots.len() <= self.config.max_size,
                self.busy + (closed.len() - at) + self.vacant.len() == self.slots.len(),
                forall|i: int| 0 <= i < closed.len() ==> (#[trigger] closed[i]) < self.slots.len(),
                forall|i: int|
                    at <= i < closed.len() ==> self.slots[(#[trigger] closed[i]) as int]
                        == Slot::Idle,
                forall|i: int|
                    0 <= i < self.vacant.len() ==> (#[trigger] self.vacant[i]) < self.slots.len()
                        && self.slots[self.vacant[i] as int] == Slot::Vacant,
                self.vacant@.no_duplicates(),
                forall|conn: int|
                    0 <= conn < self.slots.len() ==> ((#[trigger] self.slots[conn] == Slot::Busy)
                        <==> old(self).slots[conn] == Slot::Busy),
            decreases closed.len() - at,
        {
            let conn = closed[at];
            self.slots.set(conn, Slot::Vacant);
            self.vacant.push(conn);
            at = at + 1;
        }
        assert(self@.busy =~= old(self)@.busy);
        assert(self@.idle =~= Seq::empty());
        closed
    }

    /// Where `caller` stands in the queue, if it waits.
    fn position(&self, caller: CallerId) -> (found: Option<usize>)
        ensures
            match found {
                Some(at) => at < self.waiting@.len() && self.waiting@[at as int] == caller,
                None => !self.waiting@.contains(caller),
            },
    {
        let mut at: usize = 0;
        while at < self.waiting.len()
            invariant
                at <= self.waiting@.len(),
                forall|i: int| 0 <= i < at ==> self.waiting@[i] != caller,
            decreases self.waiting@.len() - at,
        {
            if self.waiting[at] == caller {
                return Some(at);
            }
            at = at + 1;
        }
        None
    }

    /// Whether `caller` stands in the queue.
    pub fn is_waiting(&self, caller: CallerId) -> (waits: bool)
        ensures
            waits == self@.waiting.contains(caller),
    {
        self.position(caller).is_some()
    }

    /// Whether some caller holds `conn`.
    pub fn is_checked_out(&self, conn: ConnId) -> (held: bool)
        ensures
            held == self@.busy.contains(conn),
    {
        conn < self.slots.len() && self.slots[conn] == Slot::Busy
    }

    /// Number of idle connections.
    pub fn idle_count(&self) -> (n: usize)
        ensures
            n == self@.idle.len(),
    {
        self.idle.len()
    }

    /// Number of connections that callers hold.
    pub fn checked_out_count(&self) -> (n: usize)
        requires
            self.wf(),
        ensures
            n == self@.busy.len(),
    {
        self.busy
    }

    /// Number of waiting callers.
    pub fn waiting_count(&self) -> (n: usize)
        ensures
            n == self@.waiting.len(),
    {
        self.waiting.len()
    }

    /// Marks a slot that is not busy as busy.
    fn take_slot(&mut self, conn: ConnId)
        requires
            conn < old(self).slots.len(),
            old(self).slots[conn as int] != Slot::Busy,
            old(self)@.busy.finite(),
            old(self).busy < old(self).slots.len(),
        ensures
            final(self).config == old(self).config,
            final(self).idle == old(self).idle,
            final(self).vacant == old(self).vacant,
            final(self).waiting == old(self).waiting,
            final(self).busy == old(self).busy + 1,
            final(self).slots@ == old(self).slots@.update(conn as int, Slot::Busy),
            final(self)@.busy == old(self)@.busy.insert(conn),
            !old(self)@.busy.contains(conn),
    {
        self.slots.set(conn, Slot::Busy);
        self.busy = self.busy + 1;
        assert(self@.busy =~= old(self)@.busy.insert(conn));
    }
}

} // verus!
