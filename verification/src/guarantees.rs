//! What the pool and a request guarantee, proved from their step relations.
//!
//! The operations of [`Pool`](crate::pool::Pool),
//! [`Checkout`], [`Session`](crate::session::Session) and
//! [`PooledRequest`](crate::pooled::PooledRequest) promise one step each. The
//! statements here speak of every state that those steps can lead to, and of
//! what several steps add up to.

use crate::backend::Reply;
use crate::checkout::{Checkout, Phase, Signal, Step, Turn};
use crate::error::{AcquireFault, PoolFailure, Strategy};
use crate::pool::{Acquired, CallerId, ConnId, PoolConfig, PoolView, Released};
use crate::pooled::{MoveView, PooledView, Report};
use crate::session::{ActionView, Event, SessionView, StageView};
use vstd::prelude::*;
use vstd::utf8::{encode_utf8, encode_utf8_decode_utf8, encode_utf8_valid_utf8};

verus! {

/// One operation on a pool, with what it answered.
pub enum PoolOp {
    Acquire { caller: CallerId, answer: Acquired },
    Release { conn: ConnId, broken: bool, outcome: Released },
    GiveUp { caller: CallerId, left: bool },
    Drain { closed: Seq<ConnId> },
}

impl PoolView {
    /// Whether the operation may be applied: a caller asks only while it is
    /// not waiting, and only a connection that is held can be given back.
    pub open spec fn allows(self, op: PoolOp) -> bool {
        match op {
            PoolOp::Acquire { caller, .. } => !self.waiting.contains(caller),
            PoolOp::Release { conn, .. } => self.busy.contains(conn),
            PoolOp::GiveUp { .. } => true,
            PoolOp::Drain { .. } => true,
        }
    }

    /// The operation takes the pool to `post`.
    pub open spec fn op_step(self, op: PoolOp, post: PoolView) -> bool {
        match op {
            PoolOp::Acquire { caller, answer } => self.acquire_step(caller, post, answer),
            PoolOp::Release { conn, broken, outcome } => self.release_step(
                conn,
                broken,
                post,
                outcome,
            ),
            PoolOp::GiveUp { caller, left } => self.give_up_step(caller, post, left),
            PoolOp::Drain { closed } => self.drain_step(post, closed),
        }
    }
}

/// `states` is what a pool went through under `ops`, one after the other.
pub open spec fn history(states: Seq<PoolView>, ops: Seq<PoolOp>) -> bool {
    &&& states.len() == ops.len() + 1
    &&& forall|i: int|
        0 <= i < ops.len() ==> (#[trigger] states[i]).allows(ops[i]) && states[i].op_step(
            ops[i],
            states[i + 1],
        )
}

/// `first` stands before `second` in the queue.
pub open spec fn ahead(queue: Seq<CallerId>, first: CallerId, second: CallerId) -> bool {
    exists|i: int, j: int|
        0 <= i < j < queue.len() && #[trigger] queue[i] == first && #[trigger] queue[j] == second
}

/// Every operation leaves a well-formed pool well-formed, with the limits it
/// was made with. In particular the idle and the checked-out connections
/// together never outnumber the capacity.
pub proof fn lemma_step_keeps_pool_wf(pre: PoolView, op: PoolOp, post: PoolView)
    requires
        pre.wf(),
        pre.allows(op),
        pre.op_step(op, post),
    ensures
        post.wf(),
        post.idle.len() + post.busy.len() <= post.max_size,
        post.max_size == pre.max_size,
        post.max_waiting == pre.max_waiting,
        post.timeout_ms == pre.timeout_ms,
{
    match op {
        PoolOp::Acquire { caller, answer } => {},
        PoolOp::Release { conn, broken, outcome } => {},
        PoolOp::GiveUp { caller, left } => {
            if pre.waiting.contains(caller) {
                let at = pre.waiting.index_of(caller);
                pre.waiting.remove_ensures(at);
            }
        },
        PoolOp::Drain { closed } => {},
    }
}

/// At every instant of a pool's life, from the moment it is made, the idle and
/// the checked-out connections together are at most `max_size`.
pub proof fn lemma_capacity_never_exceeded(
    config: PoolConfig,
    states: Seq<PoolView>,
    ops: Seq<PoolOp>,
    at: int,
)
    requires
        config.max_size >= 1,
        history(states, ops),
        states[0] == PoolView::fresh(config),
        0 <= at < states.len(),
    ensures
        states[at].wf(),
        states[at].max_size == config.max_size,
        states[at].idle.len() + states[at].busy.len() <= config.max_size,
    decreases at,
{
    if at > 0 {
        lemma_capacity_never_exceeded(config, states, ops, at - 1);
        assert(states[at - 1].allows(ops[at - 1]));
        lemma_step_keeps_pool_wf(states[at - 1], ops[at - 1], states[at]);
    }
}

/// While fewer callers hold connections than the pool has room for, a caller
/// that asks is served at once: it neither waits nor is turned away, and the
/// queue is not touched.
pub proof fn lemma_served_at_once_below_capacity(
    pre: PoolView,
    caller: CallerId,
    post: PoolView,
    answer: Acquired,
)
    requires
        pre.wf(),
        pre.busy.len() < pre.max_size,
        pre.acquire_step(caller, post, answer),
    ensures
        answer is Ready,
        post.waiting == pre.waiting,
        post.busy.len() == pre.busy.len() + 1,
{
}

/// A pool that starts empty serves the first `max_size` callers at once if
/// none of them gives its connection back in between.
pub proof fn lemma_first_callers_never_wait(
    config: PoolConfig,
    states: Seq<PoolView>,
    ops: Seq<PoolOp>,
    at: int,
)
    requires
        config.max_size >= 1,
        history(states, ops),
        states[0] == PoolView::fresh(config),
        ops.len() <= config.max_size,
        forall|i: int| 0 <= i < ops.len() ==> #[trigger] ops[i] is Acquire,
        0 <= at < ops.len(),
    ensures
        ops[at]->Acquire_answer is Ready,
        states[at].busy.len() == at,
        states[at + 1].busy.len() == at + 1,
    decreases at,
{
    lemma_capacity_never_exceeded(config, states, ops, at);
    assert(states[at].allows(ops[at]));
    assert(ops[at] is Acquire);
    if at > 0 {
        lemma_first_callers_never_wait(config, states, ops, at - 1);
    }
    assert(states[at].busy.len() == at);
    lemma_served_at_once_below_capacity(
        states[at],
        ops[at]->Acquire_caller,
        states[at + 1],
        ops[at]->Acquire_answer,
    );
}

/// A caller that finds every connection taken, and room in the queue, waits
/// behind everyone who waits already.
pub proof fn lemma_waits_at_the_back(
    pre: PoolView,
    caller: CallerId,
    post: PoolView,
    answer: Acquired,
    earlier: CallerId,
)
    requires
        pre.wf(),
        !pre.waiting.contains(caller),
        pre.idle.len() == 0,
        pre.busy.len() == pre.max_size,
        pre.waiting.len() < pre.max_waiting,
        pre.acquire_step(caller, post, answer),
        pre.waiting.contains(earlier),
    ensures
        answer == Acquired::Queued,
        post.waiting == pre.waiting.push(caller),
        post.busy == pre.busy,
        ahead(post.waiting, earlier, caller),
{
    let i = pre.waiting.index_of(earlier);
    let j = pre.waiting.len() as int;
    assert(post.waiting[i] == earlier && post.waiting[j] == caller);
}

/// A caller is turned away exactly when nothing is idle, the pool is at
/// capacity and the queue is full; the pool is then as it was.
pub proof fn lemma_turned_away_only_when_full(
    pre: PoolView,
    caller: CallerId,
    post: PoolView,
    answer: Acquired,
)
    requires
        pre.wf(),
        pre.acquire_step(caller, post, answer),
    ensures
        answer == Acquired::Exhausted <==> pre.idle.len() == 0 && pre.busy.len() == pre.max_size
            && pre.waiting.len() == pre.max_waiting,
        answer == Acquired::Exhausted ==> post == pre,
{
}

/// A checkout that finds the pool full ends on the spot, with
/// [`PoolFailure::Exhausted`] and nothing to wait for.
pub proof fn lemma_refusal_is_immediate(
    pre: PoolView,
    caller: CallerId,
    post: PoolView,
    answer: Acquired,
)
    requires
        pre.wf(),
        pre.idle.len() == 0,
        pre.busy.len() == pre.max_size,
        pre.waiting.len() == pre.max_waiting,
        pre.acquire_step(caller, post, answer),
    ensures
        Checkout::started(caller, answer, pre.timeout_ms) == (
            Checkout { caller, phase: Phase::Closed },
            Step::Failed(AcquireFault::Pool(PoolFailure::Exhausted)),
        ),
        post == pre,
{
}

/// While callers wait, a connection that is given back goes to the one that
/// has waited longest, and the others move up in their order.
pub proof fn lemma_release_serves_longest_waiting(
    pre: PoolView,
    conn: ConnId,
    broken: bool,
    post: PoolView,
    outcome: Released,
)
    requires
        pre.wf(),
        pre.waiting.len() > 0,
        pre.release_step(conn, broken, post, outcome),
    ensures
        outcome matches Released::Handed { caller, grant } && caller == pre.waiting[0]
            && grant.slot() == conn,
        post.waiting == pre.waiting.drop_first(),
        post.busy == pre.busy,
        post.idle == pre.idle,
{
}

/// No operation lets a waiting caller overtake another: two callers that wait
/// before and after it stand in the same order.
pub proof fn lemma_queue_order_is_kept(
    pre: PoolView,
    op: PoolOp,
    post: PoolView,
    first: CallerId,
    second: CallerId,
)
    requires
        pre.wf(),
        pre.allows(op),
        pre.op_step(op, post),
        ahead(pre.waiting, first, second),
        post.waiting.contains(first),
        post.waiting.contains(second),
    ensures
        ahead(post.waiting, first, second),
{
    let (i, j) = choose|i: int, j: int|
        0 <= i < j < pre.waiting.len() && #[trigger] pre.waiting[i] == first
            && #[trigger] pre.waiting[j] == second;
    match op {
        PoolOp::Acquire { caller, answer } => {
            assert(post.waiting[i] == first && post.waiting[j] == second);
        },
        PoolOp::Release { conn, broken, outcome } => {
            if pre.waiting.len() > 0 {
                let k = post.waiting.index_of(first);
                assert(pre.waiting[k + 1] == first);
                assert(post.waiting[i - 1] == first && post.waiting[j - 1] == second);
            } else {
                assert(post.waiting[i] == first && post.waiting[j] == second);
            }
        },
        PoolOp::GiveUp { caller, left } => {
            if pre.waiting.contains(caller) {
                let at = pre.waiting.index_of(caller);
                pre.waiting.remove_ensures(at);
                let k = post.waiting.index_of(first);
                let l = post.waiting.index_of(second);
                assert(first != caller) by {
                    if k < at {
                        assert(pre.waiting[k] == first);
                    } else {
                        assert(pre.waiting[k + 1] == first);
                    }
                }
                assert(second != caller) by {
                    if l < at {
                        assert(pre.waiting[l] == second);
                    } else {
                        assert(pre.waiting[l + 1] == second);
                    }
                }
                let i2 = if i < at {
                    i
                } else {
                    i - 1
                };
                let j2 = if j < at {
                    j
                } else {
                    j - 1
                };
                assert(post.waiting[i2] == first && post.waiting[j2] == second);
            } else {
                assert(post.waiting[i] == first && post.waiting[j] == second);
            }
        },
        PoolOp::Drain { closed } => {
            assert(post.waiting[i] == first && post.waiting[j] == second);
        },
    }
}

/// Callers that wait are served in the order in which they began to wait: of
/// releases that follow one another, the one numbered `turn` serves the
/// caller that stood at place `turn` of the queue.
pub proof fn lemma_waiting_callers_served_in_turn(
    states: Seq<PoolView>,
    ops: Seq<PoolOp>,
    turn: int,
)
    requires
        history(states, ops),
        states[0].wf(),
        forall|i: int| 0 <= i < ops.len() ==> #[trigger] ops[i] is Release,
        ops.len() <= states[0].waiting.len(),
        0 <= turn < ops.len(),
    ensures
        ops[turn]->Release_outcome matches Released::Handed { caller, .. } && caller
            == states[0].waiting[turn],
        states[turn + 1].waiting == states[0].waiting.skip(turn + 1),
    decreases turn,
{
    assert(ops[turn] is Release);
    assert(states[turn].allows(ops[turn]));
    if turn > 0 {
        lemma_waiting_callers_served_in_turn(states, ops, turn - 1);
        assert(states[turn].waiting == states[0].waiting.skip(turn));
    } else {
        assert(states[0].waiting.skip(0) == states[0].waiting);
    }
    assert(states[turn].waiting.len() > 0);
    assert(states[turn].waiting[0] == states[0].waiting[turn]);
    assert(states[turn].waiting.drop_first() == states[0].waiting.skip(turn + 1));
}

/// Whatever a checkout does to the pool leaves the pool well-formed, and the
/// idle and the checked-out connections within the capacity.
pub proof fn lemma_checkout_keeps_pool_wf(
    checkout: Checkout,
    pool: PoolView,
    signal: Signal,
    pool_after: PoolView,
    after: Checkout,
    turn: Turn,
)
    requires
        pool.wf(),
        checkout.fits(pool, signal),
        checkout.advance_step(pool, signal, pool_after, after, turn),
    ensures
        pool_after.wf(),
        pool_after.idle.len() + pool_after.busy.len() <= pool_after.max_size,
        pool_after.max_size == pool.max_size,
{
    let caller = checkout.caller;
    match (checkout.phase, signal) {
        (Phase::Opening(conn), Signal::OpenFailed(_)) => {
            let released = choose|released: Released|
                #[trigger] pool.release_step(conn, true, pool_after, released);
            lemma_step_keeps_pool_wf(
                pool,
                PoolOp::Release { conn, broken: true, outcome: released },
                pool_after,
            );
        },
        (Phase::Opening(conn), Signal::Abandoned) => {
            let released = choose|released: Released|
                #[trigger] pool.release_step(conn, true, pool_after, released);
            lemma_step_keeps_pool_wf(
                pool,
                PoolOp::Release { conn, broken: true, outcome: released },
                pool_after,
            );
        },
        (Phase::Probing(conn), Signal::Abandoned) => {
            let released = choose|released: Released|
                #[trigger] pool.release_step(conn, false, pool_after, released);
            lemma_step_keeps_pool_wf(
                pool,
                PoolOp::Release { conn, broken: false, outcome: released },
                pool_after,
            );
        },
        (Phase::Parked, Signal::TimedOut) => {
            if pool.waiting.contains(caller) {
                lemma_step_keeps_pool_wf(pool, PoolOp::GiveUp { caller, left: true }, pool_after);
            }
        },
        (Phase::Parked, Signal::Abandoned) => {
            if pool.waiting.contains(caller) {
                lemma_step_keeps_pool_wf(pool, PoolOp::GiveUp { caller, left: true }, pool_after);
            }
        },
        _ => {},
    }
}

/// A caller whose waiting time runs out while it still stands in the queue
/// fails with [`PoolFailure::Timeout`]. It leaves the queue, and the
/// connections stay with whoever holds them: none is taken, none is freed.
pub proof fn lemma_timeout_leaves_connections_alone(
    checkout: Checkout,
    pool: PoolView,
    pool_after: PoolView,
    after: Checkout,
    turn: Turn,
)
    requires
        pool.wf(),
        checkout.phase == Phase::Parked,
        pool.waiting.contains(checkout.caller),
        checkout.advance_step(pool, Signal::TimedOut, pool_after, after, turn),
    ensures
        turn.step == Step::Failed(AcquireFault::Pool(PoolFailure::Timeout)),
        turn.wake is None,
        after.phase == Phase::Closed,
        pool_after.busy == pool.busy,
        pool_after.idle == pool.idle,
        !pool_after.waiting.contains(checkout.caller),
        pool_after.waiting.len() == pool.waiting.len() - 1,
        pool_after.wf(),
{
    let caller = checkout.caller;
    let at = pool.waiting.index_of(caller);
    pool.waiting.remove_ensures(at);
    lemma_step_keeps_pool_wf(pool, PoolOp::GiveUp { caller, left: true }, pool_after);
    if pool_after.waiting.contains(caller) {
        let k = pool_after.waiting.index_of(caller);
        if k < at {
            assert(pool.waiting[k] == caller);
        } else {
            assert(pool.waiting[k + 1] == caller);
        }
    }
}

/// `states` is what a request went through under `events`, one after the
/// other, and `actions` is what it asked for in answer to each.
pub open spec fn course(
    states: Seq<SessionView>,
    events: Seq<Event>,
    actions: Seq<ActionView>,
) -> bool {
    &&& states.len() == events.len() + 1
    &&& actions.len() == events.len()
    &&& forall|i: int|
        0 <= i < events.len() ==> (#[trigger] states[i]).expects(events[i]) && states[i].step(
            events[i],
            states[i + 1],
            actions[i],
        )
}

/// How often the request asked for its connection to be given back.
pub open spec fn releases(actions: Seq<ActionView>) -> nat
    decreases actions.len(),
{
    if actions.len() == 0 {
        0
    } else {
        releases(actions.drop_last()) + if actions.last() is Release {
            1nat
        } else {
            0nat
        }
    }
}

/// Whether the request was given a connection.
pub open spec fn connected(events: Seq<Event>) -> bool {
    events.len() > 0 && events[0] is Connected
}

/// The releases that a request owes by the time it has come to `stage`.
pub open spec fn releases_due(strategy: Strategy, got_connection: bool, stage: StageView) -> nat {
    match stage {
        StageView::Releasing(_) => 1,
        StageView::Closed => if got_connection && strategy == Strategy::Pooled {
            1
        } else {
            0
        },
        _ => 0,
    }
}

/// Where a request stands after any number of events, and how many releases
/// it has asked for by then.
proof fn lemma_course_invariant(
    states: Seq<SessionView>,
    events: Seq<Event>,
    actions: Seq<ActionView>,
)
    requires
        course(states, events, actions),
        states[0].stage is Connecting,
    ensures
        states.last().strategy == states[0].strategy,
        states.last().request == states[0].request,
        states.last().stage is Connecting <==> events.len() == 0,
        states.last().holds_connection() ==> connected(events),
        states.last().stage is Releasing ==> connected(events) && states[0].strategy
            == Strategy::Pooled,
        releases(actions) == releases_due(
            states[0].strategy,
            connected(events),
            states.last().stage,
        ),
    decreases events.len(),
{
    if events.len() > 0 {
        let n = events.len() - 1;
        let before = states.drop_last();
        assert(course(before, events.drop_last(), actions.drop_last())) by {
            assert forall|i: int| 0 <= i < n implies (#[trigger] before[i]).expects(
                events.drop_last()[i],
            ) && before[i].step(events.drop_last()[i], before[i + 1], actions.drop_last()[i]) by {
                assert(states[i].expects(events[i]));
            }
        }
        lemma_course_invariant(before, events.drop_last(), actions.drop_last());
        assert(before.last() == states[n]);
        assert(states[n].expects(events[n]));
        assert(states.last() == states[n + 1]);
        assert(actions.last() == actions[n]);
        if n > 0 {
            assert(events.drop_last()[0] == events[0]);
        }
    }
}

/// A request asks for its connection to be given back exactly once if it was
/// given one from the pool, and never otherwise. That holds whether the
/// commands succeeded or failed: by the time the result is handed out, the
/// release has been asked for.
pub proof fn lemma_released_exactly_once(
    states: Seq<SessionView>,
    events: Seq<Event>,
    actions: Seq<ActionView>,
)
    requires
        course(states, events, actions),
        states[0].stage is Connecting,
    ensures
        releases(actions) <= 1,
        states.last().holds_connection() ==> releases(actions) == 0,
        states.last().stage is Closed ==> releases(actions) == if connected(events)
            && states[0].strategy == Strategy::Pooled {
            1nat
        } else {
            0nat
        },
{
    lemma_course_invariant(states, events, actions);
}

/// A request that holds a pooled connection and learns its result, good or
/// bad, asks for the release before anything else, and hands the result out
/// only once the release is done.
pub proof fn lemma_release_comes_before_the_result(
    session: SessionView,
    event: Event,
    after: SessionView,
    action: ActionView,
)
    requires
        session.strategy == Strategy::Pooled,
        session.holds_connection(),
        session.step(event, after, action),
    ensures
        !(action is Finish),
        after.holds_connection() || (action is Release && after.stage is Releasing),
{
}

/// A request asks for a connection once, when it starts, and never again:
/// nothing that happens to it afterwards makes it connect anew.
pub proof fn lemma_one_connection_per_request(
    states: Seq<SessionView>,
    events: Seq<Event>,
    actions: Seq<ActionView>,
    at: int,
)
    requires
        course(states, events, actions),
        0 <= at < actions.len(),
    ensures
        !(actions[at] is Connect),
{
    assert(states[at].expects(events[at]));
}

/// The bytes that stand for a string read back as that string.
pub proof fn lemma_stored_text_reads_back(bytes: Vec<u8>, text: Seq<char>)
    requires
        bytes@ == encode_utf8(text),
    ensures
        Reply::Bulk(bytes).text() == Some(text),
{
    encode_utf8_valid_utf8(text);
    encode_utf8_decode_utf8(text);
}

/// Whether the event is what a backend reports that keeps what it is given:
/// a read of the key answers with `value`.
pub open spec fn faithful(event: Event, value: Seq<char>) -> bool {
    event matches Event::Fetched(reply) ==> reply.text() == Some(value)
}

/// What a request that met a faithful backend carries as its result.
proof fn lemma_faithful_course(
    states: Seq<SessionView>,
    events: Seq<Event>,
    actions: Seq<ActionView>,
)
    requires
        course(states, events, actions),
        states[0].stage is Connecting,
        forall|i: int|
            0 <= i < events.len() ==> faithful(#[trigger] events[i], states[0].request.value),
    ensures
        states.last().stage matches StageView::Releasing(Ok(text)) ==> text
            == states[0].request.value,
        events.len() > 0 ==> (actions.last() matches ActionView::Finish(Ok(text)) ==> text
            == states[0].request.value),
    decreases events.len(),
{
    if events.len() > 0 {
        let n = events.len() - 1;
        let before = states.drop_last();
        assert(course(before, events.drop_last(), actions.drop_last())) by {
            assert forall|i: int| 0 <= i < n implies (#[trigger] before[i]).expects(
                events.drop_last()[i],
            ) && before[i].step(events.drop_last()[i], before[i + 1], actions.drop_last()[i]) by {
                assert(states[i].expects(events[i]));
            }
        }
        assert forall|i: int| 0 <= i < n implies faithful(
            #[trigger] events.drop_last()[i],
            before[0].request.value,
        ) by {
            assert(faithful(events[i], states[0].request.value));
        }
        lemma_faithful_course(before, events.drop_last(), actions.drop_last());
        lemma_course_invariant(before, events.drop_last(), actions.drop_last());
        assert(before.last() == states[n]);
        assert(states[n].expects(events[n]));
        assert(faithful(events[n], states[0].request.value));
        assert(states.last() == states[n + 1]);
        assert(actions.last() == actions[n]);
    }
}

/// A request that succeeds against a backend that keeps what it is given
/// returns the value it has just written.
pub proof fn lemma_returns_the_value_written(
    states: Seq<SessionView>,
    events: Seq<Event>,
    actions: Seq<ActionView>,
    text: Seq<char>,
)
    requires
        course(states, events, actions),
        states[0].stage is Connecting,
        forall|i: int|
            0 <= i < events.len() ==> faithful(#[trigger] events[i], states[0].request.value),
        events.len() > 0,
        actions.last() == ActionView::Finish(Ok(text)),
    ensures
        text == states[0].request.value,
{
    lemma_faithful_course(states, events, actions);
}

/// The first thing a request does with its connection is to write the record
/// it was made for: the key, the value and the time to live, as given.
pub proof fn lemma_writes_what_was_asked(
    session: SessionView,
    after: SessionView,
    action: ActionView,
)
    requires
        session.stage is Connecting,
        session.step(Event::Connected, after, action),
    ensures
        action == (ActionView::Store {
            key: session.request.key,
            value: session.request.value,
            ttl_seconds: session.request.ttl_seconds,
        }),
        after.holds_connection(),
{
}

/// Whatever a pooled request does leaves the pool and the request
/// well-formed, and the idle and the checked-out connections within the
/// capacity.
pub proof fn lemma_pooled_request_keeps_pool_wf(
    request: PooledView,
    pool: PoolView,
    report: Report,
    pool_after: PoolView,
    after: PooledView,
    next: MoveView,
)
    requires
        request.wf(),
        pool.wf(),
        request.fits(pool, report),
        request.advance_step(pool, report, pool_after, after, next),
    ensures
        after.wf(),
        pool_after.wf(),
        pool_after.idle.len() + pool_after.busy.len() <= pool_after.max_size,
{
    match report {
        Report::Checkout(signal) => match request.conn {
            Some(conn) => {
                let released = choose|released: Released|
                    #[trigger] pool.release_step(conn, false, pool_after, released);
                lemma_step_keeps_pool_wf(
                    pool,
                    PoolOp::Release { conn, broken: false, outcome: released },
                    pool_after,
                );
            },
            None => {
                let turn = choose|turn: Turn|
                    {
                        &&& #[trigger] request.checkout.advance_step(
                            pool,
                            signal,
                            pool_after,
                            after.checkout,
                            turn,
                        )
                        &&& request.after_turn(turn, after, next)
                    };
                lemma_checkout_keeps_pool_wf(
                    request.checkout,
                    pool,
                    signal,
                    pool_after,
                    after.checkout,
                    turn,
                );
            },
        },
        Report::Command(event) => {
            let conn = request.conn->0;
            let (mid, action) = choose|mid: SessionView, action: ActionView|
                {
                    &&& #[trigger] request.session.step(event, mid, action)
                    &&& request.after_command(conn, mid, action, pool, pool_after, after, next)
                };
            if action is Release {
                let released = choose|released: Released|
                    #[trigger] pool.release_step(conn, false, pool_after, released);
                lemma_step_keeps_pool_wf(
                    pool,
                    PoolOp::Release { conn, broken: false, outcome: released },
                    pool_after,
                );
            }
        },
    }
}

/// A pooled request that holds a connection and hands its result out, good
/// or bad, gives the connection back in the same move: the pool takes it as
/// [`PoolView::release_step`] says, and the request holds nothing any more.
/// If nobody waits, the connection rests idle and the pool has as many
/// connections as before.
pub proof fn lemma_connection_is_back_when_the_result_is_out(
    request: PooledView,
    pool: PoolView,
    report: Report,
    pool_after: PoolView,
    after: PooledView,
    next: MoveView,
    conn: ConnId,
)
    requires
        request.wf(),
        pool.wf(),
        request.conn == Some(conn),
        request.fits(pool, report),
        request.advance_step(pool, report, pool_after, after, next),
        next.task is Finish,
    ensures
        after.conn is None,
        after.session.stage is Closed,
        exists|released: Released|
            {
                &&& #[trigger] pool.release_step(conn, false, pool_after, released)
                &&& next.wake == released.spec_wake()
            },
        pool.waiting.len() == 0 ==> pool_after.idle == pool.idle.push(conn) && pool_after.busy
            == pool.busy.remove(conn) && pool_after.idle.len() + pool_after.busy.len()
            == pool.idle.len() + pool.busy.len(),
{
    let event = report->Command_0;
    let (mid, action) = choose|mid: SessionView, action: ActionView|
        {
            &&& #[trigger] request.session.step(event, mid, action)
            &&& request.after_command(conn, mid, action, pool, pool_after, after, next)
        };
    assert(action is Release);
}

/// As long as a pooled request holds a connection and goes on working, it
/// holds the same connection, and the pool is not touched.
pub proof fn lemma_connection_is_kept_while_working(
    request: PooledView,
    pool: PoolView,
    report: Report,
    pool_after: PoolView,
    after: PooledView,
    next: MoveView,
    conn: ConnId,
)
    requires
        request.wf(),
        request.conn == Some(conn),
        request.fits(pool, report),
        request.advance_step(pool, report, pool_after, after, next),
        next.task is Fetch,
    ensures
        after.conn == Some(conn),
        next.task->Fetch_conn == conn,
        pool_after == pool,
        next.wake is None,
{
    let event = report->Command_0;
    let (mid, action) = choose|mid: SessionView, action: ActionView|
        {
            &&& #[trigger] request.session.step(event, mid, action)
            &&& request.after_command(conn, mid, action, pool, pool_after, after, next)
        };
}

/// A pooled request that has ended, with a result or because its caller has
/// gone, holds no connection and is not on its way to one.
pub proof fn lemma_ended_request_holds_nothing(
    request: PooledView,
    pool: PoolView,
    report: Report,
    pool_after: PoolView,
    after: PooledView,
    next: MoveView,
)
    requires
        request.wf(),
        request.fits(pool, report),
        request.advance_step(pool, report, pool_after, after, next),
        next.task is Finish || next.task is Dropped,
    ensures
        after.conn is None,
        after.checkout.phase == Phase::Closed,
{
    match report {
        Report::Checkout(signal) => match request.conn {
            Some(conn) => {},
            None => {
                let turn = choose|turn: Turn|
                    {
                        &&& #[trigger] request.checkout.advance_step(
                            pool,
                            signal,
                            pool_after,
                            after.checkout,
                            turn,
                        )
                        &&& request.after_turn(turn, after, next)
                    };
            },
        },
        Report::Command(event) => {
            let conn = request.conn->0;
            let (mid, action) = choose|mid: SessionView, action: ActionView|
                {
                    &&& #[trigger] request.session.step(event, mid, action)
                    &&& request.after_command(conn, mid, action, pool, pool_after, after, next)
                };
        },
    }
}

/// Once a pooled request has ended, nothing moves it any more: it cannot
/// take a connection again, nor give one back a second time.
pub proof fn lemma_nothing_follows_the_end(request: PooledView, pool: PoolView, report: Report)
    requires
        request.checkout.phase == Phase::Closed,
        request.conn is None,
    ensures
        !request.fits(pool, report),
{
}

} // verus!
