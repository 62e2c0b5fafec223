use vstd::prelude::*;

use crate::service::{
    empty_registry, spec_accept_run, spec_accept_step, spec_connect_step, spec_dispatch,
    spec_event_step, spec_failures_after, spec_listen_step, AcceptAction, AcceptEvent,
    ConnectAction, ConnectEvent, EventEffect, ListenAction, ListenEvent, RegistryView,
    spec_next_queue, Queue, Taken, CONNECT_ATTEMPTS,
};

verus! {

/// A new registry is well formed.
pub proof fn lemma_empty_registry_wf(epoll_fd: i32)
    ensures
        empty_registry(epoll_fd).wf(),
{
}

/// Taking in an event keeps the registry well formed: a pending connect
/// always belongs to a known connection, and only listeners are marked as
/// having a connection to accept.
pub proof fn lemma_event_step_keeps_wf(r: RegistryView, fd: i32, events: u32)
    requires
        r.wf(),
    ensures
        spec_event_step(r, fd, events).0.wf(),
{
}

/// Taking in a batch of events keeps the registry well formed.
pub proof fn lemma_dispatch_keeps_wf(r: RegistryView, events: Seq<(i32, u32)>)
    requires
        r.wf(),
    ensures
        spec_dispatch(r, events).0.wf(),
    decreases events.len(),
{
    if events.len() > 0 {
        lemma_dispatch_keeps_wf(r, events.drop_last());
        let prev = spec_dispatch(r, events.drop_last());
        lemma_event_step_keeps_wf(prev.0, events.last().0, events.last().1);
    }
}

/// Every step of serving a connect request keeps the registry well formed.
pub proof fn lemma_connect_step_keeps_wf(r: RegistryView, ev: ConnectEvent, r2: RegistryView, a: ConnectAction)
    requires
        r.wf(),
        spec_connect_step(r, ev, r2, a),
    ensures
        r2.wf(),
{
}

/// Every step of setting up a listener keeps the registry well formed.
pub proof fn lemma_listen_step_keeps_wf(r: RegistryView, ev: ListenEvent, r2: RegistryView, a: ListenAction)
    requires
        r.wf(),
        spec_listen_step(r, ev, r2, a),
    ensures
        r2.wf(),
{
}

/// Every step of serving an accept request keeps the registry well formed.
pub proof fn lemma_accept_step_keeps_wf(r: RegistryView, ev: AcceptEvent)
    requires
        r.wf(),
    ensures
        spec_accept_step(r, ev).0.wf(),
{
}

/// Readiness is never taken back by an event: a connection that stays known
/// keeps every readiness flag it had.
pub proof fn lemma_event_step_keeps_readiness(r: RegistryView, fd: i32, events: u32)
    ensures
        forall|k: i32|
            #![trigger spec_event_step(r, fd, events).0.conn[k]]
            r.conn.contains_key(k) && spec_event_step(r, fd, events).0.conn.contains_key(k) ==> {
                &&& r.conn[k].can_read ==> spec_event_step(r, fd, events).0.conn[k].can_read
                &&& r.conn[k].can_write ==> spec_event_step(r, fd, events).0.conn[k].can_write
                &&& spec_event_step(r, fd, events).0.conn[k].fd == r.conn[k].fd
            },
{
}

/// A batch of events never takes readiness back from a connection that stays
/// known throughout.
pub proof fn lemma_dispatch_keeps_readiness(r: RegistryView, events: Seq<(i32, u32)>, k: i32)
    requires
        forall|i: int|
            0 <= i <= events.len() ==> #[trigger] spec_dispatch(r, events.take(i)).0.conn.contains_key(
                k,
            ),
    ensures
        r.conn[k].can_read ==> spec_dispatch(r, events).0.conn[k].can_read,
        r.conn[k].can_write ==> spec_dispatch(r, events).0.conn[k].can_write,
    decreases events.len(),
{
    assert(events.take(events.len() as int) =~= events);
    assert(events.take(0) =~= Seq::<(i32, u32)>::empty());
    assert(spec_dispatch(r, events.take(0)).0.conn.contains_key(k));
    if events.len() > 0 {
        let init = events.drop_last();
        assert forall|i: int| 0 <= i <= init.len() implies #[trigger] spec_dispatch(
            r,
            init.take(i),
        ).0.conn.contains_key(k) by {
            assert(init.take(i) =~= events.take(i));
            assert(spec_dispatch(r, events.take(i)).0.conn.contains_key(k));
        }
        lemma_dispatch_keeps_readiness(r, init, k);
        assert(events.take(init.len() as int) =~= init);
        assert(spec_dispatch(r, events.take(init.len() as int)).0.conn.contains_key(k));
        let prev = spec_dispatch(r, init);
        lemma_event_step_keeps_readiness(prev.0, events.last().0, events.last().1);
        assert(spec_event_step(prev.0, events.last().0, events.last().1).0.conn[k]
            == spec_dispatch(r, events).0.conn[k]);
    }
}

/// A pending connect is told its outcome at most once: an event tells it
/// exactly when it was pending, and after that it is no longer pending; no
/// event ever makes a connect pending.
pub proof fn lemma_connect_outcome_told_once(r: RegistryView, fd: i32, events: u32)
    ensures
        ({
            let (r2, e) = spec_event_step(r, fd, events);
            &&& r2.connect_wait.subset_of(r.connect_wait)
            &&& !r2.connect_wait.contains(fd) || r2.connect_wait == r.connect_wait
            &&& (e matches EventEffect::Writable { connected } ==> connected == r.connect_wait.contains(fd)
                && !r2.connect_wait.contains(fd))
            &&& (e matches EventEffect::HungUp { waiting } ==> waiting == r.connect_wait.contains(fd)
                && !r2.connect_wait.contains(fd) && !r2.conn.contains_key(fd))
        }),
{
}

/// An event on a descriptor the registry does not know changes nothing.
pub proof fn lemma_unknown_fd_event_changes_nothing(r: RegistryView, fd: i32, events: u32)
    requires
        r.wf(),
        !r.conn.contains_key(fd),
        !r.listener.contains(fd),
    ensures
        spec_event_step(r, fd, events).0 == r,
        spec_event_step(r, fd, events).1 is Ignored || spec_event_step(r, fd, events).1
            == (EventEffect::HungUp { waiting: false }),
{
    let r2 = spec_event_step(r, fd, events).0;
    assert(r.conn.remove(fd) =~= r.conn);
    assert(r.connect_wait.remove(fd) =~= r.connect_wait);
}

/// One readable report of a listener serves one accept request: a second
/// request right after the first has been taken up is refused.
pub proof fn lemma_accept_uses_up_readiness(r: RegistryView, listen_fd: i32)
    ensures
        ({
            let (r2, a) = spec_accept_step(r, AcceptEvent::Requested { listen_fd });
            a is Accept ==> spec_accept_step(r2, AcceptEvent::Requested { listen_fd }) == (
            r2, AcceptAction::Refuse)
        }),
{
}

/// Taking in two batches of events one after the other is the same as taking
/// in the two as one batch.
pub proof fn lemma_dispatch_append(r: RegistryView, a: Seq<(i32, u32)>, b: Seq<(i32, u32)>)
    ensures
        ({
            let (r1, e1) = spec_dispatch(r, a);
            let (r2, e2) = spec_dispatch(r1, b);
            spec_dispatch(r, a + b) == (r2, e1 + e2)
        }),
    decreases b.len(),
{
    if b.len() == 0 {
        assert(a + b =~= a);
        let e1 = spec_dispatch(r, a).1;
        assert(e1 + Seq::<EventEffect>::empty() =~= e1);
    } else {
        lemma_dispatch_append(r, a, b.drop_last());
        assert((a + b).drop_last() =~= a + b.drop_last());
        assert((a + b).last() == b.last());
        let (r1, e1) = spec_dispatch(r, a);
        let prev = spec_dispatch(r1, b.drop_last());
        let step = spec_event_step(prev.0, b.last().0, b.last().1);
        assert(e1 + prev.1.push(step.1) =~= (e1 + prev.1).push(step.1));
    }
}

/// A connect is tried at most [`CONNECT_ATTEMPTS`] times: after `k` failed
/// attempts in a row the count of failures is `k`, up to that bound, and the
/// `k`-th failure leads to another attempt exactly when `k` is below it.
pub proof fn lemma_connect_attempts_bounded(k: nat)
    ensures
        spec_failures_after(k) == (if k < CONNECT_ATTEMPTS {
            k
        } else {
            CONNECT_ATTEMPTS as nat
        }),
        k >= 1 ==> (spec_failures_after(k) < CONNECT_ATTEMPTS <==> k < CONNECT_ATTEMPTS),
    decreases k,
{
    if k > 0 {
        lemma_connect_attempts_bounded((k - 1) as nat);
    }
}

/// The actions of a run of accept steps, one for each step.
pub proof fn lemma_accept_run_len(r: RegistryView, events: Seq<AcceptEvent>)
    ensures
        spec_accept_run(r, events).1.len() == events.len(),
    decreases events.len(),
{
    if events.len() > 0 {
        lemma_accept_run_len(r, events.drop_last());
    }
}

/// Accept steps never mark a listener as having a connection to accept; they
/// only take such marks away.
pub proof fn lemma_accept_run_only_unmarks(r: RegistryView, events: Seq<AcceptEvent>, listen_fd: i32)
    requires
        !r.can_accept.contains_key(listen_fd),
    ensures
        !spec_accept_run(r, events).0.can_accept.contains_key(listen_fd),
    decreases events.len(),
{
    if events.len() > 0 {
        lemma_accept_run_only_unmarks(r, events.drop_last(), listen_fd);
    }
}

/// After a run of accept steps whose `i`-th action accepted on `listen_fd`,
/// the listener is no longer marked as having a connection to accept.
pub proof fn lemma_accept_run_unmarks(r: RegistryView, events: Seq<AcceptEvent>, listen_fd: i32, i: int)
    requires
        0 <= i < events.len(),
        spec_accept_run(r, events).1[i] == (AcceptAction::Accept { listen_fd }),
    ensures
        !spec_accept_run(r, events).0.can_accept.contains_key(listen_fd),
    decreases events.len(),
{
    let init = events.drop_last();
    lemma_accept_run_len(r, init);
    let prev = spec_accept_run(r, init);
    if i < events.len() - 1 {
        assert(spec_accept_run(r, events).1[i] == prev.1[i]);
        lemma_accept_run_unmarks(r, init, listen_fd, i);
    }
}

/// One readable report of a listener serves at most one accept: over any run
/// of accept steps with no event taken in between, a connection is accepted
/// on `listen_fd` at most once, and every request for `listen_fd` after that
/// is refused.
pub proof fn lemma_accept_readiness_used_once(
    r: RegistryView,
    events: Seq<AcceptEvent>,
    listen_fd: i32,
    i: int,
    j: int,
)
    requires
        0 <= i < j < events.len(),
        spec_accept_run(r, events).1[i] == (AcceptAction::Accept { listen_fd }),
    ensures
        spec_accept_run(r, events).1[j] != (AcceptAction::Accept { listen_fd }),
        events[j] == (AcceptEvent::Requested { listen_fd }) ==> spec_accept_run(r, events).1[j]
            == AcceptAction::Refuse,
    decreases events.len(),
{
    let init = events.drop_last();
    lemma_accept_run_len(r, init);
    let prev = spec_accept_run(r, init);
    assert(spec_accept_run(r, events).1[i] == prev.1[i]);
    if j < events.len() - 1 {
        assert(spec_accept_run(r, events).1[j] == prev.1[j]);
        assert(events[j] == init[j]);
        lemma_accept_readiness_used_once(r, init, listen_fd, i, j);
    } else {
        lemma_accept_run_unmarks(r, init, listen_fd, i);
    }
}

/// The place of a queue in the order in which a turn serves them.
pub open spec fn queue_rank(q: Queue) -> int {
    match q {
        Queue::Connect => 0,
        Queue::Listen => 1,
        Queue::Accept => 2,
        Queue::Read => 3,
        Queue::Write => 4,
    }
}

/// A turn of serving never goes back to an earlier queue; it stays on a
/// queue only after a request from it was served, and never stays on the
/// listen queue.
pub proof fn lemma_serving_moves_forward(q: Queue, taken: Taken)
    ensures
        spec_next_queue(q, taken) matches Some(n) ==> queue_rank(n) >= queue_rank(q),
        spec_next_queue(q, taken) matches Some(n) && n == q ==> taken == Taken::Served && q
            != Queue::Listen,
        spec_next_queue(q, taken) is None ==> q == Queue::Write && taken != Taken::Served,
{
}

} // verus!
