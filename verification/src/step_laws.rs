use vstd::prelude::*;

use crate::net::{
    fresh_socket, port_bytes, port_of_bytes, spec_domain_of, spec_fd_result, spec_len_result,
    spec_socket_addr, spec_to_socket_addr, NetError, SockAddr, SockAddrView, AF_INET, AF_INET6,
    SOCKADDR_IN6_LEN, SOCKADDR_IN_LEN, V4_BOUND_PORT,
};
use crate::service::{
    empty_registry, spec_accept_step, spec_connect_step, spec_dispatch, spec_event_step, spec_listen_step,
    spec_loop_phase, spec_next_queue, spec_recv_result, AcceptAction, AcceptEvent, ConnectAction,
    ConnectEvent, EventEffect, ListenAction, ListenEvent, LoopPhase, Queue, RegistryView, Taken,
    EINPROGRESS, EPOLLHUP, EPOLLIN, EPOLLOUT,
};
use crate::tcp::{spec_read_poll, ReadPoll};

verus! {

// ---------------------------------------------------------------------------
// System-call results
// ---------------------------------------------------------------------------

/// A non-negative descriptor is the result itself; a negative one is a
/// failure with the OS error number given.
pub proof fn lemma_fd_result_meaning(ret: i32, errno: i32)
    ensures
        (ret >= 0 ==> spec_fd_result(ret, errno) == Ok::<i32, NetError>(ret)),
        (ret < 0 ==> spec_fd_result(ret, errno) == Err::<i32, NetError>(NetError::Os(errno))),
{
}

/// A non-negative byte count is the result itself; a negative one is a
/// failure with the OS error number given.
pub proof fn lemma_len_result_meaning(ret: isize, errno: i32)
    ensures
        (ret >= 0 ==> (spec_len_result(ret, errno) matches Ok(n) && n == ret)),
        (ret < 0 ==> spec_len_result(ret, errno) == Err::<usize, NetError>(NetError::Os(errno))),
{
}

/// A receive that returned `-1` received nothing; any other negative value is
/// a failure with the OS error number given; a count is returned as it is.
pub proof fn lemma_recv_result_meaning(read_len: isize, errno: i32)
    ensures
        (read_len == -1 ==> spec_recv_result(read_len, errno) == Ok::<usize, NetError>(0)),
        (read_len < -1 ==> spec_recv_result(read_len, errno) == Err::<usize, NetError>(
            NetError::Os(errno),
        )),
        (read_len >= 0 ==> (spec_recv_result(read_len, errno) matches Ok(n) && n == read_len)),
{
}

/// A new socket keeps its descriptor and has no readiness.
pub proof fn lemma_fresh_socket_has_no_readiness(fd: i32)
    ensures
        (fresh_socket(fd).fd == fd),
        (!fresh_socket(fd).can_read),
        (!fresh_socket(fd).can_write),
        (!fresh_socket(fd).lose_connect),
{
}

// ---------------------------------------------------------------------------
// Socket addresses
// ---------------------------------------------------------------------------

/// A port is written as two bytes, the high one first.
pub proof fn lemma_port_bytes_big_endian(port: u16)
    ensures
        (port_bytes(port).len() == 2),
        (port_bytes(port)[0] * 256 + port_bytes(port)[1] == port),
        (port_of_bytes(port_bytes(port)) == port),
{
}

/// Two bytes denote the port with the first as the high byte.
pub proof fn lemma_port_of_bytes_big_endian(b: Seq<u8>)
    requires
        b.len() == 2,
    ensures
        (port_of_bytes(b) == b[0] * 256 + b[1]),
{
}

/// The C form of an address has the family, length, port and address of the
/// address, except that an IPv4 address is written with port 80 and padded
/// with zeros.
pub proof fn lemma_socket_addr_fields(a: SockAddr)
    ensures
        ({
            let (raw, len) = spec_socket_addr(a@);
            match a@ {
                SockAddrView::V4 { ip, port } => {
                    &&& raw.family == AF_INET
                    &&& len == SOCKADDR_IN_LEN
                    &&& raw.addr.len() == 16
                    &&& raw.addr.subrange(0, 4) == ip
                    &&& forall|i: int| 4 <= i < 16 ==> raw.addr[i] == 0
                    &&& port_of_bytes(raw.port) == V4_BOUND_PORT
                    &&& raw.flowinfo == 0 && raw.scope_id == 0
                },
                SockAddrView::V6 { ip, port, flowinfo, scope_id } => {
                    &&& raw.family == AF_INET6
                    &&& len == SOCKADDR_IN6_LEN
                    &&& raw.addr == ip
                    &&& raw.port.len() == 2 && raw.port[0] * 256 + raw.port[1] == port
                    &&& raw.flowinfo == flowinfo && raw.scope_id == scope_id
                },
            }
        }),
{
    let (raw, len) = spec_socket_addr(a@);
    match a {
        SockAddr::V4 { ip, port } => {
            assert(raw.addr.subrange(0, 4) =~= ip@);
        },
        SockAddr::V6 { .. } => {
        },
    }
}

/// Reading a C address: the family decides the kind of address, the first
/// four address bytes make an IPv4 address, the port is read high byte first,
/// and any other family is an invalid input.
pub proof fn lemma_to_socket_addr_fields(raw: crate::net::RawSockAddr)
    ensures
        (raw.family as i32 == AF_INET ==> (spec_to_socket_addr(raw@) matches Ok(SockAddrView::V4 { ip, port })
            && ip == raw.addr@.subrange(0, 4) && port == raw.port[0] * 256 + raw.port[1])),
        (raw.family as i32 == AF_INET6 ==> (spec_to_socket_addr(raw@) matches Ok(
            SockAddrView::V6 { ip, port, flowinfo, scope_id },
        ) && ip == raw.addr@ && port == raw.port[0] * 256 + raw.port[1] && flowinfo
            == raw.flowinfo && scope_id == raw.scope_id)),
        (raw.family as i32 != AF_INET && raw.family as i32 != AF_INET6 ==> spec_to_socket_addr(raw@)
            == Err::<SockAddrView, NetError>(NetError::InvalidInput)),
{
}

/// A socket for an address has the address's family as its domain.
pub proof fn lemma_domain_is_family(a: SockAddr)
    ensures
        (spec_domain_of(a@) == spec_socket_addr(a@).0.family as i32),
{
}

// ---------------------------------------------------------------------------
// Events
// ---------------------------------------------------------------------------

/// A new registry knows no connection, listener or pending connect, and
/// keeps the event queue it was made for.
pub proof fn lemma_empty_registry_knows_nothing(epoll_fd: i32, fd: i32)
    ensures
        empty_registry(epoll_fd).epoll_fd == epoll_fd,
        !empty_registry(epoll_fd).conn.contains_key(fd),
        !empty_registry(epoll_fd).listener.contains(fd),
        !empty_registry(epoll_fd).can_accept.contains_key(fd),
        !empty_registry(epoll_fd).connect_wait.contains(fd),
        !empty_registry(epoll_fd).conn_belong_listener.contains_key(fd),
{
}

/// An event for `fd` changes nothing the registry holds for another
/// descriptor, and never changes the listeners, the event queue or where
/// accepted connections came from.
pub proof fn lemma_event_step_frame(r: RegistryView, fd: i32, events: u32, k: i32)
    requires
        k != fd,
    ensures
        ({
            let r2 = spec_event_step(r, fd, events).0;
            &&& r2.conn.contains_key(k) == r.conn.contains_key(k)
            &&& r.conn.contains_key(k) ==> r2.conn[k] == r.conn[k]
            &&& r2.can_accept.contains_key(k) == r.can_accept.contains_key(k)
            &&& r.can_accept.contains_key(k) ==> r2.can_accept[k] == r.can_accept[k]
            &&& r2.connect_wait.contains(k) == r.connect_wait.contains(k)
            &&& r2.listener == r.listener
            &&& r2.epoll_fd == r.epoll_fd
            &&& r2.conn_belong_listener == r.conn_belong_listener
        }),
{
}

/// Only a readable report marks a connection readable, only a writable report
/// (without a readable one) marks it writable, and a socket keeps its
/// descriptor. A known connection reported readable becomes readable; one
/// reported only writable becomes writable with its readability unchanged.
pub proof fn lemma_event_step_flags(r: RegistryView, fd: i32, events: u32, k: i32)
    ensures
        ({
            let r2 = spec_event_step(r, fd, events).0;
            &&& r.conn.contains_key(k) && r2.conn.contains_key(k) && events & EPOLLIN == 0 ==> r2.conn[k].can_read
                == r.conn[k].can_read
            &&& r.conn.contains_key(k) && r2.conn.contains_key(k) && (events & EPOLLOUT == 0
                || events & EPOLLIN != 0) ==> r2.conn[k].can_write == r.conn[k].can_write
            &&& r.conn.contains_key(k) && r2.conn.contains_key(k) ==> r2.conn[k].fd == r.conn[k].fd
                && r2.conn[k].lose_connect == r.conn[k].lose_connect
            &&& r.conn.contains_key(fd) && events & EPOLLIN != 0 ==> r2.conn.contains_key(fd)
                && r2.conn[fd].can_read
            &&& r.conn.contains_key(fd) && events & EPOLLIN == 0 && events & EPOLLOUT != 0
                ==> r2.conn.contains_key(fd) && r2.conn[fd].can_write
        }),
{
}

/// A connection is dropped only by a hang-up report for it (without a
/// readable or writable one), and no event adds a connection.
pub proof fn lemma_event_step_membership(r: RegistryView, fd: i32, events: u32)
    ensures
        ({
            let r2 = spec_event_step(r, fd, events).0;
            &&& r2.conn.dom().subset_of(r.conn.dom())
            &&& r.conn.contains_key(fd) && !r2.conn.contains_key(fd) ==> events & EPOLLIN == 0
                && events & EPOLLOUT == 0 && events & EPOLLHUP != 0
            &&& events & EPOLLIN == 0 && events & EPOLLOUT == 0 && events & EPOLLHUP != 0
                ==> !r2.conn.contains_key(fd)
        }),
{
}

/// A listener is marked as having a connection to accept exactly when a
/// readable report comes for it and it is not a connection; nothing else
/// marks or unmarks it.
pub proof fn lemma_event_step_marks_acceptable(r: RegistryView, fd: i32, events: u32)
    ensures
        ({
            let (r2, e) = spec_event_step(r, fd, events);
            &&& (events & EPOLLIN != 0 && !r.conn.contains_key(fd) && r.listener.contains(fd))
                ==> r2.can_accept.contains_key(fd) && r2.can_accept[fd] && e == EventEffect::Acceptable
            &&& !(events & EPOLLIN != 0 && !r.conn.contains_key(fd) && r.listener.contains(fd))
                ==> r2.can_accept == r.can_accept && e != EventEffect::Acceptable
        }),
{
}

/// The effect of an event says what happened: readable for a known
/// connection reported readable, writable for one reported writable, hung up
/// for a hang-up report, and ignored otherwise.
pub proof fn lemma_event_step_effect(r: RegistryView, fd: i32, events: u32)
    ensures
        ({
            let e = spec_event_step(r, fd, events).1;
            &&& e == EventEffect::Readable <==> events & EPOLLIN != 0 && r.conn.contains_key(fd)
            &&& e is Writable <==> events & EPOLLIN == 0 && events & EPOLLOUT != 0
                && r.conn.contains_key(fd)
            &&& e is HungUp <==> events & EPOLLIN == 0 && events & EPOLLOUT == 0 && events
                & EPOLLHUP != 0
        }),
{
}

/// Every event gets exactly one effect in a batch, and a batch of one event is
/// that event's step.
pub proof fn lemma_dispatch_one_effect_per_event(r: RegistryView, events: Seq<(i32, u32)>)
    ensures
        (spec_dispatch(r, events).1.len() == events.len()),
        (events.len() == 1 ==> spec_dispatch(r, events) == (
            spec_event_step(r, events[0].0, events[0].1).0,
            seq![spec_event_step(r, events[0].0, events[0].1).1],
        )),
    decreases events.len(),
{
    if events.len() > 0 {
        lemma_dispatch_one_effect_per_event(r, events.drop_last());
        if events.len() == 1 {
            assert(events.drop_last() =~= Seq::<(i32, u32)>::empty());
            assert(Seq::<EventEffect>::empty().push(spec_event_step(r, events[0].0, events[0].1).1)
                =~= seq![spec_event_step(r, events[0].0, events[0].1).1]);
        }
    }
}

// ---------------------------------------------------------------------------
// Connecting
// ---------------------------------------------------------------------------

/// A connect that failed for any cause but being in progress is answered with
/// that cause and registers nothing; a connect that succeeded or is in
/// progress registers `fd` as a connection without readiness that waits to
/// become writable, and changes nothing else.
pub proof fn lemma_connect_outcome(r: RegistryView, fd: i32, ret: i32, errno: i32, r2: RegistryView, a: ConnectAction)
    requires
        spec_connect_step(r, ConnectEvent::Connected { fd, ret, errno }, r2, a),
    ensures
        (ret < 0 && errno != EINPROGRESS ==> a == (ConnectAction::Fail { err: NetError::Os(errno) })
            && r2 == r),
        (ret >= 0 || errno == EINPROGRESS ==> {
            &&& a == ConnectAction::Registered { fd }
            &&& r2.conn.contains_key(fd) && r2.conn[fd] == fresh_socket(fd)
            &&& r2.connect_wait.contains(fd)
            &&& forall|k: i32| k != fd ==> (#[trigger] r2.conn.contains_key(k) == r.conn.contains_key(k))
            &&& forall|k: i32| k != fd && r.conn.contains_key(k) ==> #[trigger] r2.conn[k] == r.conn[k]
            &&& forall|k: i32| k != fd ==> (#[trigger] r2.connect_wait.contains(k) == r.connect_wait.contains(k))
            &&& r2.listener == r.listener && r2.can_accept == r.can_accept
            &&& r2.conn_belong_listener == r.conn_belong_listener && r2.epoll_fd == r.epoll_fd
        }),
{
}

/// Before the connect itself, the steps leave the registry alone and act on
/// the socket they were told of; the connect goes to the address asked for
/// (with port 80 for IPv4).
pub proof fn lemma_connect_setup(r: RegistryView, ev: ConnectEvent, r2: RegistryView, a: ConnectAction)
    requires
        spec_connect_step(r, ev, r2, a),
        !(ev is Connected),
    ensures
        r2 == r,
        ({
            match ev {
                ConnectEvent::Opened { fd } => a == ConnectAction::SetNonBlocking { fd },
                ConnectEvent::NonBlocking { fd } => {
                    &&& a matches ConnectAction::Watch { fd: f, events }
                    &&& f == fd && events & EPOLLIN != 0 && events & EPOLLOUT != 0
                },
                ConnectEvent::Watched { fd, addr } => {
                    &&& a matches ConnectAction::Connect { fd: f, raw, len }
                    &&& f == fd
                    &&& spec_to_socket_addr(raw@) == Ok::<SockAddrView, NetError>(
                        match addr@ {
                            SockAddrView::V4 { ip, port } => SockAddrView::V4 { ip, port: V4_BOUND_PORT },
                            SockAddrView::V6 { .. } => addr@,
                        },
                    )
                },
                ConnectEvent::Connected { .. } => true,
            }
        }),
{
    if let ConnectEvent::NonBlocking { fd } = ev {
        assert(crate::service::CONNECT_WATCH & EPOLLIN != 0) by (bit_vector);
        assert(crate::service::CONNECT_WATCH & EPOLLOUT != 0) by (bit_vector);
    }
    if let ConnectEvent::Watched { fd, addr } = ev {
        crate::net::lemma_socket_addr_round_trip(addr);
    }
}

// ---------------------------------------------------------------------------
// Listening
// ---------------------------------------------------------------------------

/// Setting up a listener changes the registry only when listening succeeded,
/// and then only by adding `fd` to the listeners; any step whose call failed
/// is answered with that call's OS error.
pub proof fn lemma_listen_outcome(r: RegistryView, ev: ListenEvent, r2: RegistryView, a: ListenAction)
    requires
        spec_listen_step(r, ev, r2, a),
    ensures
        ({
            match ev {
                ListenEvent::Opened { fd, addr } => {
                    &&& r2 == r
                    &&& a matches ListenAction::Bind { fd: f, raw, len }
                    &&& f == fd
                    &&& spec_to_socket_addr(raw@) == Ok::<SockAddrView, NetError>(
                        match addr@ {
                            SockAddrView::V4 { ip, port } => SockAddrView::V4 { ip, port: V4_BOUND_PORT },
                            SockAddrView::V6 { .. } => addr@,
                        },
                    )
                },
                ListenEvent::Bound { fd, ret, errno } => {
                    &&& r2 == r
                    &&& ret < 0 ==> a == (ListenAction::Fail { err: NetError::Os(errno) })
                    &&& ret >= 0 ==> (a matches ListenAction::Watch { fd: f, events } && f == fd
                        && events & EPOLLIN != 0)
                },
                ListenEvent::Watched { fd, ret, errno } => {
                    &&& r2 == r
                    &&& ret < 0 ==> a == (ListenAction::Fail { err: NetError::Os(errno) })
                    &&& ret >= 0 ==> (a matches ListenAction::Listen { fd: f, backlog } && f == fd
                        && backlog > 0)
                },
                ListenEvent::Listened { fd, ret, errno } => {
                    &&& ret < 0 ==> r2 == r && a == (ListenAction::Fail { err: NetError::Os(errno) })
                    &&& ret >= 0 ==> r2 == (RegistryView { listener: r.listener.insert(fd), ..r })
                        && a == (ListenAction::Ready { fd })
                },
            }
        }),
{
    if let ListenEvent::Bound { fd, ret, errno } = ev {
        assert(crate::service::LISTEN_WATCH & EPOLLIN != 0) by (bit_vector);
    }
    if let ListenEvent::Opened { fd, addr } = ev {
        crate::net::lemma_socket_addr_round_trip(addr);
    }
}

// ---------------------------------------------------------------------------
// Accepting
// ---------------------------------------------------------------------------

/// A request to accept on `listen_fd` is served exactly when that listener is
/// marked as having a connection to accept; serving it takes away only that
/// listener's mark, and leaves every other listener's mark and the rest of
/// the registry as they were.
pub proof fn lemma_accept_request(r: RegistryView, listen_fd: i32, l: i32)
    ensures
        ({
            let (r2, a) = spec_accept_step(r, AcceptEvent::Requested { listen_fd });
            &&& (a == AcceptAction::Accept { listen_fd }) <==> (r.can_accept.contains_key(listen_fd)
                && r.can_accept[listen_fd])
            &&& (a is Accept || a is Refuse)
            &&& a is Refuse ==> r2 == r
            &&& a is Accept ==> !r2.can_accept.contains_key(listen_fd)
            &&& l != listen_fd ==> r2.can_accept.contains_key(l) == r.can_accept.contains_key(l)
            &&& l != listen_fd && r.can_accept.contains_key(l) ==> r2.can_accept[l] == r.can_accept[l]
            &&& r2.conn == r.conn && r2.listener == r.listener && r2.connect_wait == r.connect_wait
            &&& r2.conn_belong_listener == r.conn_belong_listener && r2.epoll_fd == r.epoll_fd
        }),
{
}

/// After a connection was accepted, a failed accept (a negative descriptor) or
/// a failed watch is refused and registers nothing; otherwise the accepted
/// descriptor is watched for readable events and then registered as a
/// connection without readiness that came from `listen_fd`. No step after the
/// request touches a listener's mark.
pub proof fn lemma_accept_completion(r: RegistryView, ev: AcceptEvent, k: i32)
    requires
        !(ev is Requested),
    ensures
        ({
            let (r2, a) = spec_accept_step(r, ev);
            &&& r2.can_accept == r.can_accept && r2.listener == r.listener
            &&& r2.connect_wait == r.connect_wait && r2.epoll_fd == r.epoll_fd
            &&& (ev matches AcceptEvent::Accepted { listen_fd, client_fd } ==> {
                &&& r2 == r
                &&& client_fd < 0 ==> a == AcceptAction::Refuse
                &&& client_fd >= 0 ==> (a matches AcceptAction::Watch { listen_fd: l, client_fd: c, events }
                    && l == listen_fd && c == client_fd && events & EPOLLIN != 0)
            })
            &&& (ev matches AcceptEvent::Watched { listen_fd, client_fd, ret } ==> {
                &&& ret != 0 ==> a == AcceptAction::Refuse && r2 == r
                &&& ret == 0 ==> {
                    &&& a == (AcceptAction::Deliver { listen_fd, client_fd })
                    &&& r2.conn.contains_key(client_fd) && r2.conn[client_fd] == fresh_socket(client_fd)
                    &&& r2.conn_belong_listener.contains_key(client_fd)
                    &&& r2.conn_belong_listener[client_fd] == listen_fd
                    &&& k != client_fd ==> r2.conn.contains_key(k) == r.conn.contains_key(k)
                    &&& k != client_fd && r.conn.contains_key(k) ==> r2.conn[k] == r.conn[k]
                }
            })
        }),
{
    if let AcceptEvent::Accepted { listen_fd, client_fd } = ev {
        assert(crate::service::ACCEPT_WATCH & EPOLLIN != 0) by (bit_vector);
    }
}

// ---------------------------------------------------------------------------
// The loop and polls
// ---------------------------------------------------------------------------

/// A wait that brought no event serves the queues, a failed wait stops the
/// loop, and a wait that brought events hands all of them to the registry.
pub proof fn lemma_loop_phase_meaning(nevents: i32)
    requires
        nevents >= -1,
    ensures
        (spec_loop_phase(nevents) == LoopPhase::Serve <==> nevents == 0),
        (spec_loop_phase(nevents) == LoopPhase::Failed <==> nevents == -1),
        (nevents > 0 ==> spec_loop_phase(nevents) == (LoopPhase::Dispatch { count: nevents as usize })),
{
}

/// The place of a queue in the order in which a turn serves them.
pub open spec fn serving_rank(q: Queue) -> int {
    match q {
        Queue::Connect => 0,
        Queue::Listen => 1,
        Queue::Accept => 2,
        Queue::Read => 3,
        Queue::Write => 4,
    }
}

/// Serving stays on a queue after serving one of its requests, except the
/// listen queue, and otherwise moves to the next queue; the turn ends after
/// the write queue is found empty.
pub proof fn lemma_serving_order(q: Queue, taken: Taken)
    ensures
        (spec_next_queue(q, taken) is None <==> q == Queue::Write && taken != Taken::Served),
        (spec_next_queue(q, taken) matches Some(n) ==> serving_rank(n) == serving_rank(q) + (if taken
            == Taken::Served && q != Queue::Listen {
            0int
        } else {
            1int
        })),
{
}

/// A read poll is ready with the byte count exactly when the socket was read
/// and bytes came; an unreadable socket, an empty read and a read that would
/// block leave it pending, and any other failure is passed on.
pub proof fn lemma_read_poll_meaning(result: Option<Result<usize, NetError>>, len: usize)
    ensures
        (spec_read_poll(result) == (ReadPoll::Ready { len }) <==> (result == Some(
            Ok::<usize, NetError>(len),
        ) && len > 0)),
        (spec_read_poll(result) == ReadPoll::Pending <==> (result is None || result == Some(
            Ok::<usize, NetError>(0),
        ) || result == Some(Err::<usize, NetError>(NetError::Os(crate::service::EAGAIN))))),
        ({
            match result {
                Some(Err(err)) => err != NetError::Os(crate::service::EAGAIN) ==> spec_read_poll(result)
                    == (ReadPoll::Failed { err }),
                _ => spec_read_poll(result) is Failed ==> false,
            }
        }),
{
}

} // verus!
