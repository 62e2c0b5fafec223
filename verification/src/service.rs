use std::collections::BTreeMap;
use std::collections::BTreeSet;
use vstd::prelude::*;

use crate::net::{
    fresh_socket, socket_addr, spec_len_result, spec_socket_addr, NetError, RawSockAddr, SockAddr,
    Socket, SocketView,
};

verus! {

/// The event bit for a readable descriptor (`EPOLLIN`).
pub const EPOLLIN: u32 = 0x001;

/// The event bit for a writable descriptor (`EPOLLOUT`).
pub const EPOLLOUT: u32 = 0x004;

/// The event bit for a hung-up descriptor (`EPOLLHUP`).
pub const EPOLLHUP: u32 = 0x010;

/// The flag that asks for edge-triggered events (`EPOLLET`).
pub const EPOLLET: u32 = 0x8000_0000;

/// The OS error number of a connection that is still being set up (`EINPROGRESS`).
pub const EINPROGRESS: i32 = 115;

/// The OS error number of an operation that would block (`EAGAIN`).
pub const EAGAIN: i32 = 11;

/// The most events one wait of the loop returns, and the listen backlog.
pub const MAX_EVENTS: i32 = 1024;

// ---------------------------------------------------------------------------
// The registry of the network loop
// ---------------------------------------------------------------------------

/// What the network loop knows of its descriptors: the connections and their
/// readiness, the listeners, the listeners with a connection to accept, the
/// connections whose connect is still pending, and the listener each accepted
/// connection came from.
pub struct Registry {
    epoll_fd: i32,
    conn: BTreeMap<i32, Socket>,
    listener: BTreeSet<i32>,
    can_accept: BTreeMap<i32, bool>,
    connect_wait: BTreeSet<i32>,
    conn_belong_listener: BTreeMap<i32, i32>,
}

/// The abstract state of a [`Registry`].
pub struct RegistryView {
    pub epoll_fd: i32,
    pub conn: Map<i32, SocketView>,
    pub listener: Set<i32>,
    pub can_accept: Map<i32, bool>,
    pub connect_wait: Set<i32>,
    pub conn_belong_listener: Map<i32, i32>,
}

impl View for Registry {
    type V = RegistryView;

    closed spec fn view(&self) -> RegistryView {
        RegistryView {
            epoll_fd: self.epoll_fd,
            conn: self.conn@.map_values(|s: Socket| s@),
            listener: self.listener@,
            can_accept: self.can_accept@,
            connect_wait: self.connect_wait@,
            conn_belong_listener: self.conn_belong_listener@,
        }
    }
}

impl RegistryView {
    /// Every pending connect belongs to a known connection, and only
    /// listeners are marked as having a connection to accept.
    pub open spec fn wf(self) -> bool {
        &&& self.connect_wait.subset_of(self.conn.dom())
        &&& self.can_accept.dom().subset_of(self.listener)
    }
}

/// The state of a new registry on the event queue `epoll_fd`.
pub open spec fn empty_registry(epoll_fd: i32) -> RegistryView {
    RegistryView {
        epoll_fd,
        conn: Map::empty(),
        listener: Set::empty(),
        can_accept: Map::empty(),
        connect_wait: Set::empty(),
        conn_belong_listener: Map::empty(),
    }
}

/// What the caller must do after the registry has taken in one event.
#[derive(Debug, Clone, Copy, PartialEq, Eq)]
pub enum EventEffect {
    /// The connection became readable: mark its shared socket readable.
    Readable,
    /// The listener has a connection to accept.
    Acceptable,
    /// The connection became writable: mark its shared socket writable, and,
    /// where `connected`, tell the waiting connect that it succeeded.
    Writable { connected: bool },
    /// The connection hung up and is forgotten; where `waiting`, tell the
    /// waiting connect that it failed.
    HungUp { waiting: bool },
    /// The event concerns nothing the registry knows, or nothing it handles.
    Ignored,
}

/// The registry after one event for `fd`, and what the caller must do.
/// A readable event counts before a writable one, and that before a hang-up.
pub open spec fn spec_event_step(r: RegistryView, fd: i32, events: u32) -> (RegistryView, EventEffect) {
    if events & EPOLLIN != 0 {
        if r.conn.contains_key(fd) {
            (
                RegistryView { conn: r.conn.insert(fd, SocketView { can_read: true, ..r.conn[fd] }), ..r },
                EventEffect::Readable,
            )
        } else if r.listener.contains(fd) {
            (RegistryView { can_accept: r.can_accept.insert(fd, true), ..r }, EventEffect::Acceptable)
        } else {
            (r, EventEffect::Ignored)
        }
    } else if events & EPOLLOUT != 0 {
        if r.conn.contains_key(fd) {
            (
                RegistryView {
                    conn: r.conn.insert(fd, SocketView { can_write: true, ..r.conn[fd] }),
                    connect_wait: r.connect_wait.remove(fd),
                    ..r
                },
                EventEffect::Writable { connected: r.connect_wait.contains(fd) },
            )
        } else {
            (r, EventEffect::Ignored)
        }
    } else if events & EPOLLHUP != 0 {
        (
            RegistryView { conn: r.conn.remove(fd), connect_wait: r.connect_wait.remove(fd), ..r },
            EventEffect::HungUp { waiting: r.connect_wait.contains(fd) },
        )
    } else {
        (r, EventEffect::Ignored)
    }
}

/// The registry after a batch of events, taken in order, and the effect of each.
pub open spec fn spec_dispatch(r: RegistryView, events: Seq<(i32, u32)>) -> (RegistryView, Seq<EventEffect>)
    decreases events.len(),
{
    if events.len() == 0 {
        (r, Seq::empty())
    } else {
        let prev = spec_dispatch(r, events.drop_last());
        let step = spec_event_step(prev.0, events.last().0, events.last().1);
        (step.0, prev.1.push(step.1))
    }
}

impl Registry {
    /// A registry with nothing registered, on the event queue `epoll_fd`.
    pub fn new(epoll_fd: i32) -> (r: Registry)
        ensures
            r@ == empty_registry(epoll_fd),
    {
        let r = Registry {
            epoll_fd,
            conn: BTreeMap::new(),
            listener: BTreeSet::new(),
            can_accept: BTreeMap::new(),
            connect_wait: BTreeSet::new(),
            conn_belong_listener: BTreeMap::new(),
        };
        assert(r@.conn =~= Map::empty());
        r
    }

    /// The event queue of the loop.
    pub fn epoll_fd(&self) -> (fd: i32)
        ensures
            fd == self@.epoll_fd,
    {
        self.epoll_fd
    }

    /// The readiness the registry holds for the connection `fd`, if it knows one.
    pub fn connection(&self, fd: i32) -> (s: Option<Socket>)
        ensures
            s is None <==> !self@.conn.contains_key(fd),
            s matches Some(x) ==> x@ == self@.conn[fd],
    {
        broadcast use vstd::std_specs::btree::group_btree_axioms;
        match self.conn.get(&fd) {
            Some(s) => Some(*s),
            None => None,
        }
    }

    /// Takes in one event that the event queue reported for `fd`.
    pub fn handle_event(&mut self, fd: i32, events: u32) -> (e: EventEffect)
        ensures
            (final(self)@, e) == spec_event_step(old(self)@, fd, events),
    {
        broadcast use vstd::std_specs::btree::group_btree_axioms;
        let ghost pre = self@;
        if events & EPOLLIN != 0 {
            match self.conn.get(&fd) {
                Some(s) => {
                    let mut s = *s;
                    s.set_can_read(true);
                    self.conn.insert(fd, s);
                    assert(self@.conn =~= pre.conn.insert(fd, SocketView { can_read: true, ..pre.conn[fd] }));
                    EventEffect::Readable
                },
                None => {
                    if self.listener.contains(&fd) {
                        self.can_accept.insert(fd, true);
                        EventEffect::Acceptable
                    } else {
                        EventEffect::Ignored
                    }
                },
            }
        } else if events & EPOLLOUT != 0 {
            match self.conn.get(&fd) {
                Some(s) => {
                    let mut s = *s;
                    s.set_can_write(true);
                    self.conn.insert(fd, s);
                    assert(self@.conn =~= pre.conn.insert(fd, SocketView { can_write: true, ..pre.conn[fd] }));
                    let connected = self.connect_wait.remove(&fd);
                    EventEffect::Writable { connected }
                },
                None => EventEffect::Ignored,
            }
        } else if events & EPOLLHUP != 0 {
            self.conn.remove(&fd);
            assert(self@.conn =~= pre.conn.remove(fd));
            let waiting = self.connect_wait.remove(&fd);
            EventEffect::HungUp { waiting }
        } else {
            EventEffect::Ignored
        }
    }
}

impl Registry {
    /// Takes in the events of one wait of the loop, in order, and returns the
    /// effect of each.
    pub fn dispatch(&mut self, events: &Vec<(i32, u32)>) -> (effects: Vec<EventEffect>)
        ensures
            (final(self)@, effects@) == spec_dispatch(old(self)@, events@),
    {
        let mut effects: Vec<EventEffect> = Vec::new();
        let n = events.len();
        let mut i: usize = 0;
        assert(events@.take(0) =~= Seq::<(i32, u32)>::empty());
        assert(effects@ =~= Seq::<EventEffect>::empty());
        while i < n
            invariant
                n == events@.len(),
                i <= n,
                (self@, effects@) == spec_dispatch(old(self)@, events@.take(i as int)),
            decreases n - i,
        {
            let (fd, ev) = events[i];
            let e = self.handle_event(fd, ev);
            effects.push(e);
            assert(events@.take(i + 1).drop_last() =~= events@.take(i as int));
            i = i + 1;
        }
        assert(events@.take(n as int) =~= events@);
        effects
    }
}

// ---------------------------------------------------------------------------
// Connecting, listening and accepting
// ---------------------------------------------------------------------------
/// The events a connecting socket is watched for: writable, readable, edge-triggered.
pub const CONNECT_WATCH: u32 = EPOLLOUT | EPOLLIN | EPOLLET;

/// The events a listening socket is watched for: writable, edge-triggered, readable.
pub const LISTEN_WATCH: u32 = EPOLLOUT | EPOLLET | EPOLLIN;

/// The events an accepted connection is watched for: readable, edge-triggered.
pub const ACCEPT_WATCH: u32 = EPOLLIN | EPOLLET;

/// The registry after a connect on `fd` returned `ret` (with OS error number
/// `errno`), and whether the connect is under way. A connect that is still in
/// progress counts as under way; the connection then waits to become writable.
pub open spec fn spec_register_connect(r: RegistryView, fd: i32, ret: i32, errno: i32) -> (
    RegistryView,
    Result<(), NetError>,
) {
    if ret < 0 && errno != EINPROGRESS {
        (r, Err(NetError::Os(errno)))
    } else {
        (
            RegistryView {
                conn: r.conn.insert(fd, fresh_socket(fd)),
                connect_wait: r.connect_wait.insert(fd),
                ..r
            },
            Ok(()),
        )
    }
}

/// A step in serving one connect request: what the last call returned.
#[derive(Debug, Clone, Copy, PartialEq, Eq)]
pub enum ConnectEvent {
    /// A socket `fd` was opened for the connection.
    Opened { fd: i32 },
    /// `fd` was switched to non-blocking mode.
    NonBlocking { fd: i32 },
    /// `fd` was added to the event queue (what that returned is not looked
    /// at); `addr` is the address the request asks to connect to.
    Watched { fd: i32, addr: SockAddr },
    /// Connecting `fd` returned `ret`, with OS error number `errno`.
    Connected { fd: i32, ret: i32, errno: i32 },
}

/// What the caller must do next in serving a connect request.
#[derive(Debug, Clone, Copy, PartialEq, Eq)]
pub enum ConnectAction {
    /// Switch `fd` to non-blocking mode.
    SetNonBlocking { fd: i32 },
    /// Add `fd` to the event queue for `events`.
    Watch { fd: i32, events: u32 },
    /// Connect `fd` to the C socket address `raw` of length `len`.
    Connect { fd: i32, raw: RawSockAddr, len: u32 },
    /// Answer the request with this error.
    Fail { err: NetError },
    /// The connection `fd` is registered and waits to become writable: answer
    /// the request with a stream for it.
    Registered { fd: i32 },
}

/// Whether `r2` and `a` are the registry and the next action after one step
/// of serving a connect request on `r`.
pub open spec fn spec_connect_step(r: RegistryView, ev: ConnectEvent, r2: RegistryView, a: ConnectAction) -> bool {
    match ev {
        ConnectEvent::Opened { fd } => r2 == r && a == ConnectAction::SetNonBlocking { fd },
        ConnectEvent::NonBlocking { fd } => r2 == r && a == ConnectAction::Watch {
            fd,
            events: CONNECT_WATCH,
        },
        ConnectEvent::Watched { fd, addr } => {
            &&& r2 == r
            &&& a matches ConnectAction::Connect { fd: f, raw, len }
            &&& f == fd
            &&& (raw@, len) == spec_socket_addr(addr@)
        },
        ConnectEvent::Connected { fd, ret, errno } => {
            let (r3, res) = spec_register_connect(r, fd, ret, errno);
            &&& r2 == r3
            &&& match res {
                Ok(_) => a == ConnectAction::Registered { fd },
                Err(err) => a == ConnectAction::Fail { err },
            }
        },
    }
}

/// A step in setting up a listening socket: what the last call returned.
#[derive(Debug, Clone, Copy, PartialEq, Eq)]
pub enum ListenEvent {
    /// A socket `fd` was opened for a listener on `addr`.
    Opened { fd: i32, addr: SockAddr },
    /// Binding `fd` to the address returned `ret`.
    Bound { fd: i32, ret: i32, errno: i32 },
    /// Adding `fd` to the event queue returned `ret`.
    Watched { fd: i32, ret: i32, errno: i32 },
    /// Starting to listen on `fd` returned `ret`.
    Listened { fd: i32, ret: i32, errno: i32 },
}

/// What the caller must do next in setting up a listening socket.
#[derive(Debug, Clone, Copy, PartialEq, Eq)]
pub enum ListenAction {
    /// Bind `fd` to the C socket address `raw` of length `len`.
    Bind { fd: i32, raw: RawSockAddr, len: u32 },
    /// Add `fd` to the event queue for `events`.
    Watch { fd: i32, events: u32 },
    /// Start listening on `fd`, with a queue of `backlog` connections.
    Listen { fd: i32, backlog: i32 },
    /// Give up and answer the request with this error.
    Fail { err: NetError },
    /// The listener on `fd` is registered: answer the request with it.
    Ready { fd: i32 },
}

/// Whether `r2` and `a` are the registry and the next action after one step
/// of setting up a listener on `r`.
pub open spec fn spec_listen_step(r: RegistryView, ev: ListenEvent, r2: RegistryView, a: ListenAction) -> bool {
    match ev {
        ListenEvent::Opened { fd, addr } => {
            &&& r2 == r
            &&& a matches ListenAction::Bind { fd: f, raw, len }
            &&& f == fd
            &&& (raw@, len) == spec_socket_addr(addr@)
        },
        ListenEvent::Bound { fd, ret, errno } => r2 == r && a == if ret < 0 {
            ListenAction::Fail { err: NetError::Os(errno) }
        } else {
            ListenAction::Watch { fd, events: LISTEN_WATCH }
        },
        ListenEvent::Watched { fd, ret, errno } => r2 == r && a == if ret < 0 {
            ListenAction::Fail { err: NetError::Os(errno) }
        } else {
            ListenAction::Listen { fd, backlog: MAX_EVENTS }
        },
        ListenEvent::Listened { fd, ret, errno } => if ret < 0 {
            r2 == r && a == ListenAction::Fail { err: NetError::Os(errno) }
        } else {
            r2 == (RegistryView { listener: r.listener.insert(fd), ..r }) && a == ListenAction::Ready { fd }
        },
    }
}

/// A step in serving one accept request: what the last call returned.
#[derive(Debug, Clone, Copy, PartialEq, Eq)]
pub enum AcceptEvent {
    /// A request to accept a connection on `listen_fd` arrived.
    Requested { listen_fd: i32 },
    /// Accepting on `listen_fd` returned `client_fd`.
    Accepted { listen_fd: i32, client_fd: i32 },
    /// Adding `client_fd` to the event queue returned `ret`.
    Watched { listen_fd: i32, client_fd: i32, ret: i32 },
}

/// What the caller must do next in serving an accept request.
#[derive(Debug, Clone, Copy, PartialEq, Eq)]
pub enum AcceptAction {
    /// Answer the request with no connection, and serve no further accept
    /// request in this round.
    Refuse,
    /// Accept a connection on `listen_fd`.
    Accept { listen_fd: i32 },
    /// Add `client_fd` to the event queue for `events`.
    Watch { listen_fd: i32, client_fd: i32, events: u32 },
    /// The connection `client_fd` is registered: answer the request with it.
    Deliver { listen_fd: i32, client_fd: i32 },
}

/// The registry and the next action after one step of serving an accept
/// request. A request is served only where the listener was reported
/// readable, and it uses that report up.
pub open spec fn spec_accept_step(r: RegistryView, ev: AcceptEvent) -> (RegistryView, AcceptAction) {
    match ev {
        AcceptEvent::Requested { listen_fd } => if r.can_accept.contains_key(listen_fd)
            && r.can_accept[listen_fd] {
            (
                RegistryView { can_accept: r.can_accept.remove(listen_fd), ..r },
                AcceptAction::Accept { listen_fd },
            )
        } else {
            (r, AcceptAction::Refuse)
        },
        AcceptEvent::Accepted { listen_fd, client_fd } => if client_fd < 0 {
            (r, AcceptAction::Refuse)
        } else {
            (r, AcceptAction::Watch { listen_fd, client_fd, events: ACCEPT_WATCH })
        },
        AcceptEvent::Watched { listen_fd, client_fd, ret } => if ret != 0 {
            (r, AcceptAction::Refuse)
        } else {
            (
                RegistryView {
                    conn: r.conn.insert(client_fd, fresh_socket(client_fd)),
                    conn_belong_listener: r.conn_belong_listener.insert(client_fd, listen_fd),
                    ..r
                },
                AcceptAction::Deliver { listen_fd, client_fd },
            )
        },
    }
}

/// The registry after a run of accept steps, taken in order, and the action
/// of each.
pub open spec fn spec_accept_run(r: RegistryView, events: Seq<AcceptEvent>) -> (RegistryView, Seq<AcceptAction>)
    decreases events.len(),
{
    if events.len() == 0 {
        (r, Seq::empty())
    } else {
        let prev = spec_accept_run(r, events.drop_last());
        let step = spec_accept_step(prev.0, events.last());
        (step.0, prev.1.push(step.1))
    }
}

impl Registry {
    /// Takes one step in serving a connect request.
    pub fn connect_step(&mut self, ev: ConnectEvent) -> (a: ConnectAction)
        ensures
            spec_connect_step(old(self)@, ev, final(self)@, a),
    {
        broadcast use vstd::std_specs::btree::group_btree_axioms;
        match ev {
            ConnectEvent::Opened { fd } => ConnectAction::SetNonBlocking { fd },
            ConnectEvent::NonBlocking { fd } => ConnectAction::Watch { fd, events: CONNECT_WATCH },
            ConnectEvent::Watched { fd, addr } => {
                let (raw, len) = socket_addr(&addr);
                ConnectAction::Connect { fd, raw, len }
            },
            ConnectEvent::Connected { fd, ret, errno } => {
                if ret < 0 && errno != EINPROGRESS {
                    return ConnectAction::Fail { err: NetError::Os(errno) };
                }
                let ghost pre = self@;
                self.conn.insert(fd, Socket::from(fd));
                assert(self@.conn =~= pre.conn.insert(fd, fresh_socket(fd)));
                self.connect_wait.insert(fd);
                ConnectAction::Registered { fd }
            },
        }
    }

    /// Takes one step in setting up a listening socket.
    pub fn listen_step(&mut self, ev: ListenEvent) -> (a: ListenAction)
        ensures
            spec_listen_step(old(self)@, ev, final(self)@, a),
    {
        broadcast use vstd::std_specs::btree::group_btree_axioms;
        match ev {
            ListenEvent::Opened { fd, addr } => {
                let (raw, len) = socket_addr(&addr);
                ListenAction::Bind { fd, raw, len }
            },
            ListenEvent::Bound { fd, ret, errno } => {
                if ret < 0 {
                    ListenAction::Fail { err: NetError::Os(errno) }
                } else {
                    ListenAction::Watch { fd, events: LISTEN_WATCH }
                }
            },
            ListenEvent::Watched { fd, ret, errno } => {
                if ret < 0 {
                    ListenAction::Fail { err: NetError::Os(errno) }
                } else {
                    ListenAction::Listen { fd, backlog: MAX_EVENTS }
                }
            },
            ListenEvent::Listened { fd, ret, errno } => {
                if ret < 0 {
                    ListenAction::Fail { err: NetError::Os(errno) }
                } else {
                    self.listener.insert(fd);
                    ListenAction::Ready { fd }
                }
            },
        }
    }

    /// Takes one step in serving an accept request.
    pub fn accept_step(&mut self, ev: AcceptEvent) -> (a: AcceptAction)
        ensures
            (final(self)@, a) == spec_accept_step(old(self)@, ev),
    {
        broadcast use vstd::std_specs::btree::group_btree_axioms;
        match ev {
            AcceptEvent::Requested { listen_fd } => {
                let ready = match self.can_accept.get(&listen_fd) {
                    Some(b) => *b,
                    None => false,
                };
                if ready {
                    self.can_accept.remove(&listen_fd);
                    AcceptAction::Accept { listen_fd }
                } else {
                    AcceptAction::Refuse
                }
            },
            AcceptEvent::Accepted { listen_fd, client_fd } => {
                if client_fd < 0 {
                    AcceptAction::Refuse
                } else {
                    AcceptAction::Watch { listen_fd, client_fd, events: ACCEPT_WATCH }
                }
            },
            AcceptEvent::Watched { listen_fd, client_fd, ret } => {
                if ret != 0 {
                    AcceptAction::Refuse
                } else {
                    let ghost pre = self@;
                    self.conn.insert(client_fd, Socket::from(client_fd));
                    assert(self@.conn =~= pre.conn.insert(client_fd, fresh_socket(client_fd)));
                    self.conn_belong_listener.insert(client_fd, listen_fd);
                    AcceptAction::Deliver { listen_fd, client_fd }
                }
            },
        }
    }
}

// ---------------------------------------------------------------------------
// Reading, writing and waiting
// ---------------------------------------------------------------------------

/// The meaning of what a receive returned: `-1` is read as "nothing
/// received", any other negative value as a failure whose cause is `errno`.
pub open spec fn spec_recv_result(read_len: isize, errno: i32) -> Result<usize, NetError> {
    if read_len == -1 {
        Ok(0)
    } else {
        spec_len_result(read_len, errno)
    }
}

/// Interprets what a receive returned.
pub fn recv_result(read_len: isize, errno: i32) -> (r: Result<usize, NetError>)
    ensures
        r == spec_recv_result(read_len, errno),
{
    if read_len == -1 {
        Ok(0)
    } else {
        crate::net::len_result(read_len, errno)
    }
}

/// What one turn of the network loop does after waiting for events.
#[derive(Debug, Clone, Copy, PartialEq, Eq)]
pub enum LoopPhase {
    /// No event arrived: serve the queued connect, listen, accept, read and
    /// write requests.
    Serve,
    /// The wait failed; the loop cannot go on.
    Failed,
    /// This many events arrived: hand them to the registry.
    Dispatch { count: usize },
}

/// What the loop does after a wait that returned `nevents`.
pub open spec fn spec_loop_phase(nevents: i32) -> LoopPhase {
    if nevents == 0 {
        LoopPhase::Serve
    } else if nevents == -1 {
        LoopPhase::Failed
    } else {
        LoopPhase::Dispatch { count: nevents as usize }
    }
}

/// Decides what the loop does after a wait that returned `nevents`.
pub fn loop_phase(nevents: i32) -> (p: LoopPhase)
    requires
        nevents >= -1,
    ensures
        p == spec_loop_phase(nevents),
{
    if nevents == 0 {
        LoopPhase::Serve
    } else if nevents == -1 {
        LoopPhase::Failed
    } else {
        LoopPhase::Dispatch { count: nevents as usize }
    }
}

/// The request queues the loop serves when no event arrived.
#[derive(Debug, Clone, Copy, PartialEq, Eq, Structural)]
pub enum Queue {
    Connect,
    Listen,
    Accept,
    Read,
    Write,
}

/// What taking one request from a queue gave.
#[derive(Debug, Clone, Copy, PartialEq, Eq, Structural)]
pub enum Taken {
    /// The queue was empty.
    Empty,
    /// A request was taken and answered.
    Served,
    /// An accept request was refused.
    Refused,
}

/// The queue the loop takes from next, or none when the turn is over. The
/// queues are served in the order connect, listen, accept, read, write; each
/// is drained, except that at most one listen request is served per turn and
/// the accept queue is left at the first refused request.
pub open spec fn spec_next_queue(q: Queue, taken: Taken) -> Option<Queue> {
    match q {
        Queue::Connect => if taken == Taken::Served {
            Some(Queue::Connect)
        } else {
            Some(Queue::Listen)
        },
        Queue::Listen => Some(Queue::Accept),
        Queue::Accept => if taken == Taken::Served {
            Some(Queue::Accept)
        } else {
            Some(Queue::Read)
        },
        Queue::Read => if taken == Taken::Served {
            Some(Queue::Read)
        } else {
            Some(Queue::Write)
        },
        Queue::Write => if taken == Taken::Served {
            Some(Queue::Write)
        } else {
            None
        },
    }
}

/// The queue a turn of serving starts with.
pub fn first_queue() -> (q: Queue)
    ensures
        q == Queue::Connect,
{
    Queue::Connect
}

/// Decides which queue the loop takes from next.
pub fn next_queue(q: Queue, taken: Taken) -> (n: Option<Queue>)
    ensures
        n == spec_next_queue(q, taken),
{
    match q {
        Queue::Connect => if taken == Taken::Served {
            Some(Queue::Connect)
        } else {
            Some(Queue::Listen)
        },
        Queue::Listen => Some(Queue::Accept),
        Queue::Accept => if taken == Taken::Served {
            Some(Queue::Accept)
        } else {
            Some(Queue::Read)
        },
        Queue::Read => if taken == Taken::Served {
            Some(Queue::Read)
        } else {
            Some(Queue::Write)
        },
        Queue::Write => if taken == Taken::Served {
            Some(Queue::Write)
        } else {
            None
        },
    }
}

// ---------------------------------------------------------------------------
// Connecting with retries
// ---------------------------------------------------------------------------

/// How many times a connect is tried before it is given up.
pub const CONNECT_ATTEMPTS: u32 = 3;

/// What to do after one connect attempt.
#[derive(Debug)]
pub enum RetryDecision<T> {
    /// The attempt succeeded: return its result.
    Done(T),
    /// The attempt failed: try again.
    Retry,
    /// The attempt failed and no attempt is left: return this error.
    GiveUp(NetError),
}

/// The count of failed attempts after one more failure; it stops growing at
/// [`CONNECT_ATTEMPTS`].
pub open spec fn spec_after_failure(failures: nat) -> nat {
    if failures < CONNECT_ATTEMPTS {
        failures + 1
    } else {
        failures
    }
}

/// The count of failed attempts after `k` failures in a row, from none.
pub open spec fn spec_failures_after(k: nat) -> nat
    decreases k,
{
    if k == 0 {
        0
    } else {
        spec_after_failure(spec_failures_after((k - 1) as nat))
    }
}

/// The count of failed connect attempts.
pub struct ConnectRetry {
    failures: u32,
}

impl View for ConnectRetry {
    type V = nat;

    closed spec fn view(&self) -> nat {
        self.failures as nat
    }
}

impl ConnectRetry {
    /// No attempt has failed yet.
    pub fn new() -> (r: ConnectRetry)
        ensures
            r@ == 0,
    {
        ConnectRetry { failures: 0 }
    }

    /// Records the outcome of one attempt and decides what to do next. The
    /// error of a failed attempt is dropped: the connect is retried, and once
    /// [`CONNECT_ATTEMPTS`] attempts have failed it fails as timed out.
    pub fn record<T>(&mut self, outcome: Result<T, NetError>) -> (d: RetryDecision<T>)
        ensures
            match outcome {
                Ok(v) => d == RetryDecision::<T>::Done(v) && final(self)@ == old(self)@,
                Err(_) => {
                    &&& final(self)@ == spec_after_failure(old(self)@)
                    &&& (d is Retry <==> final(self)@ < CONNECT_ATTEMPTS)
                    &&& (d is Retry || d == RetryDecision::<T>::GiveUp(NetError::TimedOut))
                },
            },
    {
        match outcome {
            Ok(v) => RetryDecision::Done(v),
            Err(_) => {
                if self.failures < CONNECT_ATTEMPTS {
                    self.failures = self.failures + 1;
                }
                if self.failures < CONNECT_ATTEMPTS {
                    RetryDecision::Retry
                } else {
                    RetryDecision::GiveUp(NetError::TimedOut)
                }
            },
        }
    }
}

// ---------------------------------------------------------------------------
// Start-up arguments of the network driver
// ---------------------------------------------------------------------------

/// The arguments the driver starts with when none were set.
pub open spec fn default_dpdk_argv() -> Seq<Seq<char>> {
    seq![
        "./app"@,
        "--conf"@,
        "config.ini"@,
        "--proc-type=primary"@,
        "--proc-id=0"@,
    ]
}

/// Appends `arg` to the arguments set so far.
pub fn set_dpdk_arg(args: &mut Vec<String>, arg: Vec<String>)
    ensures
        final(args)@ == old(args)@ + arg@,
{
    let mut arg = arg;
    args.append(&mut arg);
}

/// The arguments the driver starts with: those set, or the default ones
/// where none were set.
pub fn dpdk_argv(args: &Vec<String>) -> (argv: Vec<String>)
    ensures
        args@.len() > 0 ==> argv@ == args@,
        args@.len() == 0 ==> argv.deep_view() == default_dpdk_argv(),
{
    if args.len() == 0 {
        let argv = vec![
            "./app".to_string(),
            "--conf".to_string(),
            "config.ini".to_string(),
            "--proc-type=primary".to_string(),
            "--proc-id=0".to_string(),
        ];
        assert(argv.deep_view() =~= default_dpdk_argv());
        return argv;
    }
    let mut argv: Vec<String> = Vec::new();
    let n = args.len();
    let mut i: usize = 0;
    while i < n
        invariant
            n == args@.len(),
            i <= n,
            argv@ == args@.take(i as int),
        decreases n - i,
    {
        argv.push(args[i].clone());
        assert(args@.take(i + 1) =~= args@.take(i as int).push(args@[i as int]));
        i = i + 1;
    }
    assert(args@.take(n as int) =~= args@);
    argv
}

// ---------------------------------------------------------------------------
// Buffer addresses handed to the network loop
// ---------------------------------------------------------------------------

/// The address of a buffer that the network loop reads from.
#[derive(Debug, Clone, Copy, PartialEq, Eq)]
pub struct RawPointer(pub usize);

/// The address of a buffer that the network loop writes into.
#[derive(Debug, Clone, Copy, PartialEq, Eq)]
pub struct RawMutPointer(pub usize);

impl RawPointer {
    pub fn as_ptr(&self) -> (p: usize)
        ensures
            p == self.0,
    {
        self.0
    }
}

impl RawMutPointer {
    pub fn as_mut_ptr(&self) -> (p: usize)
        ensures
            p == self.0,
    {
        self.0
    }
}

} // verus!
