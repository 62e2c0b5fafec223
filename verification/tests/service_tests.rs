use dpdk_io::net::{socket_addr, NetError, SockAddr};
use dpdk_io::service::{
    dpdk_argv, first_queue, loop_phase, next_queue, recv_result, set_dpdk_arg, AcceptAction,
    AcceptEvent, ConnectAction, ConnectEvent, ConnectRetry, EventEffect, ListenAction, ListenEvent,
    LoopPhase, Queue, RawMutPointer, RawPointer, Registry, RetryDecision, Taken, ACCEPT_WATCH,
    CONNECT_ATTEMPTS, CONNECT_WATCH, EAGAIN, EINPROGRESS, EPOLLET, EPOLLHUP, EPOLLIN, EPOLLOUT,
    LISTEN_WATCH, MAX_EVENTS,
};

fn server_addr() -> SockAddr {
    SockAddr::V4 { ip: [10, 0, 0, 2], port: 80 }
}

fn connect(r: &mut Registry, fd: i32, ret: i32, errno: i32) -> Result<(), NetError> {
    assert_eq!(r.connect_step(ConnectEvent::Opened { fd }), ConnectAction::SetNonBlocking { fd });
    assert_eq!(
        r.connect_step(ConnectEvent::NonBlocking { fd }),
        ConnectAction::Watch { fd, events: CONNECT_WATCH }
    );
    let (raw, len) = socket_addr(&server_addr());
    assert_eq!(
        r.connect_step(ConnectEvent::Watched { fd, addr: server_addr() }),
        ConnectAction::Connect { fd, raw, len }
    );
    match r.connect_step(ConnectEvent::Connected { fd, ret, errno }) {
        ConnectAction::Registered { fd: f } => {
            assert_eq!(f, fd);
            Ok(())
        }
        ConnectAction::Fail { err } => Err(err),
        other => panic!("unexpected action {:?}", other),
    }
}

fn listening_registry(fd: i32) -> Registry {
    let mut r = Registry::new(3);
    let (raw, len) = socket_addr(&server_addr());
    assert_eq!(
        r.listen_step(ListenEvent::Opened { fd, addr: server_addr() }),
        ListenAction::Bind { fd, raw, len }
    );
    assert_eq!(
        r.listen_step(ListenEvent::Bound { fd, ret: 0, errno: 0 }),
        ListenAction::Watch { fd, events: LISTEN_WATCH }
    );
    assert_eq!(
        r.listen_step(ListenEvent::Watched { fd, ret: 0, errno: 0 }),
        ListenAction::Listen { fd, backlog: MAX_EVENTS }
    );
    assert_eq!(r.listen_step(ListenEvent::Listened { fd, ret: 0, errno: 0 }), ListenAction::Ready { fd });
    r
}

#[test]
fn event_constants_agree_with_libc() {
    assert_eq!(EPOLLIN, libc::EPOLLIN as u32);
    assert_eq!(EPOLLOUT, libc::EPOLLOUT as u32);
    assert_eq!(EPOLLHUP, libc::EPOLLHUP as u32);
    assert_eq!(EPOLLET, libc::EPOLLET as u32);
    assert_eq!(EINPROGRESS, libc::EINPROGRESS);
    assert_eq!(EAGAIN, libc::EAGAIN);
    assert_eq!(MAX_EVENTS, 1024);
    assert_eq!(CONNECT_WATCH, (libc::EPOLLOUT | libc::EPOLLIN | libc::EPOLLET) as u32);
    assert_eq!(LISTEN_WATCH, (libc::EPOLLOUT | libc::EPOLLET | libc::EPOLLIN) as u32);
    assert_eq!(ACCEPT_WATCH, (libc::EPOLLIN | libc::EPOLLET) as u32);
}

#[test]
fn new_registry_keeps_its_queue() {
    assert_eq!(Registry::new(42).epoll_fd(), 42);
}

#[test]
fn events_on_unknown_descriptors_are_ignored() {
    let mut r = Registry::new(3);
    assert_eq!(r.handle_event(8, EPOLLIN), EventEffect::Ignored);
    assert_eq!(r.handle_event(8, EPOLLOUT), EventEffect::Ignored);
    assert_eq!(r.handle_event(8, EPOLLHUP), EventEffect::HungUp { waiting: false });
    assert_eq!(r.handle_event(8, EPOLLET), EventEffect::Ignored);
}

#[test]
fn connect_in_progress_is_registered() {
    let mut r = Registry::new(3);
    assert_eq!(connect(&mut r, 8, -1, 115), Ok(()));
    assert_eq!(r.handle_event(8, EPOLLIN), EventEffect::Readable);
}

#[test]
fn connect_completed_at_once_is_registered() {
    let mut r = Registry::new(3);
    assert_eq!(connect(&mut r, 8, 0, 0), Ok(()));
    assert_eq!(r.handle_event(8, EPOLLOUT), EventEffect::Writable { connected: true });
}

#[test]
fn connect_failure_is_reported_and_not_registered() {
    let mut r = Registry::new(3);
    assert_eq!(connect(&mut r, 8, -1, 111), Err(NetError::Os(111)));
    assert_eq!(r.handle_event(8, EPOLLIN), EventEffect::Ignored);
}

#[test]
fn waiting_connect_is_told_once_that_it_succeeded() {
    let mut r = Registry::new(3);
    connect(&mut r, 8, -1, 115).unwrap();
    assert_eq!(r.handle_event(8, EPOLLOUT), EventEffect::Writable { connected: true });
    assert_eq!(r.handle_event(8, EPOLLOUT), EventEffect::Writable { connected: false });
    assert_eq!(r.handle_event(8, EPOLLHUP), EventEffect::HungUp { waiting: false });
}

#[test]
fn waiting_connect_is_told_of_hang_up() {
    let mut r = Registry::new(3);
    connect(&mut r, 8, -1, 115).unwrap();
    assert_eq!(r.handle_event(8, EPOLLHUP), EventEffect::HungUp { waiting: true });
    assert_eq!(r.handle_event(8, EPOLLOUT), EventEffect::Ignored);
    assert_eq!(r.handle_event(8, EPOLLIN), EventEffect::Ignored);
}

#[test]
fn readable_counts_before_writable_and_hang_up() {
    let mut r = Registry::new(3);
    connect(&mut r, 8, -1, 115).unwrap();
    assert_eq!(r.handle_event(8, EPOLLIN | EPOLLOUT | EPOLLHUP), EventEffect::Readable);
    assert_eq!(r.handle_event(8, EPOLLOUT | EPOLLHUP), EventEffect::Writable { connected: true });
}

#[test]
fn listen_fails_at_each_step() {
    let mut r = Registry::new(3);
    assert_eq!(
        r.listen_step(ListenEvent::Bound { fd: 5, ret: -1, errno: 98 }),
        ListenAction::Fail { err: NetError::Os(98) }
    );
    assert_eq!(
        r.listen_step(ListenEvent::Watched { fd: 5, ret: -1, errno: 9 }),
        ListenAction::Fail { err: NetError::Os(9) }
    );
    assert_eq!(
        r.listen_step(ListenEvent::Listened { fd: 5, ret: -1, errno: 22 }),
        ListenAction::Fail { err: NetError::Os(22) }
    );
    assert_eq!(r.handle_event(5, EPOLLIN), EventEffect::Ignored);
}

#[test]
fn readable_listener_becomes_acceptable() {
    let mut r = listening_registry(5);
    assert_eq!(r.handle_event(5, EPOLLIN), EventEffect::Acceptable);
}

#[test]
fn accept_is_refused_until_listener_is_readable() {
    let mut r = listening_registry(5);
    assert_eq!(r.accept_step(AcceptEvent::Requested { listen_fd: 5 }), AcceptAction::Refuse);
}

#[test]
fn accept_serves_one_request_per_readiness() {
    let mut r = listening_registry(5);
    r.handle_event(5, EPOLLIN);
    assert_eq!(
        r.accept_step(AcceptEvent::Requested { listen_fd: 5 }),
        AcceptAction::Accept { listen_fd: 5 }
    );
    assert_eq!(r.accept_step(AcceptEvent::Requested { listen_fd: 5 }), AcceptAction::Refuse);
}

#[test]
fn accept_registers_the_connection() {
    let mut r = listening_registry(5);
    r.handle_event(5, EPOLLIN);
    r.accept_step(AcceptEvent::Requested { listen_fd: 5 });
    assert_eq!(
        r.accept_step(AcceptEvent::Accepted { listen_fd: 5, client_fd: 9 }),
        AcceptAction::Watch { listen_fd: 5, client_fd: 9, events: ACCEPT_WATCH }
    );
    assert_eq!(
        r.accept_step(AcceptEvent::Watched { listen_fd: 5, client_fd: 9, ret: 0 }),
        AcceptAction::Deliver { listen_fd: 5, client_fd: 9 }
    );
    assert_eq!(r.handle_event(9, EPOLLIN), EventEffect::Readable);
    assert_eq!(r.handle_event(9, EPOLLOUT), EventEffect::Writable { connected: false });
}

#[test]
fn accept_failures_are_refused() {
    let mut r = listening_registry(5);
    assert_eq!(r.accept_step(AcceptEvent::Accepted { listen_fd: 5, client_fd: -1 }), AcceptAction::Refuse);
    assert_eq!(
        r.accept_step(AcceptEvent::Watched { listen_fd: 5, client_fd: 9, ret: -1 }),
        AcceptAction::Refuse
    );
    assert_eq!(r.handle_event(9, EPOLLIN), EventEffect::Ignored);
}

#[test]
fn dispatch_takes_events_in_order() {
    let mut r = listening_registry(5);
    connect(&mut r, 8, -1, 115).unwrap();
    let effects = r.dispatch(&vec![(8, EPOLLOUT), (5, EPOLLIN), (8, EPOLLOUT), (7, EPOLLIN), (8, EPOLLHUP)]);
    assert_eq!(
        effects,
        vec![
            EventEffect::Writable { connected: true },
            EventEffect::Acceptable,
            EventEffect::Writable { connected: false },
            EventEffect::Ignored,
            EventEffect::HungUp { waiting: false },
        ]
    );
    assert_eq!(r.dispatch(&vec![]), vec![]);
}

#[test]
fn recv_result_reads_minus_one_as_nothing() {
    assert_eq!(recv_result(-1, 11), Ok(0));
    assert_eq!(recv_result(-2, 11), Err(NetError::Os(11)));
    assert_eq!(recv_result(0, 11), Ok(0));
    assert_eq!(recv_result(64, 11), Ok(64));
}

#[test]
fn loop_phase_after_wait() {
    assert_eq!(loop_phase(0), LoopPhase::Serve);
    assert_eq!(loop_phase(-1), LoopPhase::Failed);
    assert_eq!(loop_phase(4), LoopPhase::Dispatch { count: 4 });
}

#[test]
fn connect_retry_returns_first_success() {
    let mut retry = ConnectRetry::new();
    assert!(matches!(retry.record::<u8>(Err(NetError::TimedOut)), RetryDecision::Retry));
    assert!(matches!(retry.record(Ok(7u8)), RetryDecision::Done(7)));
}

#[test]
fn connect_retry_gives_up_after_three_failures() {
    assert_eq!(CONNECT_ATTEMPTS, 3);
    let mut retry = ConnectRetry::new();
    assert!(matches!(retry.record::<u8>(Err(NetError::Os(111))), RetryDecision::Retry));
    assert!(matches!(retry.record::<u8>(Err(NetError::Os(111))), RetryDecision::Retry));
    assert!(matches!(
        retry.record::<u8>(Err(NetError::Os(111))),
        RetryDecision::GiveUp(NetError::TimedOut)
    ));
    assert!(matches!(
        retry.record::<u8>(Err(NetError::Os(111))),
        RetryDecision::GiveUp(NetError::TimedOut)
    ));
}

#[test]
fn set_dpdk_arg_appends() {
    let mut args = vec!["a".to_string()];
    set_dpdk_arg(&mut args, vec!["b".to_string(), "c".to_string()]);
    assert_eq!(args, vec!["a".to_string(), "b".to_string(), "c".to_string()]);
}

#[test]
fn dpdk_argv_defaults_when_nothing_set() {
    assert_eq!(
        dpdk_argv(&vec![]),
        vec!["./app", "--conf", "config.ini", "--proc-type=primary", "--proc-id=0"]
    );
}

#[test]
fn dpdk_argv_uses_what_was_set() {
    let args = vec!["./srv".to_string(), "--conf".to_string(), "x.ini".to_string()];
    assert_eq!(dpdk_argv(&args), args);
}

#[test]
fn raw_pointers_give_back_their_address() {
    assert_eq!(RawPointer(0x1000).as_ptr(), 0x1000);
    assert_eq!(RawMutPointer(0x2000).as_mut_ptr(), 0x2000);
}

#[test]
fn readiness_is_never_taken_back() {
    let mut r = Registry::new(3);
    connect(&mut r, 8, -1, 115).unwrap();
    let fresh = r.connection(8).unwrap();
    assert!(!fresh.can_read() && !fresh.can_write());
    r.handle_event(8, EPOLLIN);
    r.handle_event(8, EPOLLOUT);
    r.handle_event(8, EPOLLIN);
    let s = r.connection(8).unwrap();
    assert!(s.can_read());
    assert!(s.can_write());
    assert_eq!(s.as_raw_fd(), 8);
}

#[test]
fn hang_up_forgets_connection_and_waiter() {
    let mut r = Registry::new(3);
    connect(&mut r, 8, -1, 115).unwrap();
    assert_eq!(r.handle_event(8, EPOLLHUP), EventEffect::HungUp { waiting: true });
    assert!(r.connection(8).is_none());
    assert_eq!(r.handle_event(8, EPOLLHUP), EventEffect::HungUp { waiting: false });
}

#[test]
fn event_on_unknown_descriptor_changes_nothing() {
    let mut r = listening_registry(5);
    connect(&mut r, 8, -1, 115).unwrap();
    for ev in [EPOLLIN, EPOLLOUT, EPOLLHUP] {
        r.handle_event(6, ev);
    }
    assert!(r.connection(6).is_none());
    assert_eq!(r.accept_step(AcceptEvent::Requested { listen_fd: 5 }), AcceptAction::Refuse);
    assert_eq!(r.handle_event(8, EPOLLOUT), EventEffect::Writable { connected: true });
}

#[test]
fn dispatch_in_two_batches_equals_one_batch() {
    let events = vec![(8, EPOLLIN), (5, EPOLLIN), (8, EPOLLOUT), (8, EPOLLOUT), (9, EPOLLHUP)];
    let mut whole = listening_registry(5);
    connect(&mut whole, 8, -1, 115).unwrap();
    let mut split = listening_registry(5);
    connect(&mut split, 8, -1, 115).unwrap();
    let all = whole.dispatch(&events);
    let mut parts = split.dispatch(&events[..2].to_vec());
    parts.extend(split.dispatch(&events[2..].to_vec()));
    assert_eq!(all, parts);
    let a = whole.connection(8).unwrap();
    let b = split.connection(8).unwrap();
    assert_eq!((a.can_read(), a.can_write()), (b.can_read(), b.can_write()));
}

#[test]
fn connection_is_known_after_accept() {
    let mut r = listening_registry(5);
    r.handle_event(5, EPOLLIN);
    r.accept_step(AcceptEvent::Requested { listen_fd: 5 });
    r.accept_step(AcceptEvent::Accepted { listen_fd: 5, client_fd: 9 });
    r.accept_step(AcceptEvent::Watched { listen_fd: 5, client_fd: 9, ret: 0 });
    let s = r.connection(9).unwrap();
    assert_eq!(s.as_raw_fd(), 9);
    assert!(!s.can_read());
    assert!(r.connection(5).is_none());
}

#[test]
fn connect_addresses_the_requested_peer() {
    let mut r = Registry::new(3);
    let addr = SockAddr::V6 { ip: [0xfe, 0x80, 0, 0, 0, 0, 0, 0, 0, 0, 0, 0, 0, 0, 0, 1], port: 8080, flowinfo: 0, scope_id: 2 };
    match r.connect_step(ConnectEvent::Watched { fd: 4, addr }) {
        ConnectAction::Connect { fd, raw, len } => {
            assert_eq!(fd, 4);
            assert_eq!(raw.family, 10);
            assert_eq!(raw.port, [0x1f, 0x90]);
            assert_eq!(raw.scope_id, 2);
            assert_eq!(len, 28);
        }
        other => panic!("unexpected action {:?}", other),
    }
}

#[test]
fn accept_readiness_serves_one_accept_over_many_rounds() {
    let mut r = listening_registry(5);
    r.handle_event(5, EPOLLIN);
    let mut accepts = 0;
    for round in 0..4 {
        match r.accept_step(AcceptEvent::Requested { listen_fd: 5 }) {
            AcceptAction::Accept { listen_fd } => {
                accepts += 1;
                r.accept_step(AcceptEvent::Accepted { listen_fd, client_fd: 20 + round });
                r.accept_step(AcceptEvent::Watched { listen_fd, client_fd: 20 + round, ret: 0 });
            }
            AcceptAction::Refuse => {}
            other => panic!("unexpected action {:?}", other),
        }
    }
    assert_eq!(accepts, 1);
    r.handle_event(5, EPOLLIN);
    assert_eq!(
        r.accept_step(AcceptEvent::Requested { listen_fd: 5 }),
        AcceptAction::Accept { listen_fd: 5 }
    );
}

#[test]
fn serving_order_of_the_queues() {
    let q = first_queue();
    assert_eq!(q, Queue::Connect);
    assert_eq!(next_queue(Queue::Connect, Taken::Served), Some(Queue::Connect));
    assert_eq!(next_queue(Queue::Connect, Taken::Empty), Some(Queue::Listen));
    assert_eq!(next_queue(Queue::Listen, Taken::Served), Some(Queue::Accept));
    assert_eq!(next_queue(Queue::Listen, Taken::Empty), Some(Queue::Accept));
    assert_eq!(next_queue(Queue::Accept, Taken::Served), Some(Queue::Accept));
    assert_eq!(next_queue(Queue::Accept, Taken::Refused), Some(Queue::Read));
    assert_eq!(next_queue(Queue::Accept, Taken::Empty), Some(Queue::Read));
    assert_eq!(next_queue(Queue::Read, Taken::Served), Some(Queue::Read));
    assert_eq!(next_queue(Queue::Read, Taken::Empty), Some(Queue::Write));
    assert_eq!(next_queue(Queue::Write, Taken::Served), Some(Queue::Write));
    assert_eq!(next_queue(Queue::Write, Taken::Empty), None);
}
