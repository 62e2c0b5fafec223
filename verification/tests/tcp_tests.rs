use dpdk_io::net::NetError;
use dpdk_io::tcp::{
    accept_ready, connect_wait_result, read_poll, write_poll, ConnectWait, ReadPoll, WritePoll,
};

#[test]
fn read_poll_ready_with_bytes() {
    assert_eq!(read_poll(Some(Ok(12))), ReadPoll::Ready { len: 12 });
}

#[test]
fn read_poll_pending_when_not_readable() {
    assert_eq!(read_poll(None), ReadPoll::Pending);
}

#[test]
fn read_poll_pending_on_empty_read() {
    assert_eq!(read_poll(Some(Ok(0))), ReadPoll::Pending);
}

#[test]
fn read_poll_pending_on_would_block() {
    assert_eq!(read_poll(Some(Err(NetError::Os(11)))), ReadPoll::Pending);
}

#[test]
fn read_poll_fails_on_other_error() {
    assert_eq!(read_poll(Some(Err(NetError::Os(104)))), ReadPoll::Failed { err: NetError::Os(104) });
}

#[test]
fn write_poll_pending_when_not_writable() {
    assert_eq!(write_poll(None), WritePoll::Pending);
    assert_eq!(write_poll(Some(Ok(3))), WritePoll::Ready { result: Ok(3) });
    assert_eq!(
        write_poll(Some(Err(NetError::Os(32)))),
        WritePoll::Ready { result: Err(NetError::Os(32)) }
    );
}

#[test]
fn accept_ready_yields_delivered_connection() {
    assert_eq!(accept_ready(Some(Ok(Some(5u8)))), Some(5u8));
    assert_eq!(accept_ready::<u8>(Some(Ok(None))), None);
    assert_eq!(accept_ready::<u8>(Some(Err(NetError::TimedOut))), None);
    assert_eq!(accept_ready::<u8>(None), None);
}

#[test]
fn connect_wait_fails_only_on_timeout() {
    assert_eq!(
        connect_wait_result(Ok(ConnectWait::TimedOut { message: "waited 1s".to_string() })),
        Err("waited 1s".to_string())
    );
    assert_eq!(connect_wait_result(Ok(ConnectWait::Connected)), Ok(()));
    assert_eq!(connect_wait_result(Ok(ConnectWait::Failed)), Ok(()));
    assert_eq!(
        connect_wait_result(Err(NetError::Os(111))),
        Err("connection timed out".to_string())
    );
}
