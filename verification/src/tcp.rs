use vstd::prelude::*;

use crate::net::NetError;
use crate::service::EAGAIN;

verus! {

/// What a poll for reading a stream yields after a read through the network
/// loop returned.
#[derive(Debug, Clone, Copy, PartialEq, Eq)]
pub enum ReadPoll {
    /// `len` bytes were read: the poll is ready.
    Ready { len: usize },
    /// Nothing is there yet: wake the task and stay pending.
    Pending,
    /// The read failed with `err`: the poll is ready with that error.
    Failed { err: NetError },
}

/// The outcome of a read poll, given the result of the read, or `None` where
/// the socket was not readable and no read was made. An unreadable socket, an
/// empty read and a read that would block leave the poll pending.
pub open spec fn spec_read_poll(result: Option<Result<usize, NetError>>) -> ReadPoll {
    match result {
        None => ReadPoll::Pending,
        Some(Ok(len)) => if len == 0 {
            ReadPoll::Pending
        } else {
            ReadPoll::Ready { len }
        },
        Some(Err(err)) => if err == NetError::Os(EAGAIN) {
            ReadPoll::Pending
        } else {
            ReadPoll::Failed { err }
        },
    }
}

/// Decides the outcome of a read poll. A failed read carries the OS error
/// number it failed with.
pub fn read_poll(result: Option<Result<usize, NetError>>) -> (p: ReadPoll)
    requires
        result matches Some(Err(e)) ==> e is Os,
    ensures
        p == spec_read_poll(result),
{
    match result {
        None => ReadPoll::Pending,
        Some(Ok(len)) => {
            if len == 0 {
                ReadPoll::Pending
            } else {
                ReadPoll::Ready { len }
            }
        },
        Some(Err(err)) => {
            match err {
                NetError::Os(code) => {
                    if code == EAGAIN {
                        ReadPoll::Pending
                    } else {
                        ReadPoll::Failed { err }
                    }
                },
                _ => ReadPoll::Failed { err },
            }
        },
    }
}

/// What a poll for writing a stream yields.
#[derive(Debug, Clone, Copy, PartialEq, Eq)]
pub enum WritePoll {
    /// The socket is not writable: wake the task and stay pending.
    Pending,
    /// The write was made: the poll is ready with its result.
    Ready { result: Result<usize, NetError> },
}

/// Decides the outcome of a write poll, given the result of the write, or
/// `None` where the socket was not writable and no write was made.
pub fn write_poll(result: Option<Result<usize, NetError>>) -> (p: WritePoll)
    ensures
        match result {
            None => p == WritePoll::Pending,
            Some(r) => p == (WritePoll::Ready { result: r }),
        },
{
    match result {
        None => WritePoll::Pending,
        Some(r) => WritePoll::Ready { result: r },
    }
}

/// The connection an accept poll yields, given the answer to the accept
/// request, or `None` where the listener has no agent and no request was
/// made: the accepted connection, if one was delivered; otherwise the poll
/// stays pending.
pub fn accept_ready<T>(result: Option<Result<Option<T>, NetError>>) -> (r: Option<T>)
    ensures
        match result {
            Some(Ok(Some(c))) => r == Some(c),
            _ => r is None,
        },
{
    match result {
        Some(Ok(Some(c))) => Some(c),
        _ => None,
    }
}

/// How waiting for a connect to complete ended.
#[derive(Debug, Clone, PartialEq, Eq)]
pub enum ConnectWait {
    /// The network loop reported the connection writable.
    Connected,
    /// The network loop reported the connection hung up, or stopped waiting.
    Failed,
    /// No report came within the time allowed; `message` says so.
    TimedOut { message: String },
}

/// The message of a connect whose request the network loop answered with an error.
pub open spec fn connect_refused_message() -> Seq<char> {
    "connection timed out"@
}

/// The outcome of a connect with a time limit, given the loop's answer to the
/// connect request and, where it handed out a stream, how the wait for it
/// ended. The error is the message of a timed-out failure: an error answer
/// fails with [`connect_refused_message`], and running out of time fails with
/// the wait's own message; the stream is returned however else the wait ended.
pub fn connect_wait_result(reply: Result<ConnectWait, NetError>) -> (r: Result<(), String>)
    ensures
        match reply {
            Err(_) => r matches Err(m) && m@ == connect_refused_message(),
            Ok(ConnectWait::TimedOut { message }) => r == Err::<(), String>(message),
            Ok(_) => r == Ok::<(), String>(()),
        },
{
    match reply {
        Err(_) => Err("connection timed out".to_string()),
        Ok(ConnectWait::TimedOut { message }) => Err(message),
        Ok(_) => Ok(()),
    }
}

} // verus!
