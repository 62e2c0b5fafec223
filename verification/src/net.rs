use vstd::prelude::*;

verus! {

/// Address family number of IPv4 (`AF_INET`).
pub const AF_INET: i32 = 2;

/// Address family number of IPv6 (`AF_INET6`).
pub const AF_INET6: i32 = 10;

/// Size in bytes of a `sockaddr_in`.
pub const SOCKADDR_IN_LEN: u32 = 16;

/// Size in bytes of a `sockaddr_in6`.
pub const SOCKADDR_IN6_LEN: u32 = 28;

/// The port that [`socket_addr`] writes into every IPv4 socket address,
/// whatever port the address names.
pub const V4_BOUND_PORT: u16 = 80;

/// An error of a socket operation.
#[derive(Debug, Clone, Copy, PartialEq, Eq)]
pub enum NetError {
    /// The operation failed with this OS error number.
    Os(i32),
    /// The operation did not complete in time.
    TimedOut,
    /// An argument, such as an address family, is not supported.
    InvalidInput,
}

// ---------------------------------------------------------------------------
// Results of the stack's system calls
// ---------------------------------------------------------------------------

/// The meaning of a call that returns a descriptor or a negative value:
/// a negative value is a failure whose cause is `errno`.
pub open spec fn spec_fd_result(ret: i32, errno: i32) -> Result<i32, NetError> {
    if ret < 0 {
        Err(NetError::Os(errno))
    } else {
        Ok(ret)
    }
}

/// The meaning of a call that returns a byte count or a negative value:
/// a negative value is a failure whose cause is `errno`.
pub open spec fn spec_len_result(ret: isize, errno: i32) -> Result<usize, NetError> {
    if ret < 0 {
        Err(NetError::Os(errno))
    } else {
        Ok(ret as usize)
    }
}

/// Interprets the value returned by a call that yields a descriptor.
pub fn fd_result(ret: i32, errno: i32) -> (r: Result<i32, NetError>)
    ensures
        r == spec_fd_result(ret, errno),
{
    if ret < 0 {
        Err(NetError::Os(errno))
    } else {
        Ok(ret)
    }
}

/// Interprets the value returned by a call that yields a byte count.
pub fn len_result(ret: isize, errno: i32) -> (r: Result<usize, NetError>)
    ensures
        r == spec_len_result(ret, errno),
{
    if ret < 0 {
        Err(NetError::Os(errno))
    } else {
        Ok(ret as usize)
    }
}

// ---------------------------------------------------------------------------
// Sockets
// ---------------------------------------------------------------------------

/// The readiness flags the network loop keeps for one socket.
#[derive(Debug, Clone, Copy)]
pub struct Socket {
    fd: i32,
    can_read: bool,
    can_write: bool,
    lose_connect: bool,
}

/// The abstract state of a [`Socket`].
pub struct SocketView {
    pub fd: i32,
    pub can_read: bool,
    pub can_write: bool,
    pub lose_connect: bool,
}

/// The state of a socket for `fd` on which no readiness has been seen.
pub open spec fn fresh_socket(fd: i32) -> SocketView {
    SocketView { fd, can_read: false, can_write: false, lose_connect: false }
}

impl View for Socket {
    type V = SocketView;

    closed spec fn view(&self) -> SocketView {
        SocketView {
            fd: self.fd,
            can_read: self.can_read,
            can_write: self.can_write,
            lose_connect: self.lose_connect,
        }
    }
}

impl Socket {
    /// The socket for the descriptor that opening a socket returned: a negative
    /// value is a failure whose cause is `errno`.
    pub fn new(fd: i32, errno: i32) -> (r: Result<Socket, NetError>)
        ensures
            fd < 0 ==> r == Err::<Socket, NetError>(NetError::Os(errno)),
            fd >= 0 ==> r is Ok && r->Ok_0@ == fresh_socket(fd),
    {
        if fd < 0 {
            return Err(NetError::Os(errno));
        }
        Ok(Socket::from(fd))
    }

    pub fn can_read(&self) -> (b: bool)
        ensures
            b == self@.can_read,
    {
        self.can_read
    }

    pub fn can_write(&self) -> (b: bool)
        ensures
            b == self@.can_write,
    {
        self.can_write
    }

    pub fn lose_connect(&self) -> (b: bool)
        ensures
            b == self@.lose_connect,
    {
        self.lose_connect
    }

    pub fn set_can_read(&mut self, v: bool)
        ensures
            final(self)@ == (SocketView { can_read: v, ..old(self)@ }),
    {
        self.can_read = v;
    }

    pub fn set_can_write(&mut self, v: bool)
        ensures
            final(self)@ == (SocketView { can_write: v, ..old(self)@ }),
    {
        self.can_write = v;
    }

    pub fn set_lose_connect(&mut self, v: bool)
        ensures
            final(self)@ == (SocketView { lose_connect: v, ..old(self)@ }),
    {
        self.lose_connect = v;
    }

    pub fn as_raw_fd(&self) -> (fd: i32)
        ensures
            fd == self@.fd,
    {
        self.fd
    }
}

impl From<i32> for Socket {
    fn from(fd: i32) -> (s: Socket)
        ensures
            s@ == fresh_socket(fd),
    {
        Socket { fd, can_read: false, can_write: false, lose_connect: false }
    }
}

impl vstd::std_specs::convert::FromSpecImpl<i32> for Socket {
    open spec fn obeys_from_spec() -> bool {
        true
    }

    closed spec fn from_spec(fd: i32) -> Socket {
        Socket { fd, can_read: false, can_write: false, lose_connect: false }
    }
}

// ---------------------------------------------------------------------------
// Socket addresses
// ---------------------------------------------------------------------------

/// An internet socket address.
#[derive(Debug, Clone, Copy, PartialEq, Eq)]
#[allow(inconsistent_fields)]
pub enum SockAddr {
    V4 { ip: [u8; 4], port: u16 },
    V6 { ip: [u8; 16], port: u16, flowinfo: u32, scope_id: u32 },
}

/// The abstract value of a [`SockAddr`].
pub enum SockAddrView {
    V4 { ip: Seq<u8>, port: u16 },
    V6 { ip: Seq<u8>, port: u16, flowinfo: u32, scope_id: u32 },
}

impl View for SockAddr {
    type V = SockAddrView;

    open spec fn view(&self) -> SockAddrView {
        match *self {
            SockAddr::V4 { ip, port } => SockAddrView::V4 { ip: ip@, port },
            SockAddr::V6 { ip, port, flowinfo, scope_id } => SockAddrView::V6 {
                ip: ip@,
                port,
                flowinfo,
                scope_id,
            },
        }
    }
}

/// The fields of a C socket address as the system reads and writes them:
/// the family, the port in network byte order, the address bytes (an IPv4
/// address in the first four), and the IPv6 flow information and scope.
#[derive(Debug, Clone, Copy, PartialEq, Eq)]
pub struct RawSockAddr {
    pub family: u16,
    pub port: [u8; 2],
    pub addr: [u8; 16],
    pub flowinfo: u32,
    pub scope_id: u32,
}

/// The abstract value of a [`RawSockAddr`].
pub struct RawSockAddrView {
    pub family: u16,
    pub port: Seq<u8>,
    pub addr: Seq<u8>,
    pub flowinfo: u32,
    pub scope_id: u32,
}

impl View for RawSockAddr {
    type V = RawSockAddrView;

    open spec fn view(&self) -> RawSockAddrView {
        RawSockAddrView {
            family: self.family,
            port: self.port@,
            addr: self.addr@,
            flowinfo: self.flowinfo,
            scope_id: self.scope_id,
        }
    }
}

/// A port written in network byte order: the high byte first.
pub open spec fn port_bytes(port: u16) -> Seq<u8> {
    seq![(port / 256) as u8, (port % 256) as u8]
}

/// The port that two bytes in network byte order denote.
pub open spec fn port_of_bytes(b: Seq<u8>) -> u16 {
    (b[0] * 256 + b[1]) as u16
}

/// The C form of a socket address and its length.
pub open spec fn spec_socket_addr(a: SockAddrView) -> (RawSockAddrView, u32) {
    match a {
        SockAddrView::V4 { ip, port } => (
            RawSockAddrView {
                family: AF_INET as u16,
                port: port_bytes(V4_BOUND_PORT),
                addr: ip + Seq::new(12, |i: int| 0u8),
                flowinfo: 0,
                scope_id: 0,
            },
            SOCKADDR_IN_LEN,
        ),
        SockAddrView::V6 { ip, port, flowinfo, scope_id } => (
            RawSockAddrView {
                family: AF_INET6 as u16,
                port: port_bytes(port),
                addr: ip,
                flowinfo,
                scope_id,
            },
            SOCKADDR_IN6_LEN,
        ),
    }
}

/// The socket address that a C socket address denotes, for the two internet
/// families.
pub open spec fn spec_to_socket_addr(r: RawSockAddrView) -> Result<SockAddrView, NetError> {
    if r.family as i32 == AF_INET {
        Ok(SockAddrView::V4 { ip: r.addr.subrange(0, 4), port: port_of_bytes(r.port) })
    } else if r.family as i32 == AF_INET6 {
        Ok(
            SockAddrView::V6 {
                ip: r.addr,
                port: port_of_bytes(r.port),
                flowinfo: r.flowinfo,
                scope_id: r.scope_id,
            },
        )
    } else {
        Err(NetError::InvalidInput)
    }
}

/// The address family of a socket address (the domain of a socket for it).
pub open spec fn spec_domain_of(a: SockAddrView) -> i32 {
    match a {
        SockAddrView::V4 { .. } => AF_INET,
        SockAddrView::V6 { .. } => AF_INET6,
    }
}

fn port_to_bytes(port: u16) -> (b: [u8; 2])
    ensures
        b@ == port_bytes(port),
{
    let b = [(port / 256) as u8, (port % 256) as u8];
    assert(b@ =~= port_bytes(port));
    b
}

fn port_from_bytes(b: [u8; 2]) -> (port: u16)
    ensures
        port == port_of_bytes(b@),
{
    (b[0] as u16) * 256 + (b[1] as u16)
}

/// Writes a socket address in its C form; returns it with its length.
/// An IPv4 address is always written with port [`V4_BOUND_PORT`].
pub fn socket_addr(addr: &SockAddr) -> (r: (RawSockAddr, u32))
    ensures
        (r.0@, r.1) == spec_socket_addr(addr@),
{
    match addr {
        SockAddr::V4 { ip, port: _ } => {
            let raw = RawSockAddr {
                family: AF_INET as u16,
                port: port_to_bytes(V4_BOUND_PORT),
                addr: [ip[0], ip[1], ip[2], ip[3], 0, 0, 0, 0, 0, 0, 0, 0, 0, 0, 0, 0],
                flowinfo: 0,
                scope_id: 0,
            };
            assert(raw.addr@ =~= ip@ + Seq::new(12, |i: int| 0u8));
            (raw, SOCKADDR_IN_LEN)
        },
        SockAddr::V6 { ip, port, flowinfo, scope_id } => {
            let raw = RawSockAddr {
                family: AF_INET6 as u16,
                port: port_to_bytes(*port),
                addr: *ip,
                flowinfo: *flowinfo,
                scope_id: *scope_id,
            };
            (raw, SOCKADDR_IN6_LEN)
        },
    }
}

/// Reads a socket address from its C form; a family other than the two
/// internet families is an invalid input.
pub fn to_socket_addr(raw: &RawSockAddr) -> (r: Result<SockAddr, NetError>)
    ensures
        match r {
            Ok(a) => spec_to_socket_addr(raw@) == Ok::<SockAddrView, NetError>(a@),
            Err(e) => spec_to_socket_addr(raw@) == Err::<SockAddrView, NetError>(e),
        },
{
    let family = raw.family as i32;
    if family == AF_INET {
        let ip = [raw.addr[0], raw.addr[1], raw.addr[2], raw.addr[3]];
        assert(ip@ =~= raw.addr@.subrange(0, 4));
        Ok(SockAddr::V4 { ip, port: port_from_bytes(raw.port) })
    } else if family == AF_INET6 {
        Ok(
            SockAddr::V6 {
                ip: raw.addr,
                port: port_from_bytes(raw.port),
                flowinfo: raw.flowinfo,
                scope_id: raw.scope_id,
            },
        )
    } else {
        Err(NetError::InvalidInput)
    }
}

/// The domain of a socket for `addr`.
pub fn domain_of(addr: &SockAddr) -> (d: i32)
    ensures
        d == spec_domain_of(addr@),
{
    match addr {
        SockAddr::V4 { .. } => AF_INET,
        SockAddr::V6 { .. } => AF_INET6,
    }
}

/// Reading back the C form of a socket address gives the address again,
/// except that an IPv4 address comes back with port [`V4_BOUND_PORT`].
pub proof fn lemma_socket_addr_round_trip(a: SockAddr)
    ensures
        spec_to_socket_addr(spec_socket_addr(a@).0) == Ok::<SockAddrView, NetError>(
            match a@ {
                SockAddrView::V4 { ip, port } => SockAddrView::V4 { ip, port: V4_BOUND_PORT },
                SockAddrView::V6 { .. } => a@,
            },
        ),
        spec_to_socket_addr(spec_socket_addr(a@).0) == Ok::<SockAddrView, NetError>(a@) <==> (
        a is V6 || a->V4_port == V4_BOUND_PORT),
{
    match a {
        SockAddr::V4 { ip, port } => {
            let raw = spec_socket_addr(a@).0;
            assert(raw.addr.subrange(0, 4) =~= ip@);
        },
        SockAddr::V6 { ip, port, flowinfo, scope_id } => {
            assert(port_of_bytes(port_bytes(port)) == port);
        },
    }
}

} // verus!
