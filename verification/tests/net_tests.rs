use dpdk_io::net::{
    domain_of, fd_result, len_result, socket_addr, to_socket_addr, NetError, RawSockAddr, SockAddr,
    Socket, AF_INET, AF_INET6, SOCKADDR_IN6_LEN, SOCKADDR_IN_LEN, V4_BOUND_PORT,
};

fn v6_ip() -> [u8; 16] {
    [0x20, 0x01, 0x0d, 0xb8, 0, 0, 0, 0, 0, 0, 0, 0, 0, 0, 0, 1]
}

#[test]
fn address_constants_agree_with_libc() {
    assert_eq!(AF_INET, libc::AF_INET);
    assert_eq!(AF_INET6, libc::AF_INET6);
    assert_eq!(SOCKADDR_IN_LEN as usize, std::mem::size_of::<libc::sockaddr_in>());
    assert_eq!(SOCKADDR_IN6_LEN as usize, std::mem::size_of::<libc::sockaddr_in6>());
}

#[test]
fn fd_result_reads_negative_as_failure() {
    assert_eq!(fd_result(-1, 24), Err(NetError::Os(24)));
    assert_eq!(fd_result(0, 24), Ok(0));
    assert_eq!(fd_result(7, 24), Ok(7));
}

#[test]
fn len_result_reads_negative_as_failure() {
    assert_eq!(len_result(-1, 104), Err(NetError::Os(104)));
    assert_eq!(len_result(-5, 9), Err(NetError::Os(9)));
    assert_eq!(len_result(0, 9), Ok(0));
    assert_eq!(len_result(1500, 9), Ok(1500));
}

#[test]
fn socket_new_fails_on_negative_descriptor() {
    assert_eq!(Socket::new(-1, 97).err(), Some(NetError::Os(97)));
}

#[test]
fn socket_new_starts_without_readiness() {
    let s = Socket::new(5, 0).unwrap();
    assert_eq!(s.as_raw_fd(), 5);
    assert!(!s.can_read());
    assert!(!s.can_write());
    assert!(!s.lose_connect());
}

#[test]
fn socket_from_descriptor_and_flags() {
    let mut s = Socket::from(9);
    assert_eq!(s.as_raw_fd(), 9);
    s.set_can_read(true);
    assert!(s.can_read());
    assert!(!s.can_write());
    s.set_can_write(true);
    assert!(s.can_write());
    s.set_lose_connect(true);
    assert!(s.lose_connect());
    s.set_can_read(false);
    assert!(!s.can_read());
    assert!(s.can_write());
    assert_eq!(s.as_raw_fd(), 9);
}

#[test]
fn socket_addr_writes_v4_with_bound_port() {
    let a = SockAddr::V4 { ip: [192, 168, 1, 7], port: 8080 };
    let (raw, len) = socket_addr(&a);
    assert_eq!(len, 16);
    assert_eq!(raw.family, 2);
    assert_eq!(raw.port, [0, 80]);
    assert_eq!(raw.addr, [192, 168, 1, 7, 0, 0, 0, 0, 0, 0, 0, 0, 0, 0, 0, 0]);
    assert_eq!(raw.flowinfo, 0);
    assert_eq!(raw.scope_id, 0);
}

#[test]
fn socket_addr_writes_v6_port_in_network_order() {
    let a = SockAddr::V6 { ip: v6_ip(), port: 8080, flowinfo: 3, scope_id: 4 };
    let (raw, len) = socket_addr(&a);
    assert_eq!(len, 28);
    assert_eq!(raw.family, 10);
    assert_eq!(raw.port, [0x1f, 0x90]);
    assert_eq!(raw.addr, v6_ip());
    assert_eq!(raw.flowinfo, 3);
    assert_eq!(raw.scope_id, 4);
}

#[test]
fn to_socket_addr_reads_v4() {
    let raw = RawSockAddr {
        family: 2,
        port: [0x01, 0xbb],
        addr: [10, 0, 0, 1, 9, 9, 9, 9, 9, 9, 9, 9, 9, 9, 9, 9],
        flowinfo: 77,
        scope_id: 88,
    };
    assert_eq!(to_socket_addr(&raw), Ok(SockAddr::V4 { ip: [10, 0, 0, 1], port: 443 }));
}

#[test]
fn to_socket_addr_reads_v6() {
    let raw = RawSockAddr { family: 10, port: [0xff, 0xff], addr: v6_ip(), flowinfo: 1, scope_id: 2 };
    assert_eq!(
        to_socket_addr(&raw),
        Ok(SockAddr::V6 { ip: v6_ip(), port: 65535, flowinfo: 1, scope_id: 2 })
    );
}

#[test]
fn to_socket_addr_rejects_other_family() {
    let raw = RawSockAddr { family: 1, port: [0, 0], addr: [0; 16], flowinfo: 0, scope_id: 0 };
    assert_eq!(to_socket_addr(&raw), Err(NetError::InvalidInput));
}

#[test]
fn round_trip_v6_gives_the_address_back() {
    let a = SockAddr::V6 { ip: v6_ip(), port: 1234, flowinfo: 5, scope_id: 6 };
    assert_eq!(to_socket_addr(&socket_addr(&a).0), Ok(a));
}

#[test]
fn round_trip_v4_gives_bound_port_back() {
    let a = SockAddr::V4 { ip: [127, 0, 0, 1], port: 80 };
    assert_eq!(to_socket_addr(&socket_addr(&a).0), Ok(a));
    let b = SockAddr::V4 { ip: [127, 0, 0, 1], port: 9000 };
    assert_eq!(
        to_socket_addr(&socket_addr(&b).0),
        Ok(SockAddr::V4 { ip: [127, 0, 0, 1], port: V4_BOUND_PORT })
    );
}

#[test]
fn domain_follows_family() {
    assert_eq!(domain_of(&SockAddr::V4 { ip: [1, 2, 3, 4], port: 1 }), libc::AF_INET);
    assert_eq!(
        domain_of(&SockAddr::V6 { ip: v6_ip(), port: 1, flowinfo: 0, scope_id: 0 }),
        libc::AF_INET6
    );
}
