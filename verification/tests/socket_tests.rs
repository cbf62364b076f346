use udp_socket::Family;
use udp_socket::SocketError;
use udp_socket::UDPSocket;
use udp_socket::UdpAddr;
use udp_socket::port_of_local;
use udp_socket::wildcard;

fn loopback(port: u16) -> UdpAddr {
    UdpAddr::v4([127, 0, 0, 1], port)
}

/// Datagram delivery needs a host whose loopback interface routes. A bare
/// network namespace has none, and there every send reports that no route
/// exists; the round-trip tests end early on such a host and assert in
/// full everywhere else.
fn loopback_routes() -> bool {
    let s = UDPSocket::new().unwrap().bind(0).unwrap();
    let port = s.port().unwrap();
    !matches!(s.sendto(b"probe", loopback(port)), Err(SocketError::NetworkUnreachable))
}

#[test]
fn addr_accessors_report_what_was_put_in() {
    let a = UdpAddr::v4([10, 1, 2, 3], 4242);
    assert_eq!(a.family(), Family::V4);
    assert_eq!(a.port(), 4242);
    let b = UdpAddr::v6([0, 0, 0, 0, 0, 0, 0, 0, 0, 0, 0, 0, 0, 0, 0, 1], 53);
    assert_eq!(b.family(), Family::V6);
    assert_eq!(b.port(), 53);
}

#[test]
fn wildcard_carries_family_and_port() {
    let w4 = wildcard(Family::V4, 9000);
    assert_eq!(w4.family(), Family::V4);
    assert_eq!(w4.port(), 9000);
    assert_eq!(w4, UdpAddr::V4 { ip: [0, 0, 0, 0], port: 9000 });
    let w6 = wildcard(Family::V6, 9001);
    assert_eq!(w6.family(), Family::V6);
    assert_eq!(w6.port(), 9001);
}

#[test]
fn port_of_local_answers_each_case_exactly() {
    assert_eq!(port_of_local(Some(UdpAddr::v4([0, 0, 0, 0], 4711))), Ok(4711));
    assert_eq!(
        port_of_local(Some(UdpAddr::v4([0, 0, 0, 0], 0))),
        Err(SocketError::NotBound)
    );
    assert_eq!(port_of_local(None), Err(SocketError::Io));
}

#[test]
fn unbound_socket_reports_no_port() {
    let s = UDPSocket::new().unwrap();
    assert_eq!(s.port(), Err(SocketError::NotBound));
    let s6 = UDPSocket::new6().unwrap();
    assert_eq!(s6.port(), Err(SocketError::NotBound));
}

#[test]
fn family_fixed_after_bind_v4() {
    let s = UDPSocket::new().unwrap();
    assert_eq!(s.family(), Family::V4);
    let s = s.bind(0).unwrap();
    assert_eq!(s.family(), Family::V4);
}

#[test]
fn family_fixed_after_bind_v6() {
    let s = UDPSocket::new6().unwrap();
    assert_eq!(s.family(), Family::V6);
    let s = s.bind(0).unwrap();
    assert_eq!(s.family(), Family::V6);
}

#[test]
fn roundtrip_loopback_lengths() {
    if !loopback_routes() {
        return;
    }
    let a = UDPSocket::new().unwrap().bind(0).unwrap();
    let b = UDPSocket::new().unwrap().bind(0).unwrap();
    let a_port = a.port().unwrap();
    let b_port = b.port().unwrap();
    for len in [1usize, 64, 1472] {
        let msg: Vec<u8> = (0..len).map(|i| (i % 251) as u8).collect();
        let sent = a.sendto(&msg, loopback(b_port)).unwrap();
        assert_eq!(sent, len);
        let mut buf = vec![9u8; 2048];
        let (from, n) = b.recvfrom(&mut buf).unwrap();
        assert_eq!(n, len);
        assert_eq!(&buf[..n], &msg[..]);
        assert!(buf[n..].iter().all(|&x| x == 9), "bytes past the datagram must stay");
        assert_eq!(from, loopback(a_port));
    }
}

#[test]
fn connected_roundtrip() {
    if !loopback_routes() {
        return;
    }
    let a = UDPSocket::new().unwrap().bind(0).unwrap();
    let b = UDPSocket::new().unwrap().bind(0).unwrap();
    let a_port = a.port().unwrap();
    let b_port = b.port().unwrap();
    let a = a.connect(loopback(b_port)).unwrap();
    let b = b.connect(loopback(a_port)).unwrap();
    let msg = b"hello over the loop";
    assert_eq!(a.write(msg).unwrap(), msg.len());
    let mut buf = vec![0u8; 128];
    let n = b.read(&mut buf).unwrap();
    assert_eq!(&buf[..n], &msg[..]);
}

#[test]
fn nonblocking_recv_reports_would_block() {
    let s = UDPSocket::new().unwrap().bind(0).unwrap().set_non_blocking().unwrap();
    let mut buf = vec![7u8; 64];
    match s.recvfrom(&mut buf) {
        Err(SocketError::WouldBlock) => {}
        other => panic!("expected a would-block failure, got {:?}", other.map(|p| p.1)),
    }
    assert_eq!(buf, vec![7u8; 64], "a failed receive must leave the buffer untouched");
}

#[test]
fn reuse_allows_two_binds_on_one_port() {
    let a = UDPSocket::new().unwrap().set_reuse().unwrap().bind(0).unwrap();
    let port = a.port().unwrap();
    let b = UDPSocket::new().unwrap().set_reuse().unwrap().bind(port).unwrap();
    assert_eq!(b.port().unwrap(), port);
}

#[test]
fn second_bind_without_reuse_fails() {
    let a = UDPSocket::new().unwrap().bind(0).unwrap();
    let port = a.port().unwrap();
    match UDPSocket::new().unwrap().bind(port) {
        Err(SocketError::AddrInUse) => {}
        Ok(_) => panic!("second bind of a busy port succeeded without reuse"),
        Err(other) => panic!("expected address-in-use, got {:?}", other),
    }
}

#[test]
fn ephemeral_port_is_nonzero_and_is_the_source_port() {
    let s = UDPSocket::new().unwrap().bind(0).unwrap();
    let s_port = s.port().unwrap();
    assert_ne!(s_port, 0);
    if !loopback_routes() {
        return;
    }
    let sink = UDPSocket::new().unwrap().bind(0).unwrap();
    let sink_port = sink.port().unwrap();
    s.sendto(b"probe", loopback(sink_port)).unwrap();
    let mut buf = vec![0u8; 64];
    let (from, n) = sink.recvfrom(&mut buf).unwrap();
    assert_eq!(n, 5);
    assert_eq!(from.port(), s_port);
}

#[test]
fn ping_scenario_between_two_ephemeral_handles() {
    if !loopback_routes() {
        return;
    }
    let h1 = UDPSocket::new().unwrap().bind(0).unwrap();
    let p = h1.port().unwrap();
    let h2 = UDPSocket::new().unwrap().bind(0).unwrap();
    let h2_port = h2.port().unwrap();
    assert_eq!(h2.sendto(b"ping", loopback(p)).unwrap(), 4);
    let mut buf = vec![0u8; 32];
    let (from, n) = h1.recvfrom(&mut buf).unwrap();
    assert_eq!(&buf[..n], b"ping");
    assert_eq!(from, loopback(h2_port));
}

#[test]
fn privileged_port_bind_reports_permission() {
    // Binding a port below 1024 needs privilege; a host may grant it (root,
    // or unprivileged low ports opened), but a denial must surface as the
    // permission kind and nothing else.
    match UDPSocket::new().unwrap().bind(80) {
        Ok(_) => {}
        Err(SocketError::PermissionDenied) => {}
        Err(SocketError::AddrInUse) => {}
        Err(other) => panic!("unexpected failure kind {:?}", other),
    }
}

#[test]
fn set_fwmark_reports_without_privilege_loss() {
    let s = UDPSocket::new().unwrap().bind(0).unwrap();
    // Setting a mark needs CAP_NET_ADMIN; with it the call succeeds, without
    // it the OS denies it. Either way the outcome is reported, not swallowed.
    match s.set_fwmark(7) {
        Ok(()) => {}
        Err(SocketError::PermissionDenied) => {}
        Err(other) => panic!("unexpected failure kind {:?}", other),
    }
}
