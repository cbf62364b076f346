//! Trusted boundary to the OS socket layer. Each function here wraps one
//! call into the `socket2` crate (or one `std::io` call) and is the only
//! place that call is made; everything above it is verified against the
//! contracts stated here. Nothing is promised of a call whose outcome the
//! OS decides: the verified layer states what holds whatever came back.

use vstd::prelude::*;

use crate::addr::UdpAddr;
use crate::error::SocketError;

verus! {

/// Makes Verus aware of `socket2::Socket`, the OS datagram socket. The
/// value is opaque: the verified layer only carries it between wrappers.
#[verifier::external_type_specification]
#[verifier::external_body]
pub struct ExSocket(socket2::Socket);

/// Makes Verus aware of `socket2::SockAddr`, the raw OS address form. The
/// value is opaque and only carried from `to_raw_addr` into a send, bind
/// or connect wrapper.
#[verifier::external_type_specification]
#[verifier::external_body]
pub struct ExSockAddr(socket2::SockAddr);

/// Makes Verus aware of `std::io::Error`, the error the OS calls report.
/// The value is opaque; `err_of` reads its kind.
#[verifier::external_type_specification]
#[verifier::external_body]
pub struct ExIoError(std::io::Error);

/// Relies on `socket2::SockAddr`'s conversions from the standard socket
/// address types: turns an endpoint held as plain values into the raw OS
/// address form, one for one.
#[verifier::external_body]
pub(crate) fn to_raw_addr(a: &UdpAddr) -> socket2::SockAddr {
    match *a {
        UdpAddr::V4 { ip, port } => {
            socket2::SockAddr::from(core::net::SocketAddrV4::new(core::net::Ipv4Addr::from(ip), port))
        }
        UdpAddr::V6 { ip, port } => {
            socket2::SockAddr::from(core::net::SocketAddrV6::new(core::net::Ipv6Addr::from(ip), port, 0, 0))
        }
    }
}

/// Relies on `std::io::Error::kind`: translates the OS failure into the
/// handle's own error kind, one condition per arm.
#[verifier::external_body]
pub(crate) fn err_of(e: std::io::Error) -> SocketError {
    match e.kind() {
        std::io::ErrorKind::WouldBlock => SocketError::WouldBlock,
        std::io::ErrorKind::PermissionDenied => SocketError::PermissionDenied,
        std::io::ErrorKind::AddrInUse => SocketError::AddrInUse,
        std::io::ErrorKind::NetworkUnreachable => SocketError::NetworkUnreachable,
        std::io::ErrorKind::OutOfMemory => SocketError::ResourceExhausted,
        _ => SocketError::Io,
    }
}

/// Relies on `socket2::Socket::new` with a datagram type and the UDP
/// protocol: allocates one OS socket of the requested family.
#[verifier::external_body]
pub(crate) fn sys_new(v6: bool) -> Result<socket2::Socket, std::io::Error> {
    let domain = if v6 { socket2::Domain::ipv6() } else { socket2::Domain::ipv4() };
    socket2::Socket::new(domain, socket2::Type::dgram(), Some(socket2::Protocol::udp()))
}

/// Relies on `socket2::Socket::bind`: binds the socket to the given local
/// address.
#[verifier::external_body]
pub(crate) fn sys_bind(s: &socket2::Socket, a: &socket2::SockAddr) -> Result<(), std::io::Error> {
    s.bind(a)
}

/// Relies on `socket2::Socket::connect`: fixes the socket's remote peer.
#[verifier::external_body]
pub(crate) fn sys_connect(s: &socket2::Socket, a: &socket2::SockAddr) -> Result<(), std::io::Error> {
    s.connect(a)
}

/// Relies on `socket2::Socket::set_nonblocking` with `true`: after it
/// succeeds, I/O calls report `WouldBlock` instead of suspending.
#[verifier::external_body]
pub(crate) fn sys_set_nonblocking(s: &socket2::Socket) -> Result<(), std::io::Error> {
    s.set_nonblocking(true)
}

/// Relies on `socket2::Socket::set_reuse_address` with `true`: sets
/// `SO_REUSEADDR` on the socket.
#[verifier::external_body]
pub(crate) fn sys_set_reuse_address(s: &socket2::Socket) -> Result<(), std::io::Error> {
    s.set_reuse_address(true)
}

/// Relies on `socket2::Socket::set_reuse_port` with `true`: sets
/// `SO_REUSEPORT` on the socket.
#[verifier::external_body]
pub(crate) fn sys_set_reuse_port(s: &socket2::Socket) -> Result<(), std::io::Error> {
    s.set_reuse_port(true)
}

/// Relies on `socket2::Socket::set_mark`: sets `SO_MARK`, the routing mark
/// put on every packet the socket sends.
#[verifier::external_body]
pub(crate) fn sys_set_mark(s: &socket2::Socket, mark: u32) -> Result<(), std::io::Error> {
    s.set_mark(mark)
}

/// Relies on `socket2::Socket::local_addr` and `socket2::SockAddr::as_std`:
/// reads the socket's local address back as plain values. `Ok(None)` stands
/// for an address of neither internet family.
#[verifier::external_body]
pub(crate) fn sys_local_addr(s: &socket2::Socket) -> Result<Option<UdpAddr>, std::io::Error> {
    match s.local_addr() {
        Ok(sa) => match sa.as_std() {
            Some(core::net::SocketAddr::V4(p)) => {
                Ok(Some(UdpAddr::V4 { ip: p.ip().octets(), port: p.port() }))
            }
            Some(core::net::SocketAddr::V6(p)) => {
                Ok(Some(UdpAddr::V6 { ip: p.ip().octets(), port: p.port() }))
            }
            None => Ok(None),
        },
        Err(e) => Err(e),
    }
}

/// Relies on `socket2::Socket::send_to`, which hands the whole buffer to
/// `sendto(2)`: on the datagram sockets this crate creates, the OS accepts
/// the message whole or fails the call, so a success reports exactly the
/// buffer's length.
#[verifier::external_body]
pub(crate) fn sys_send_to(s: &socket2::Socket, buf: &[u8], a: &socket2::SockAddr) -> (r: Result<
    usize,
    std::io::Error,
>)
    ensures
        r matches Ok(n) ==> n == buf@.len(),
{
    s.send_to(buf, a)
}

/// Relies on `socket2::Socket::send`, which hands the whole buffer to
/// `send(2)`: on the datagram sockets this crate creates, the OS accepts
/// the message whole or fails the call, so a success reports exactly the
/// buffer's length.
#[verifier::external_body]
pub(crate) fn sys_send(s: &socket2::Socket, buf: &[u8]) -> (r: Result<usize, std::io::Error>)
    ensures
        r matches Ok(n) ==> n == buf@.len(),
{
    s.send(buf)
}

/// Relies on `socket2::Socket::recv_from`: receives one datagram into the
/// front of the buffer and reads the sender's address back as plain
/// values. On the internet-family sockets this crate creates, a datagram
/// always carries a source address of the socket's own family; only the
/// end-of-stream wakeup after a shutdown returns without one, and then
/// with zero bytes and an untouched buffer. The OS writes only the filled
/// prefix, and writes nothing when the call fails; the buffer keeps its
/// length throughout.
#[verifier::external_body]
pub(crate) fn sys_recv_from(s: &socket2::Socket, buf: &mut Vec<u8>) -> (r: Result<
    (usize, Option<UdpAddr>),
    std::io::Error,
>)
    ensures
        final(buf)@.len() == old(buf)@.len(),
        r matches Ok(p) ==> p.0 <= final(buf)@.len(),
        r matches Ok(p) ==> (p.1 is Some || (p.0 == 0 && final(buf)@ == old(buf)@)),
        r matches Ok(p) ==> final(buf)@.skip(p.0 as int) == old(buf)@.skip(p.0 as int),
        r matches Err(_) ==> final(buf)@ == old(buf)@,
{
    match s.recv_from(buf.as_mut_slice()) {
        Ok((n, sa)) => match sa.as_std() {
            Some(core::net::SocketAddr::V4(p)) => {
                Ok((n, Some(UdpAddr::V4 { ip: p.ip().octets(), port: p.port() })))
            }
            Some(core::net::SocketAddr::V6(p)) => {
                Ok((n, Some(UdpAddr::V6 { ip: p.ip().octets(), port: p.port() })))
            }
            None => Ok((n, None)),
        },
        Err(e) => Err(e),
    }
}

/// Relies on `socket2::Socket::recv`: receives one datagram from the
/// connected peer into the front of the buffer. The OS writes only the
/// filled prefix, and writes nothing when the call fails; the buffer
/// keeps its length throughout.
#[verifier::external_body]
pub(crate) fn sys_recv(s: &socket2::Socket, buf: &mut Vec<u8>) -> (r: Result<
    usize,
    std::io::Error,
>)
    ensures
        final(buf)@.len() == old(buf)@.len(),
        r matches Ok(n) ==> n <= final(buf)@.len(),
        r matches Ok(n) ==> final(buf)@.skip(n as int) == old(buf)@.skip(n as int),
        r matches Err(_) ==> final(buf)@ == old(buf)@,
{
    s.recv(buf.as_mut_slice())
}

} // verus!
