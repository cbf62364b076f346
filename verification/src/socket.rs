//! The socket handle: one OS datagram socket together with the address
//! family it was created for. The family tag is fixed at creation; every
//! configuration call consumes the handle and hands it back unchanged in
//! family, and every address a caller supplies must carry that family.

use vstd::prelude::*;

use crate::addr::Family;
use crate::addr::UdpAddr;
use crate::addr::wildcard;
use crate::error::SocketError;
use crate::sys;

verus! {

/// What the port query answers for each local address the OS can hand
/// back: the port of an internet-family address when it is nonzero; the
/// not-bound failure for the wildcard port 0, which the OS reports
/// exactly when the socket has no binding yet; the generic failure for an
/// address of neither internet family.
pub open spec fn spec_port_of_local(looked_up: Option<UdpAddr>) -> Result<u16, SocketError> {
    match looked_up {
        Some(a) => if a.spec_port() == 0 {
            Err(SocketError::NotBound)
        } else {
            Ok(a.spec_port())
        },
        None => Err(SocketError::Io),
    }
}

/// Turn the local address the OS reported into the port query's answer.
pub fn port_of_local(looked_up: Option<UdpAddr>) -> (r: Result<u16, SocketError>)
    ensures
        r == spec_port_of_local(looked_up),
{
    match looked_up {
        Some(a) => {
            let p = a.port();
            if p == 0 {
                Err(SocketError::NotBound)
            } else {
                Ok(p)
            }
        }
        None => Err(SocketError::Io),
    }
}

/// Receives and sends UDP packets over the network.
pub struct UDPSocket {
    sock: socket2::Socket,
    fam: Family,
}

impl UDPSocket {
    /// The address family the handle was created for. Fixed for the life
    /// of the handle: no operation changes it.
    pub closed spec fn spec_family(&self) -> Family {
        self.fam
    }

    /// The family tag, as a runtime value.
    #[verifier::when_used_as_spec(spec_family)]
    pub fn family(&self) -> (r: Family)
        ensures
            r == self.spec_family(),
    {
        self.fam
    }

    /// Create a new IPv4 UDP socket.
    pub fn new() -> (r: Result<UDPSocket, SocketError>)
        ensures
            r matches Ok(s) ==> s.spec_family() == Family::V4,
    {
        match sys::sys_new(false) {
            Ok(sock) => Ok(UDPSocket { sock, fam: Family::V4 }),
            Err(e) => Err(sys::err_of(e)),
        }
    }

    /// Create a new IPv6 UDP socket.
    pub fn new6() -> (r: Result<UDPSocket, SocketError>)
        ensures
            r matches Ok(s) ==> s.spec_family() == Family::V6,
    {
        match sys::sys_new(true) {
            Ok(sock) => Ok(UDPSocket { sock, fam: Family::V6 }),
            Err(e) => Err(sys::err_of(e)),
        }
    }

    /// Bind the socket to a local port, on the wildcard address of the
    /// handle's own family; the bind target can therefore never carry the
    /// other family.
    pub fn bind(self, port: u16) -> (r: Result<UDPSocket, SocketError>)
        ensures
            r matches Ok(s) ==> s.spec_family() == self.spec_family(),
    {
        let target = wildcard(self.family(), port);
        let raw = sys::to_raw_addr(&target);
        match sys::sys_bind(&self.sock, &raw) {
            Ok(()) => Ok(self),
            Err(e) => Err(sys::err_of(e)),
        }
    }

    /// Connect the socket to a fixed remote peer; call `bind` first, or
    /// the local port is left for the OS to pick. The peer's family must
    /// be the handle's own.
    pub fn connect(self, dst: UdpAddr) -> (r: Result<UDPSocket, SocketError>)
        requires
            dst.spec_family() == self.spec_family(),
        ensures
            r matches Ok(s) ==> s.spec_family() == self.spec_family(),
    {
        let raw = sys::to_raw_addr(&dst);
        match sys::sys_connect(&self.sock, &raw) {
            Ok(()) => Ok(self),
            Err(e) => Err(sys::err_of(e)),
        }
    }

    /// Set the socket to non-blocking mode: I/O calls then report
    /// `WouldBlock` instead of suspending the caller.
    pub fn set_non_blocking(self) -> (r: Result<UDPSocket, SocketError>)
        ensures
            r matches Ok(s) ==> s.spec_family() == self.spec_family(),
    {
        match sys::sys_set_nonblocking(&self.sock) {
            Ok(()) => Ok(self),
            Err(e) => Err(sys::err_of(e)),
        }
    }

    /// Set the address- and port-reuse options, so several handles can
    /// bind the same local port. A platform that lacks port reuse makes
    /// this operation fail; the failure is never swallowed.
    pub fn set_reuse(self) -> (r: Result<UDPSocket, SocketError>)
        ensures
            r matches Ok(s) ==> s.spec_family() == self.spec_family(),
    {
        if let Err(e) = sys::sys_set_reuse_address(&self.sock) {
            return Err(sys::err_of(e));
        }
        match sys::sys_set_reuse_port(&self.sock) {
            Ok(()) => Ok(self),
            Err(e) => Err(sys::err_of(e)),
        }
    }

    /// Set the routing mark put on all packets sent by this socket.
    pub fn set_fwmark(&self, mark: u32) -> (r: Result<(), SocketError>) {
        match sys::sys_set_mark(&self.sock, mark) {
            Ok(()) => Ok(()),
            Err(e) => Err(sys::err_of(e)),
        }
    }

    /// Query the local port the socket is bound to, for either family. A
    /// successful answer is never 0: the OS reports the wildcard port 0
    /// exactly when no binding exists yet, and that is a failure here.
    pub fn port(&self) -> (r: Result<u16, SocketError>)
        ensures
            r matches Ok(p) ==> p != 0,
    {
        match sys::sys_local_addr(&self.sock) {
            Ok(looked_up) => port_of_local(looked_up),
            Err(e) => Err(sys::err_of(e)),
        }
    }

    /// Send `buf` to a remote address of the handle's own family. The
    /// datagram is accepted whole or the call fails: a success reports
    /// exactly the buffer's length, never a partial write.
    pub fn sendto(&self, buf: &[u8], dst: UdpAddr) -> (r: Result<usize, SocketError>)
        requires
            dst.spec_family() == self.spec_family(),
        ensures
            r matches Ok(n) ==> n == buf@.len(),
    {
        let raw = sys::to_raw_addr(&dst);
        match sys::sys_send_to(&self.sock, buf, &raw) {
            Ok(n) => Ok(n),
            Err(e) => Err(sys::err_of(e)),
        }
    }

    /// Receive one datagram on a non-connected socket: its origin address
    /// and how many bytes now fill the front of `buf`. The buffer keeps
    /// its length, only the filled prefix is written, and a failure — the
    /// would-block condition included — leaves the buffer untouched. A
    /// wakeup that carries no datagram and no source (after a shutdown)
    /// reports a failure too.
    pub fn recvfrom(&self, buf: &mut Vec<u8>) -> (r: Result<(UdpAddr, usize), SocketError>)
        ensures
            final(buf)@.len() == old(buf)@.len(),
            r matches Ok(p) ==> p.1 <= final(buf)@.len(),
            r matches Ok(p) ==> final(buf)@.skip(p.1 as int) == old(buf)@.skip(p.1 as int),
            r matches Err(_) ==> final(buf)@ == old(buf)@,
    {
        match sys::sys_recv_from(&self.sock, buf) {
            Ok((n, Some(a))) => Ok((a, n)),
            Ok((_, None)) => Err(SocketError::Io),
            Err(e) => Err(sys::err_of(e)),
        }
    }

    /// Receive one datagram from the connected peer: how many bytes now
    /// fill the front of `dst`. The buffer keeps its length, only the
    /// filled prefix is written, and a failure leaves the buffer
    /// untouched. A connected socket whose communication was shut down
    /// wakes any blocked or polling read with a zero-length answer: the
    /// end-of-stream indication.
    pub fn read(&self, dst: &mut Vec<u8>) -> (r: Result<usize, SocketError>)
        ensures
            final(dst)@.len() == old(dst)@.len(),
            r matches Ok(n) ==> n <= final(dst)@.len(),
            r matches Ok(n) ==> final(dst)@.skip(n as int) == old(dst)@.skip(n as int),
            r matches Err(_) ==> final(dst)@ == old(dst)@,
    {
        match sys::sys_recv(&self.sock, dst) {
            Ok(n) => Ok(n),
            Err(e) => Err(sys::err_of(e)),
        }
    }

    /// Send `src` to the connected peer. The datagram is accepted whole
    /// or the call fails: a success reports exactly the buffer's length,
    /// never a partial write.
    pub fn write(&self, src: &[u8]) -> (r: Result<usize, SocketError>)
        ensures
            r matches Ok(n) ==> n == src@.len(),
    {
        match sys::sys_send(&self.sock, src) {
            Ok(n) => Ok(n),
            Err(e) => Err(sys::err_of(e)),
        }
    }

    /// A non-owning view of the underlying OS socket, for registration
    /// with an external readiness mechanism. Ownership stays with the
    /// handle: the resource is released when the handle is dropped.
    pub fn raw_socket(&self) -> &socket2::Socket {
        &self.sock
    }
}

} // verus!
