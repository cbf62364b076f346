//! Plain-value model of a UDP endpoint: an IP address and a port, tagged
//! with the address family. The socket handle's contracts compare these
//! tags, so a family mismatch is caught before any OS call is made.

use vstd::prelude::*;

verus! {

/// The two address families a socket can be created for. The tag is fixed
/// at creation and never changes for the life of the handle.
#[derive(Clone, Copy, Debug, PartialEq, Eq, Structural)]
pub enum Family {
    V4,
    V6,
}

/// A UDP endpoint held as plain values: the IP address octets and the port.
#[derive(Clone, Copy, Debug, PartialEq, Eq)]
pub enum UdpAddr {
    V4 { ip: [u8; 4], port: u16 },
    V6 { ip: [u8; 16], port: u16 },
}

impl UdpAddr {
    /// The family the address belongs to.
    pub open spec fn spec_family(&self) -> Family {
        match *self {
            UdpAddr::V4 { .. } => Family::V4,
            UdpAddr::V6 { .. } => Family::V6,
        }
    }

    /// The port the address carries.
    pub open spec fn spec_port(&self) -> u16 {
        match *self {
            UdpAddr::V4 { port, .. } => port,
            UdpAddr::V6 { port, .. } => port,
        }
    }

    /// An IPv4 endpoint from its four address octets and a port.
    pub fn v4(ip: [u8; 4], port: u16) -> (r: UdpAddr)
        ensures
            r == (UdpAddr::V4 { ip, port }),
    {
        UdpAddr::V4 { ip, port }
    }

    /// An IPv6 endpoint from its sixteen address octets and a port.
    pub fn v6(ip: [u8; 16], port: u16) -> (r: UdpAddr)
        ensures
            r == (UdpAddr::V6 { ip, port }),
    {
        UdpAddr::V6 { ip, port }
    }

    /// The family tag, as a runtime value.
    #[verifier::when_used_as_spec(spec_family)]
    pub fn family(&self) -> (r: Family)
        ensures
            r == self.spec_family(),
    {
        match *self {
            UdpAddr::V4 { .. } => Family::V4,
            UdpAddr::V6 { .. } => Family::V6,
        }
    }

    /// The port, as a runtime value.
    #[verifier::when_used_as_spec(spec_port)]
    pub fn port(&self) -> (r: u16)
        ensures
            r == self.spec_port(),
    {
        match *self {
            UdpAddr::V4 { port, .. } => port,
            UdpAddr::V6 { port, .. } => port,
        }
    }
}

/// The wildcard (all-zeroes) address of a family, carrying the given port:
/// the bind target for that family.
pub open spec fn spec_wildcard(f: Family, port: u16) -> UdpAddr {
    match f {
        Family::V4 => UdpAddr::V4 { ip: [0u8, 0u8, 0u8, 0u8], port },
        Family::V6 => UdpAddr::V6 {
            ip: [0u8, 0u8, 0u8, 0u8, 0u8, 0u8, 0u8, 0u8, 0u8, 0u8, 0u8, 0u8, 0u8, 0u8, 0u8, 0u8],
            port,
        },
    }
}

/// Build the wildcard bind target of a family at a port.
pub fn wildcard(f: Family, port: u16) -> (r: UdpAddr)
    ensures
        r == spec_wildcard(f, port),
        r.spec_family() == f,
        r.spec_port() == port,
{
    match f {
        Family::V4 => UdpAddr::V4 { ip: [0u8, 0u8, 0u8, 0u8], port },
        Family::V6 => UdpAddr::V6 {
            ip: [0u8, 0u8, 0u8, 0u8, 0u8, 0u8, 0u8, 0u8, 0u8, 0u8, 0u8, 0u8, 0u8, 0u8, 0u8, 0u8],
            port,
        },
    }
}

} // verus!
