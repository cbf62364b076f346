//! The one error kind the handle reports: an OS-level failure, kept in
//! enough detail to tell the conditions apart that callers react to.

use vstd::prelude::*;

verus! {

/// An OS-level socket failure. Every fallible operation of the handle
/// reports one of these; retry policy belongs to the caller.
#[derive(Clone, Copy, Debug, PartialEq, Eq, Structural)]
pub enum SocketError {
    /// The operation could not complete right now (non-blocking mode).
    WouldBlock,
    /// The OS denied the operation (for instance a privileged port).
    PermissionDenied,
    /// The local address is already bound and reuse was not set.
    AddrInUse,
    /// No route leads to the destination (for instance a host whose
    /// loopback interface is down).
    NetworkUnreachable,
    /// The socket has no local binding yet, so there is no port to
    /// report.
    NotBound,
    /// The OS could not allocate the resource.
    ResourceExhausted,
    /// Any other I/O failure.
    Io,
}

} // verus!
