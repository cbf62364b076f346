//! A minimal, family-aware handle over one UDP socket.
//!
//! The handle wraps an OS datagram socket together with a tag recording the
//! address family it was created for. Configuration calls consume the handle
//! and hand it back, so a half-configured handle cannot linger; every address
//! that reaches the socket must carry the handle's own family, which the
//! contracts enforce at the call site.

use vstd::prelude::*;

mod addr;
mod error;
mod socket;
mod sys;

pub use addr::Family;
pub use addr::UdpAddr;
pub use addr::spec_wildcard;
pub use addr::wildcard;
pub use error::SocketError;
pub use socket::UDPSocket;
pub use socket::port_of_local;
pub use socket::spec_port_of_local;

verus! {

/// The bind target a handle derives for itself always carries the
/// handle's own family and the requested port: binding can never change
/// the family tag, whichever family the handle was created for.
pub proof fn lemma_bind_target_family(f: Family, port: u16)
    ensures
        spec_wildcard(f, port).spec_family() == f,
        spec_wildcard(f, port).spec_port() == port,
{
}

} // verus!
