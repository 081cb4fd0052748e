//! What every component of a pipeline says of itself.

use crate::tls::SocketAddress;
use vstd::prelude::*;

verus! {

/// How a port is used.
#[derive(Clone, Copy, Debug, PartialEq, Eq, Structural)]
pub enum Protocol {
    Tcp,
    Udp,
}

/// What a component needs for itself alone.
#[derive(Clone, Copy, Debug, PartialEq, Eq, Structural)]
pub enum Resource {
    /// An address to listen on.
    Port(SocketAddress, Protocol),
}

impl Resource {
    /// The address `addr`, listened on for TCP connections.
    pub fn tcp(addr: SocketAddress) -> (resource: Self)
        ensures
            resource == Resource::Port(addr, Protocol::Tcp),
    {
        Resource::Port(addr, Protocol::Tcp)
    }
}

/// The kinds of event that a component takes or gives.
#[derive(Clone, Copy, Debug, PartialEq, Eq, Structural)]
pub enum DataType {
    Any,
    Log,
    Metric,
}

} // verus!
