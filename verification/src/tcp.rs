//! Options of a TCP socket.

use vstd::prelude::*;

verus! {

/// When an idle connection is probed.
#[derive(Clone, Copy, Debug, PartialEq, Eq, Structural)]
pub struct TcpKeepaliveConfig {
    /// Seconds of silence before the first probe.
    pub time_secs: Option<u64>,
}

} // verus!
