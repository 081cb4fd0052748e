//! The first version of the sink: events over a plain or secured TCP
//! connection.

use crate::config::DataType;
use crate::tcp::TcpKeepaliveConfig;
use crate::tls::settings::TlsConfig;
use vstd::prelude::*;

verus! {

/// The configuration of the first version of the sink.
pub struct VectorSinkConfig {
    /// The destination, as `host:port`.
    pub address: String,
    pub keepalive: Option<TcpKeepaliveConfig>,
    pub tls: Option<TlsConfig>,
}

impl VectorSinkConfig {
    /// The kinds of event that the sink takes: all of them.
    pub fn input_type(&self) -> (kind: DataType)
        ensures
            kind == DataType::Any,
    {
        DataType::Any
    }

    /// The name of the sink.
    pub fn sink_type(&self) -> (name: &'static str)
        ensures
            name@ == "vector"@,
    {
        "vector"
    }
}

} // verus!
