//! Sources that speak the protocols of Datadog agents.

pub mod logs;
