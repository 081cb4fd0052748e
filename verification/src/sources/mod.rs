//! Origins of events.

pub mod datadog;
pub mod util;
pub mod vector;
