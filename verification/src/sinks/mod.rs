//! Destinations of events.

pub mod http;
pub mod util;
pub mod vector;
