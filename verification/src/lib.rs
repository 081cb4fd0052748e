//! Transport layer of an observability pipeline: listeners that hand out
//! connections at once and negotiate transport security lazily, together with
//! the configuration of the components that send events to another instance
//! of the pipeline and receive them from it.
//!
//! Everything here is free of I/O. A connection is a state machine that is told
//! what the last step of outside work produced and answers with the next step;
//! the program around the library owns the reactor and performs the steps.

pub mod config;
pub mod sinks;
pub mod sources;
pub mod tcp;
pub mod tls;
