//! The source that receives events from another instance of the pipeline.

pub mod v2;
