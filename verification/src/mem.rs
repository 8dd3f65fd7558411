//! The in-memory backend's tracer.
pub mod firehose;
