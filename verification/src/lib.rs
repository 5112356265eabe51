//! A minimal telemetry pipeline: agents sample host resource usage and push
//! periodic snapshots to a collector, which keeps a per-host history in memory.
//!
//! The crate holds the decisions of both sides as verified code. Sockets,
//! timers and the JSON encoding of a record are the caller's business.

pub mod agent;
pub mod collector;
pub mod metrics;
pub mod protocol;
pub mod sampling;
pub mod store;
