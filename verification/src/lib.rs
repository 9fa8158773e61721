//! Touch event multiplexer.
//!
//! A driver-layer core that fans a single hardware touch source out to many
//! isolated client processes: it aggregates per-process enable requests into
//! one hardware decision, rotates raw coordinates into display space,
//! deduplicates single-touch samples per process, and serializes multi-touch
//! batches into each process's shared buffer under a one-credit
//! acknowledgment protocol.

pub mod codec;
pub mod events;
pub mod geometry;
pub mod mux;
