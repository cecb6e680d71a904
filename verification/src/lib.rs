//! Incremental market-data synchronization engine.
//!
//! The crate verifies the parts of a batch synchronizer that carry real
//! invariants: the compact identifier codec that packs a security's category
//! and sequence number into one 64-bit key, the rate-limit request gate with
//! its error-count circuit breaker, the run-scoped registry caches that give
//! each natural key at most one store insert, the watermark filter that keeps
//! already-ingested rows out, and the content fingerprint that detects
//! unchanged news snapshots.

pub mod classify;
pub mod codec;
pub mod errors;
pub mod feed;
pub mod fingerprint;
pub mod gate;
pub mod markets;
pub mod news;
pub mod registry;
pub mod sync;
pub mod tops;
pub mod text;
pub mod urls;
pub mod watermark;
