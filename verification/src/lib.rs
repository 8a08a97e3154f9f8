//! A content-addressed paste store.
//!
//! Uploaded byte content is named by a short identifier derived from its
//! cryptographic hash, stored in a durable key/value store with a fixed
//! retention window, and served back through a two-tier read path: an
//! ephemeral edge cache in front of the durable store. An append-only log
//! under a well-known key doubles as a monotonic upload counter.

use vstd::prelude::*;

pub mod bytes;
pub mod cache;
pub mod ident;
pub mod info;
pub mod keys;
pub mod laws;
pub mod retrieve;
pub mod route;
pub mod stats;
pub mod store;
pub mod upload;

verus! {

/// Length, in characters, of a content identifier.
pub const ID_LENGTH: usize = 8;

/// Smallest content size accepted for upload, in bytes.
pub const MIN_CONTENT_SIZE: usize = 32;

/// Largest content size accepted for upload, in bytes (24 MiB).
pub const MAX_CONTENT_SIZE: usize = 24 * 1024 * 1024;

/// Retention window for stored content, in seconds (7 days).
pub const KV_TTL_SECS: u64 = 7 * 86400;

/// Retention window for cached content, in seconds (30 days).
pub const CACHE_TTL_SECS: u64 = 30 * 86400;

} // verus!
