//! Content-addressed cache keys and the in-process coordination for a
//! tiered, on-disk artifact cache.
//!
//! A [`CacheKey`](cache_key::CacheKey) is derived from human-readable,
//! stable provenance text: the scope of the request and the identity of
//! every remote file that contributes to the cached artifact.  The text is
//! hashed with SHA-256 and the digest is turned into a shard-friendly
//! relative path.  The tier module coordinates concurrent resolutions so
//! that at most one producer runs per key at a time.

pub mod cache_key;
pub mod digits;
pub mod errors;
pub mod laws;
pub mod pipeline;
pub mod remote_file;
pub mod scope;
pub mod tier;
