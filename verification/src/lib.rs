//! Catalog-to-chunk adapter.
//!
//! Converts an immutable catalog record describing one persisted columnar
//! file into an in-memory, queryable chunk object. The record carries
//! numeric surrogate keys and an embedded, self-describing metadata blob;
//! the adapter decodes the blob exactly once, resolves the surrogate keys
//! to human-readable names through a catalog cache, derives a composite
//! address and a strictly positive ordering value, and assembles the
//! catalog-facing chunk.

pub mod address;
pub mod bytes;
pub mod cache;
pub mod chunk;
pub mod error;
pub mod metadata;
pub mod record;
pub mod text;
