//! An in-memory, content-addressed blob store with Merkle-tree outboards.
//!
//! Blobs move from partial (still being written) to complete (frozen and
//! immutable); a hash is never both at once.
pub mod hash;
pub mod error;
pub mod buffer;
pub mod tree;
pub mod table;
pub mod entry;
pub mod store;
pub mod laws;
pub mod tls;
