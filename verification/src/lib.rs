//! Uniform file access for record-oriented codecs.
//!
//! A location identifier is resolved to a storage backend, a file path or an
//! explicit hint is resolved to a record codec, and writers are released
//! through a two-tier closing protocol. Every decision of the crate carries a
//! machine-checked contract; the storage and codec libraries are reached
//! through a small set of documented assumptions.

pub mod error;
pub mod text;
pub mod uri;
pub mod utils;
pub mod fs;
pub mod arrow;
pub mod io;
