//! Turning a chunked one-dimensional array into a single-chunk one: the
//! arithmetic, the naming of chunk files, the assembly of the decoded bytes
//! and the order of the steps that replace the array on disk.

pub mod chunks;
pub mod compressor;
pub mod dechunker;
pub mod decimal;
pub mod dtype;
pub mod error;
pub mod metadata;
pub mod path;
pub mod swap;
