//! What the library does, in terms of raw bytes, registers and host arguments.
//!
//! Each law here speaks of a result as a reader of the file format, the
//! processor manual or the host's documentation would: by offsets, numbers and
//! values, or by how two results relate.

pub mod headers;
pub mod mapping;
pub mod relocation;
pub mod requests;
pub mod running;
