//! Compression-aware gateway in front of an object store for VEX advisory
//! documents, and the field vocabulary of the package search.

pub mod codec;
pub mod reply;
pub mod gateway;
pub mod laws;
pub mod search;
