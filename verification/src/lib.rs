//! Request routing and host canonicalization for a static release archive
//! served over HTTP: a host guard that pins one canonical hostname, a router
//! that maps `/releases/...` paths onto a directory tree and sends every
//! other path to a fixed profile URL, and the status, header and chunking
//! rules of the responses. The network transport and the filesystem reads
//! live outside this crate and hand it plain values.
//!
//! Conditional and range requests are not supported: every file served is a
//! full-body 200 answer.

pub mod bytes;
pub mod chunk;
pub mod config;
pub mod laws;
pub mod mime;
pub mod request;
pub mod respond;
pub mod route;
