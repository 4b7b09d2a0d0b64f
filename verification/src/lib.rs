//! Streams the body of an HTTP response to a file on disk, chunk by chunk,
//! with an optional SHA-256 digest of the bytes and an optional report of
//! progress.
//!
//! The library decides and never performs. A session ([`AsyncDownload`])
//! is a state machine: it hands out an [`protocol::Action`] (send the
//! request, probe the destination, create the file, read a chunk, write a
//! chunk), the driver performs it and reports the [`protocol::Event`] that
//! answers it. What holds of every such exchange is proved in [`laws`].

pub mod download;
pub mod error;
pub mod hash;
pub mod laws;
pub mod path;
pub mod protocol;
pub mod response;

pub use crate::download::AsyncDownload;
