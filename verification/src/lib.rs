//! Verified framing core of a PostgreSQL wire-protocol proxy.
//!
//! The crate turns a raw, incrementally-growing byte buffer into discrete,
//! typed protocol messages (`pg_parse`), drives that decoder from a stream of
//! read events (`stream`), and decides what the proxy does with each decoded
//! message (`pipe`). All socket I/O lives outside the library; the library
//! works on plain byte buffers and values.

pub mod errors;
pub mod pg_parse;
pub mod pipe;
pub mod stream;
