//! REST boundary types: the wire-facing request and response shapes and
//! the mapping from domain errors to transport status signals. The
//! transport layer owns (de)serialization and hands these plain values in
//! and out.

pub mod error;
pub mod request;
pub mod response;
