//! Deterministic core of an HTTP/3-over-QUIC implementation: wire codecs for
//! QUIC variable-length integers, HTTP/3 frame headers and SETTINGS payloads,
//! and a pure event-driven protocol engine that turns transport events into
//! transport commands without performing any I/O itself.

pub mod consts;
pub mod engine;
pub mod h3_engine;
pub mod h3_frame;
pub mod mock;
pub mod quic;
pub mod settings;
pub mod varint;
