//! Core of a bidirectional audio-transcription relay.
//!
//! The library holds the relay's verified logic: the bounded FIFO ingress
//! queue that buffers audio chunks for the outbound forwarder, extraction of
//! transcript events from the remote service's JSON text frames, the session
//! lifecycle state machine that couples the forwarder with the inbound
//! listener, and the composition of the endpoint URL and authorization
//! header. The surrounding binary performs the WebSocket and environment I/O
//! and feeds what it sees back into the library as plain values.

pub mod config;
pub mod json;
pub mod queue;
pub mod session;
pub mod transcript;
