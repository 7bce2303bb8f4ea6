//! A typed client core for a request/response and event-streaming HTTP API.
//!
//! The heart of the crate is the streaming response decoder: it turns an
//! unbounded sequence of network byte chunks into a strictly ordered sequence
//! of typed domain events, detects the end-of-stream sentinel, and converts
//! malformed or out-of-schema payloads into structured errors that never lose
//! the decode position.
//!
//! - [`sse`] splits the byte stream into blank-line-delimited frames and
//!   reassembles each frame's `data: ` payload; every step has an exact
//!   byte-level specification, so decoding provably depends only on the
//!   concatenation of the chunks, never on chunk boundaries.
//! - [`decode`] turns one payload into a typed event from the closed set of
//!   event kinds, keyed by the `type` discriminator, recording the exact
//!   field path of any failure.
//! - [`stream`] is the pull-based event sequencer that drives the two.
//! - [`client`] classifies non-2xx responses into the structured API error
//!   or the unexpected-response fallback, and holds the error taxonomy.
//! - [`models`] is the schema catalog of domain record shapes.
//! - [`json`] and the transport are the trusted, unverified boundary; the
//!   transport itself lives outside this crate.

#![verifier::loop_isolation(false)]

pub mod client;
pub mod decode;
pub mod json;
pub mod models;
pub mod path;
pub mod sse;
pub mod stream;
