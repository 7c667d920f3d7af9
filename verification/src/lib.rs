//! Verified core of a transparent relay for a line-delimited JSON-RPC mining
//! protocol. The relay forwards every byte unmodified in both directions and,
//! purely for observability, reassembles the byte stream into frames and
//! classifies each frame into a typed protocol message. Any decoding failure
//! degrades observability only; it never alters forwarding.
//!
//! The transport itself (sockets, the accept loop, the console sink) lives
//! outside this crate; the library holds the framing layer, the message
//! model and classifier, and the session decision logic, each with a
//! machine-checked contract.

pub mod envelope;
pub mod frames;
pub mod hexbytes;
pub mod json;
pub mod message;
pub mod session;
