//! Verified core of a UDP NAT-traversal rendezvous protocol.
//!
//! The crate holds the wire-format codec for the protocol's messages, the
//! holepuncher's session registry, and the decision logic of the three role
//! engines (holepuncher, passive server, passive client).  All I/O — the
//! actual UDP socket — lives outside; the functions here compute, from plain
//! values, what a role engine must send, store, or return next.

pub mod bytes;
pub mod client;
pub mod holepuncher;
pub mod messages;
pub mod protocol_errors;
pub mod server;
pub mod session_store;
pub mod steady;
