//! The forwarding core of a TCP relay that can carry an AES-256-GCM protected
//! tunnel between two of its instances: the per-direction choice of wire
//! dialect and cipher operation, the length-prefixed framing, and the
//! authenticated encryption of each chunk.
//!
//! Everything here works on plain byte values; sockets and scheduling belong
//! to the program around it.

pub mod proxy;
