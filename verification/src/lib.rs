//! Transport-layer session logic for a distributed consensus cluster.
//!
//! The crate models the per-connection session of a consensus node's
//! network listener: heartbeat-based liveness, peer identity registration,
//! and the routing of consensus RPC envelopes to a late-bound consensus
//! engine. All decisions are verified; the surrounding I/O (socket accept,
//! frame codec, timers, the engine's mailbox) is left to the embedding
//! application, which drives these functions with plain values.

pub mod frames;
pub mod listener;
pub mod session;
