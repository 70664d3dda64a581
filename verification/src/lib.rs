//! Topic-addressed publish/subscribe core for a fixed overlay of named nodes.
//!
//! The crate holds the coordination logic of a gossip node: deriving a
//! deterministic content identifier for payload bytes, validating a static
//! topology and deriving listen/dial plans from it, and the sequential
//! decision loop of the gossip actor that owns the per-topic subscription
//! registry.  Network transport, timers and queues live outside the library;
//! the actor's decisions are pure functions from state and event to new state
//! and a list of actions, and the laws of those decisions — loopback exactly
//! once, last subscriber wins, per-topic order, the unknown-topic invariant —
//! are proved in [`laws`].

use vstd::prelude::*;

pub mod actor;
pub mod config;
pub mod errors;
pub mod identity;
pub mod laws;
pub mod registry;
pub mod seed;
pub mod session;

pub use crate::actor::GossipActor;
pub use crate::actor::GossipCmd;
pub use crate::config::GossipNode;
pub use crate::config::GossipSwarm;
pub use crate::errors::ConfigError;
pub use crate::errors::GossipError;
pub use crate::identity::sha512_hash;

verus! {

/// A result carrying the library's overlay error.
pub type GossipResult<T> = Result<T, GossipError>;

} // verus!
