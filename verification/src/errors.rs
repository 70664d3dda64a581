//! Error taxonomy: fatal startup configuration errors versus overlay
//! transport errors observed during steady-state operation.

use vstd::prelude::*;

verus! {

/// Errors surfaced by the overlay layer.  Transport and subscription
/// failures originate outside the library and are mapped onto these
/// variants at the boundary.
#[derive(Debug, Clone, PartialEq, Eq, Structural)]
pub enum GossipError {
    /// An I/O failure while bringing up or driving the transport.
    IOError,
    /// The transport refused to listen or dial.
    TransportError,
    /// The overlay refused a topic subscription.
    SubscriptionError,
}

/// Fatal startup errors: the topology document does not describe the
/// requesting node, or names a peer it does not define.  Startup must not
/// proceed past one of these.
#[derive(Debug, Clone, PartialEq, Eq)]
pub enum ConfigError {
    /// The requesting node's own name is absent from the topology.
    NameNotFound(String),
    /// A `connect_to` entry names a node the topology does not define.
    UnknownPeer(String),
}

} // verus!
