//! Topic session support: the decisions of the per-session forwarder.
//!
//! A topic session hands its caller a private inbound and outbound queue
//! for one topic.  A forwarder drains the outbound queue and turns every
//! item into a publish command for the gossip actor; registering the
//! session is itself a command.  The queues and the task that runs the
//! forwarder live outside the library; the commands they emit are built
//! here.

use vstd::prelude::*;

use crate::actor::GossipCmd;
use crate::registry::SubscriberId;

verus! {

/// The command that registers a session's inbound queue for `topic`.
pub fn subscribe_command(topic: String, subscriber: SubscriberId) -> (cmd: GossipCmd)
    ensures
        cmd == GossipCmd::Subscribe(topic, subscriber),
{
    GossipCmd::Subscribe(topic, subscriber)
}

/// The command the forwarder emits for one outbound item: publish the
/// item under the session's topic.
pub fn forward(topic: &String, payload: Vec<u8>) -> (cmd: GossipCmd)
    ensures
        cmd matches GossipCmd::Publish(t, p) && t@ == topic@ && p@ == payload@,
{
    GossipCmd::Publish(topic.clone(), payload)
}

} // verus!
