//! The gossip actor: the single coordination point of a node.
//!
//! The actor owns the subscription registry and is its only reader and
//! writer.  Its behaviour is a sequential decision function: given the
//! current registry and one event — a local command, the closing of the
//! command stream, or an overlay event — it updates the registry and emits
//! the actions the surrounding loop must perform.  The loop that waits on
//! the two event sources, performs overlay calls and moves payloads into
//! queues lives outside the library; every decision it takes comes from
//! [`GossipActor::step`].

use vstd::prelude::*;

use crate::registry::Registry;
use crate::registry::SubscriberId;

verus! {

/// A local command issued to the actor: register a delivery queue for a
/// topic, or publish a payload under a topic.
#[derive(Debug, Clone)]
pub enum GossipCmd {
    /// Register the given subscriber as the topic's local delivery queue.
    Subscribe(String, SubscriberId),
    /// Publish the payload under the topic, and loop it back locally.
    Publish(String, Vec<u8>),
}

/// An event arriving from the overlay network's stream.
pub enum OverlayEvent {
    /// A transport liveness probe; carries no message.
    Liveness,
    /// A message delivered by the overlay for a topic.
    Inbound(String, Vec<u8>),
}

/// One occurrence the actor's control loop can observe.
pub enum ActorEvent {
    /// A command taken from the local command queue.
    Command(GossipCmd),
    /// The command queue closed: no further commands can ever arrive.
    CommandStreamClosed,
    /// An event taken from the overlay's stream.
    Overlay(OverlayEvent),
}

/// An action the surrounding loop must perform after a step.
#[derive(Debug)]
pub enum Action {
    /// Ask the overlay to subscribe the topic, so inbound messages for it
    /// start arriving.
    OverlaySubscribe(String),
    /// Ask the overlay to publish the payload under the topic.  A failure
    /// of the overlay call is logged and does not affect the remaining
    /// actions of the same step.
    OverlayPublish(String, Vec<u8>),
    /// Hand the payload to the delivery queue of the given subscriber.
    Deliver(SubscriberId, Vec<u8>),
    /// An unrecoverable condition: a documented invariant was violated or
    /// the command stream closed.  The loop must stop loudly.
    Halt,
}

/// The mathematical value of an [`Action`].
pub enum ActionModel {
    OverlaySubscribe(Seq<char>),
    OverlayPublish(Seq<char>, Seq<u8>),
    Deliver(SubscriberId, Seq<u8>),
    Halt,
}

impl View for Action {
    type V = ActionModel;

    open spec fn view(&self) -> ActionModel {
        match self {
            Action::OverlaySubscribe(t) => ActionModel::OverlaySubscribe(t@),
            Action::OverlayPublish(t, p) => ActionModel::OverlayPublish(t@, p@),
            Action::Deliver(q, p) => ActionModel::Deliver(*q, p@),
            Action::Halt => ActionModel::Halt,
        }
    }
}

/// The values of a sequence of actions.
pub open spec fn action_views(s: Seq<Action>) -> Seq<ActionModel> {
    Seq::new(s.len(), |i: int| s[i]@)
}

/// The registry after the actor processes `event`: a subscription rebinds
/// the topic — last subscriber wins — and nothing else changes it.
pub open spec fn spec_step_registry(
    reg: Map<Seq<char>, SubscriberId>,
    event: ActorEvent,
) -> Map<Seq<char>, SubscriberId> {
    match event {
        ActorEvent::Command(GossipCmd::Subscribe(t, s)) => reg.insert(t@, s),
        _ => reg,
    }
}

/// The actions the actor emits for `event` under registry `reg`:
/// - a subscription is followed by an overlay subscribe for the topic;
/// - a publish is forwarded to the overlay and then looped back to the
///   topic's registered subscriber, unconditionally, so the sender observes
///   its own message exactly once whatever the overlay call returns;
/// - an inbound overlay message is delivered to the topic's registered
///   subscriber;
/// - a publish or inbound message for an unregistered topic, and a closed
///   command stream, halt the node;
/// - a liveness probe does nothing.
pub open spec fn spec_step_actions(
    reg: Map<Seq<char>, SubscriberId>,
    event: ActorEvent,
) -> Seq<ActionModel> {
    match event {
        ActorEvent::Command(GossipCmd::Subscribe(t, s)) => seq![
            ActionModel::OverlaySubscribe(t@),
        ],
        ActorEvent::Command(GossipCmd::Publish(t, p)) => {
            if reg.contains_key(t@) {
                seq![
                    ActionModel::OverlayPublish(t@, p@),
                    ActionModel::Deliver(reg[t@], p@),
                ]
            } else {
                seq![ActionModel::Halt]
            }
        },
        ActorEvent::CommandStreamClosed => seq![ActionModel::Halt],
        ActorEvent::Overlay(OverlayEvent::Liveness) => Seq::empty(),
        ActorEvent::Overlay(OverlayEvent::Inbound(t, p)) => {
            if reg.contains_key(t@) {
                seq![ActionModel::Deliver(reg[t@], p@)]
            } else {
                seq![ActionModel::Halt]
            }
        },
    }
}

/// The gossip actor: the subscription registry together with the decision
/// function that is the only code ever to touch it.
pub struct GossipActor {
    registry: Registry,
}

impl GossipActor {
    /// The registry's keys are pairwise distinct.
    pub closed spec fn wf(&self) -> bool {
        self.registry.wf()
    }

    /// The mapping from topic name to registered subscriber.
    pub closed spec fn view(&self) -> Map<Seq<char>, SubscriberId> {
        self.registry@
    }

    /// A fresh actor with an empty registry.
    pub fn new() -> (a: GossipActor)
        ensures
            a.wf(),
            a@ == Map::<Seq<char>, SubscriberId>::empty(),
    {
        GossipActor { registry: Registry::new() }
    }

    /// Process one event: update the registry and return the actions the
    /// surrounding loop must perform, in order.
    pub fn step(&mut self, event: ActorEvent) -> (actions: Vec<Action>)
        requires
            old(self).wf(),
        ensures
            final(self).wf(),
            final(self)@ == spec_step_registry(old(self)@, event),
            action_views(actions@) == spec_step_actions(old(self)@, event),
    {
        let ghost ev = event;
        let ghost reg0 = self@;
        let mut actions: Vec<Action> = Vec::new();
        match event {
            ActorEvent::Command(GossipCmd::Subscribe(topic, subscriber)) => {
                let overlay_topic = topic.clone();
                self.registry.insert(topic, subscriber);
                actions.push(Action::OverlaySubscribe(overlay_topic));
            },
            ActorEvent::Command(GossipCmd::Publish(topic, payload)) => {
                match self.registry.lookup(&topic) {
                    Some(subscriber) => {
                        let loopback = payload.clone();
                        proof {
                            assert(loopback@ =~= payload@);
                        }
                        actions.push(Action::OverlayPublish(topic, payload));
                        actions.push(Action::Deliver(subscriber, loopback));
                    },
                    None => {
                        actions.push(Action::Halt);
                    },
                }
            },
            ActorEvent::CommandStreamClosed => {
                actions.push(Action::Halt);
            },
            ActorEvent::Overlay(OverlayEvent::Liveness) => {},
            ActorEvent::Overlay(OverlayEvent::Inbound(topic, payload)) => {
                match self.registry.lookup(&topic) {
                    Some(subscriber) => {
                        actions.push(Action::Deliver(subscriber, payload));
                    },
                    None => {
                        actions.push(Action::Halt);
                    },
                }
            },
        }
        proof {
            assert(action_views(actions@) =~= spec_step_actions(reg0, ev));
        }
        actions
    }
}

} // verus!
