//! Delivery laws of the actor's decision function.
//!
//! Each law is stated over [`spec_step_registry`] and [`spec_step_actions`],
//! the very functions that [`GossipActor::step`] is proved to implement, so
//! what holds here holds of every run of the actor.

use vstd::prelude::*;

use crate::actor::ActionModel;
use crate::actor::ActorEvent;
use crate::actor::GossipCmd;
use crate::actor::OverlayEvent;
use crate::actor::spec_step_actions;
use crate::actor::spec_step_registry;
use crate::registry::SubscriberId;

verus! {

/// The local deliveries among a sequence of actions, in order: which
/// subscriber receives which payload.
pub open spec fn deliveries(s: Seq<ActionModel>) -> Seq<(SubscriberId, Seq<u8>)>
    decreases s.len(),
{
    if s.len() == 0 {
        Seq::empty()
    } else {
        let rest = deliveries(s.drop_first());
        match s[0] {
            ActionModel::Deliver(q, p) => seq![(q, p)] + rest,
            _ => rest,
        }
    }
}

/// The actions of processing `events` in order, starting from registry
/// `reg`: each event's actions follow the previous events' actions.
pub open spec fn run_actions(
    reg: Map<Seq<char>, SubscriberId>,
    events: Seq<ActorEvent>,
) -> Seq<ActionModel>
    decreases events.len(),
{
    if events.len() == 0 {
        Seq::empty()
    } else {
        spec_step_actions(reg, events[0]) + run_actions(
            spec_step_registry(reg, events[0]),
            events.drop_first(),
        )
    }
}

/// The deliveries of a one-element delivery sequence.
proof fn lemma_deliveries_deliver_one(q: SubscriberId, p: Seq<u8>)
    ensures
        deliveries(seq![ActionModel::Deliver(q, p)]) == seq![(q, p)],
{
    let s = seq![ActionModel::Deliver(q, p)];
    assert(s.drop_first() =~= Seq::<ActionModel>::empty());
    assert(deliveries(Seq::<ActionModel>::empty()) == Seq::<(SubscriberId, Seq<u8>)>::empty());
    assert(seq![(q, p)] + Seq::<(SubscriberId, Seq<u8>)>::empty() =~= seq![(q, p)]);
}

/// A halt delivers nothing.
proof fn lemma_deliveries_halt()
    ensures
        deliveries(seq![ActionModel::Halt]) == Seq::<(SubscriberId, Seq<u8>)>::empty(),
{
    let s = seq![ActionModel::Halt];
    assert(s.drop_first() =~= Seq::<ActionModel>::empty());
    assert(deliveries(Seq::<ActionModel>::empty()) == Seq::<(SubscriberId, Seq<u8>)>::empty());
}

/// An overlay publish followed by one loopback delivers exactly that one
/// payload.
proof fn lemma_deliveries_publish_pair(t: Seq<char>, q: SubscriberId, p: Seq<u8>)
    ensures
        deliveries(seq![ActionModel::OverlayPublish(t, p), ActionModel::Deliver(q, p)]) == seq![
            (q, p),
        ],
{
    let s = seq![ActionModel::OverlayPublish(t, p), ActionModel::Deliver(q, p)];
    assert(s.drop_first() =~= seq![ActionModel::Deliver(q, p)]);
    lemma_deliveries_deliver_one(q, p);
    assert(deliveries(s) == deliveries(seq![ActionModel::Deliver(q, p)]));
}

/// Deliveries distribute over concatenation of action sequences.
pub proof fn lemma_deliveries_add(a: Seq<ActionModel>, b: Seq<ActionModel>)
    ensures
        deliveries(a + b) == deliveries(a) + deliveries(b),
    decreases a.len(),
{
    if a.len() == 0 {
        assert(a + b =~= b);
        assert(deliveries(a) + deliveries(b) =~= deliveries(b));
    } else {
        assert((a + b).drop_first() =~= a.drop_first() + b);
        lemma_deliveries_add(a.drop_first(), b);
        match a[0] {
            ActionModel::Deliver(q, p) => {
                assert(seq![(q, p)] + (deliveries(a.drop_first()) + deliveries(b)) =~= (seq![
                    (q, p),
                ] + deliveries(a.drop_first())) + deliveries(b));
            },
            _ => {},
        }
    }
}

/// Loopback exactly once: a publish for a registered topic delivers the
/// payload to that topic's subscriber, and to nobody else, exactly once.
/// The overlay publish precedes the loopback among the actions, but the
/// loopback is emitted unconditionally, so it happens whether or not the
/// overlay call succeeds.
pub proof fn lemma_loopback_exactly_once(
    reg: Map<Seq<char>, SubscriberId>,
    topic: String,
    payload: Vec<u8>,
)
    requires
        reg.contains_key(topic@),
    ensures
        deliveries(
            spec_step_actions(reg, ActorEvent::Command(GossipCmd::Publish(topic, payload))),
        ) == seq![(reg[topic@], payload@)],
{
    let acts = spec_step_actions(reg, ActorEvent::Command(GossipCmd::Publish(topic, payload)));
    lemma_deliveries_publish_pair(topic@, reg[topic@], payload@);
    assert(acts == seq![
        ActionModel::OverlayPublish(topic@, payload@),
        ActionModel::Deliver(reg[topic@], payload@),
    ]);
}

/// Last subscriber wins: after two subscriptions for the same topic, a
/// publish delivers only to the second subscriber, never to the first.
pub proof fn lemma_last_subscriber_wins(
    reg: Map<Seq<char>, SubscriberId>,
    topic: String,
    first: SubscriberId,
    second: SubscriberId,
    payload: Vec<u8>,
)
    requires
        first != second,
    ensures
        ({
            let reg1 = spec_step_registry(
                reg,
                ActorEvent::Command(GossipCmd::Subscribe(topic, first)),
            );
            let reg2 = spec_step_registry(
                reg1,
                ActorEvent::Command(GossipCmd::Subscribe(topic, second)),
            );
            let del = deliveries(
                spec_step_actions(reg2, ActorEvent::Command(GossipCmd::Publish(topic, payload))),
            );
            del == seq![(second, payload@)] && forall|i: int|
                0 <= i < del.len() ==> (#[trigger] del[i]).0 != first
        }),
{
    let reg1 = spec_step_registry(reg, ActorEvent::Command(GossipCmd::Subscribe(topic, first)));
    let reg2 = spec_step_registry(reg1, ActorEvent::Command(GossipCmd::Subscribe(topic, second)));
    let acts = spec_step_actions(reg2, ActorEvent::Command(GossipCmd::Publish(topic, payload)));
    assert(reg2[topic@] == second);
    lemma_deliveries_publish_pair(topic@, second, payload@);
    assert(acts == seq![
        ActionModel::OverlayPublish(topic@, payload@),
        ActionModel::Deliver(second, payload@),
    ]);
}

/// Per-topic first-in first-out: two publishes for the same registered
/// topic deliver the two payloads to its subscriber in publish order.
pub proof fn lemma_per_topic_fifo(
    reg: Map<Seq<char>, SubscriberId>,
    topic: String,
    m1: Vec<u8>,
    m2: Vec<u8>,
)
    requires
        reg.contains_key(topic@),
    ensures
        ({
            let events = seq![
                ActorEvent::Command(GossipCmd::Publish(topic, m1)),
                ActorEvent::Command(GossipCmd::Publish(topic, m2)),
            ];
            deliveries(run_actions(reg, events)) == seq![
                (reg[topic@], m1@),
                (reg[topic@], m2@),
            ]
        }),
{
    let e1 = ActorEvent::Command(GossipCmd::Publish(topic, m1));
    let e2 = ActorEvent::Command(GossipCmd::Publish(topic, m2));
    let events = seq![e1, e2];
    assert(events.drop_first() =~= seq![e2]);
    assert(seq![e2].drop_first() =~= Seq::<ActorEvent>::empty());
    let a1 = spec_step_actions(reg, e1);
    let reg1 = spec_step_registry(reg, e1);
    let a2 = spec_step_actions(reg1, e2);
    assert(reg1 == reg);
    assert(run_actions(spec_step_registry(reg1, e2), Seq::<ActorEvent>::empty()) == Seq::<
        ActionModel,
    >::empty());
    assert(run_actions(reg1, seq![e2]) == a2 + run_actions(
        spec_step_registry(reg1, e2),
        seq![e2].drop_first(),
    ));
    assert(a2 + Seq::<ActionModel>::empty() =~= a2);
    assert(run_actions(reg1, seq![e2]) == a2);
    assert(run_actions(reg, events) == a1 + run_actions(reg1, events.drop_first()));
    assert(run_actions(reg, events) == a1 + a2);
    lemma_deliveries_add(a1, a2);
    let q = reg[topic@];
    lemma_deliveries_publish_pair(topic@, q, m1@);
    assert(a1 == seq![ActionModel::OverlayPublish(topic@, m1@), ActionModel::Deliver(q, m1@)]);
    lemma_deliveries_publish_pair(topic@, q, m2@);
    assert(a2 == seq![ActionModel::OverlayPublish(topic@, m2@), ActionModel::Deliver(q, m2@)]);
    assert(deliveries(a1) + deliveries(a2) =~= seq![(q, m1@), (q, m2@)]);
}

/// Unknown-topic invariant: a publish or an inbound message for a topic
/// with no registered subscriber halts the node loudly — the step's only
/// action is [`ActionModel::Halt`] — and nothing is delivered anywhere, so
/// the defect cannot pass as a silent drop.
pub proof fn lemma_unknown_topic_halts(
    reg: Map<Seq<char>, SubscriberId>,
    topic: String,
    payload: Vec<u8>,
)
    requires
        !reg.contains_key(topic@),
    ensures
        spec_step_actions(reg, ActorEvent::Overlay(OverlayEvent::Inbound(topic, payload)))
            == seq![ActionModel::Halt],
        spec_step_actions(reg, ActorEvent::Command(GossipCmd::Publish(topic, payload)))
            == seq![ActionModel::Halt],
        deliveries(
            spec_step_actions(reg, ActorEvent::Overlay(OverlayEvent::Inbound(topic, payload))),
        ) == Seq::<(SubscriberId, Seq<u8>)>::empty(),
        deliveries(
            spec_step_actions(reg, ActorEvent::Command(GossipCmd::Publish(topic, payload))),
        ) == Seq::<(SubscriberId, Seq<u8>)>::empty(),
{
    let a1 = spec_step_actions(reg, ActorEvent::Overlay(OverlayEvent::Inbound(topic, payload)));
    let a2 = spec_step_actions(reg, ActorEvent::Command(GossipCmd::Publish(topic, payload)));
    lemma_deliveries_halt();
    assert(a1 == seq![ActionModel::Halt]);
    assert(a2 == seq![ActionModel::Halt]);
}

/// The events a session's forwarder causes for the outbound items
/// `items`: one publish command per item, in queue order.
pub open spec fn forwarded_events(topic: String, items: Seq<Vec<u8>>) -> Seq<ActorEvent> {
    Seq::new(items.len(), |i: int| ActorEvent::Command(GossipCmd::Publish(topic, items[i])))
}

/// A session's outbound queue reaches its own subscriber in order: however
/// many items the forwarder drains, the actor delivers exactly those
/// payloads, in queue order, to the topic's registered subscriber.
pub proof fn lemma_forwarder_preserves_order(
    reg: Map<Seq<char>, SubscriberId>,
    topic: String,
    items: Seq<Vec<u8>>,
)
    requires
        reg.contains_key(topic@),
    ensures
        deliveries(run_actions(reg, forwarded_events(topic, items))) == Seq::new(
            items.len(),
            |i: int| (reg[topic@], items[i]@),
        ),
    decreases items.len(),
{
    let q = reg[topic@];
    let evs = forwarded_events(topic, items);
    let want = Seq::new(items.len(), |i: int| (q, items[i]@));
    if items.len() == 0 {
        assert(evs.len() == 0);
        assert(deliveries(Seq::<ActionModel>::empty()) == Seq::<(SubscriberId, Seq<u8>)>::empty());
        assert(want =~= Seq::<(SubscriberId, Seq<u8>)>::empty());
    } else {
        let e0 = ActorEvent::Command(GossipCmd::Publish(topic, items[0]));
        assert(evs[0] == e0);
        assert(spec_step_registry(reg, e0) == reg);
        assert(evs.drop_first() =~= forwarded_events(topic, items.drop_first()));
        lemma_forwarder_preserves_order(reg, topic, items.drop_first());
        let a0 = spec_step_actions(reg, e0);
        let rest = run_actions(reg, forwarded_events(topic, items.drop_first()));
        assert(run_actions(reg, evs) == a0 + rest);
        lemma_deliveries_add(a0, rest);
        lemma_deliveries_publish_pair(topic@, q, items[0]@);
        assert(a0 == seq![
            ActionModel::OverlayPublish(topic@, items[0]@),
            ActionModel::Deliver(q, items[0]@),
        ]);
        assert(deliveries(run_actions(reg, evs)) =~= want);
    }
}

/// Subscriptions are never removed: every topic registered before a step
/// is still registered after it, whatever the event, and only a
/// subscription for the topic itself can change who is registered.
pub proof fn lemma_registry_only_grows(
    reg: Map<Seq<char>, SubscriberId>,
    event: ActorEvent,
    topic: Seq<char>,
)
    requires
        reg.contains_key(topic),
    ensures
        spec_step_registry(reg, event).contains_key(topic),
        !(event matches ActorEvent::Command(GossipCmd::Subscribe(t, _)) && t@ == topic)
            ==> spec_step_registry(reg, event)[topic] == reg[topic],
{
}

/// A liveness probe never touches the registry and causes no action.
pub proof fn lemma_liveness_is_inert(reg: Map<Seq<char>, SubscriberId>)
    ensures
        spec_step_registry(reg, ActorEvent::Overlay(OverlayEvent::Liveness)) == reg,
        spec_step_actions(reg, ActorEvent::Overlay(OverlayEvent::Liveness)) == Seq::<
            ActionModel,
        >::empty(),
{
}

} // verus!
