use gossip::actor::Action;
use gossip::actor::ActorEvent;
use gossip::actor::GossipActor;
use gossip::actor::GossipCmd;
use gossip::actor::OverlayEvent;
use gossip::session::forward;
use gossip::session::subscribe_command;

fn deliveries(actions: &[Action]) -> Vec<(u64, Vec<u8>)> {
    let mut out = Vec::new();
    for a in actions {
        if let Action::Deliver(q, p) = a {
            out.push((*q, p.clone()));
        }
    }
    out
}

fn halts(actions: &[Action]) -> usize {
    actions
        .iter()
        .filter(|a| matches!(a, Action::Halt))
        .count()
}

#[test]
fn subscribe_registers_and_subscribes_overlay() {
    let mut actor = GossipActor::new();
    let actions = actor.step(ActorEvent::Command(GossipCmd::Subscribe("t".to_string(), 1)));
    assert_eq!(actions.len(), 1);
    assert!(matches!(&actions[0], Action::OverlaySubscribe(t) if t == "t"));
}

#[test]
fn loopback_exactly_once() {
    let mut actor = GossipActor::new();
    actor.step(ActorEvent::Command(GossipCmd::Subscribe("t".to_string(), 1)));
    let actions = actor.step(ActorEvent::Command(GossipCmd::Publish(
        "t".to_string(),
        b"payload".to_vec(),
    )));
    // The overlay publish comes first; the loopback delivery is emitted
    // unconditionally, so it happens even when the overlay call fails —
    // a failed publish merely means the performer ignores that action.
    assert_eq!(actions.len(), 2);
    assert!(matches!(&actions[0], Action::OverlayPublish(t, p) if t == "t" && p == b"payload"));
    assert_eq!(deliveries(&actions), vec![(1, b"payload".to_vec())]);
}

#[test]
fn loopback_occurs_without_overlay_publish_success() {
    // Simulate a forced overlay publish failure: the performer drops the
    // OverlayPublish action on the floor.  The delivery action is already
    // in the step's output, so the local subscriber still sees the
    // payload exactly once.
    let mut actor = GossipActor::new();
    actor.step(ActorEvent::Command(GossipCmd::Subscribe("t".to_string(), 9)));
    let actions = actor.step(ActorEvent::Command(GossipCmd::Publish(
        "t".to_string(),
        b"m".to_vec(),
    )));
    let mut delivered = Vec::new();
    for a in actions {
        match a {
            Action::OverlayPublish(_, _) => { /* the network call failed */ }
            Action::Deliver(q, p) => delivered.push((q, p)),
            _ => panic!("unexpected action"),
        }
    }
    assert_eq!(delivered, vec![(9, b"m".to_vec())]);
}

#[test]
fn last_subscriber_wins() {
    let mut actor = GossipActor::new();
    actor.step(ActorEvent::Command(GossipCmd::Subscribe("t".to_string(), 1)));
    actor.step(ActorEvent::Command(GossipCmd::Subscribe("t".to_string(), 2)));
    let actions = actor.step(ActorEvent::Command(GossipCmd::Publish(
        "t".to_string(),
        b"m".to_vec(),
    )));
    let del = deliveries(&actions);
    assert_eq!(del, vec![(2, b"m".to_vec())]);
    assert!(del.iter().all(|(q, _)| *q != 1));
}

#[test]
fn per_topic_fifo() {
    let mut actor = GossipActor::new();
    actor.step(ActorEvent::Command(GossipCmd::Subscribe("t".to_string(), 1)));
    let mut all = Vec::new();
    all.extend(actor.step(ActorEvent::Command(GossipCmd::Publish(
        "t".to_string(),
        b"m1".to_vec(),
    ))));
    all.extend(actor.step(ActorEvent::Command(GossipCmd::Publish(
        "t".to_string(),
        b"m2".to_vec(),
    ))));
    assert_eq!(
        deliveries(&all),
        vec![(1, b"m1".to_vec()), (1, b"m2".to_vec())]
    );
}

#[test]
fn inbound_message_is_delivered() {
    let mut actor = GossipActor::new();
    actor.step(ActorEvent::Command(GossipCmd::Subscribe("t".to_string(), 4)));
    let actions = actor.step(ActorEvent::Overlay(OverlayEvent::Inbound(
        "t".to_string(),
        b"from afar".to_vec(),
    )));
    assert_eq!(deliveries(&actions), vec![(4, b"from afar".to_vec())]);
}

#[test]
fn unknown_topic_inbound_halts() {
    let mut actor = GossipActor::new();
    actor.step(ActorEvent::Command(GossipCmd::Subscribe("t".to_string(), 1)));
    let actions = actor.step(ActorEvent::Overlay(OverlayEvent::Inbound(
        "other".to_string(),
        b"m".to_vec(),
    )));
    // The defect path is loud: one halt action, no delivery anywhere.
    assert_eq!(halts(&actions), 1);
    assert_eq!(actions.len(), 1);
    assert!(deliveries(&actions).is_empty());
}

#[test]
fn unknown_topic_publish_halts() {
    let mut actor = GossipActor::new();
    let actions = actor.step(ActorEvent::Command(GossipCmd::Publish(
        "never-subscribed".to_string(),
        b"m".to_vec(),
    )));
    assert_eq!(halts(&actions), 1);
    assert_eq!(actions.len(), 1);
    assert!(deliveries(&actions).is_empty());
}

#[test]
fn command_stream_closed_halts() {
    let mut actor = GossipActor::new();
    let actions = actor.step(ActorEvent::CommandStreamClosed);
    assert_eq!(halts(&actions), 1);
    assert_eq!(actions.len(), 1);
}

#[test]
fn liveness_is_inert() {
    let mut actor = GossipActor::new();
    actor.step(ActorEvent::Command(GossipCmd::Subscribe("t".to_string(), 1)));
    let actions = actor.step(ActorEvent::Overlay(OverlayEvent::Liveness));
    assert!(actions.is_empty());
    // The registry is untouched: a publish still reaches the subscriber.
    let after = actor.step(ActorEvent::Command(GossipCmd::Publish(
        "t".to_string(),
        b"m".to_vec(),
    )));
    assert_eq!(deliveries(&after), vec![(1, b"m".to_vec())]);
}

#[test]
fn forwarder_builds_publish_commands() {
    let topic = "t".to_string();
    let cmd = forward(&topic, b"item".to_vec());
    assert!(matches!(cmd, GossipCmd::Publish(t, p) if t == "t" && p == b"item"));
    let sub = subscribe_command("t".to_string(), 3);
    assert!(matches!(sub, GossipCmd::Subscribe(t, 3) if t == "t"));
}

#[test]
fn forwarded_items_are_delivered_in_queue_order() {
    let mut actor = GossipActor::new();
    actor.step(ActorEvent::Command(subscribe_command("t".to_string(), 1)));
    let topic = "t".to_string();
    let items: Vec<Vec<u8>> = vec![b"a".to_vec(), b"b".to_vec(), b"c".to_vec()];
    let mut all = Vec::new();
    for item in &items {
        let cmd = forward(&topic, item.clone());
        all.extend(actor.step(ActorEvent::Command(cmd)));
    }
    assert_eq!(
        deliveries(&all),
        items.iter().map(|m| (1u64, m.clone())).collect::<Vec<_>>()
    );
}
