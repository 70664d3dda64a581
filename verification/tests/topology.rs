use gossip::actor::Action;
use gossip::actor::ActorEvent;
use gossip::actor::GossipActor;
use gossip::actor::GossipCmd;
use gossip::actor::OverlayEvent;
use gossip::config::start_plan;
use gossip::config::GossipSwarm;
use gossip::config::NodeAddress;
use gossip::errors::ConfigError;

fn addr(last_octet: u8, port: u16) -> NodeAddress {
    NodeAddress {
        ip0: 10,
        ip1: 0,
        ip2: 0,
        ip3: last_octet,
        port,
    }
}

fn three_node_swarm() -> GossipSwarm {
    GossipSwarm::new(vec![
        ("A".to_string(), addr(1, 9001), vec![]),
        ("B".to_string(), addr(2, 9002), vec!["A".to_string()]),
        (
            "C".to_string(),
            addr(3, 9003),
            vec!["A".to_string(), "B".to_string()],
        ),
    ])
}

#[test]
fn start_plan_listens_on_wildcard() {
    let swarm = three_node_swarm();
    let plan = start_plan(&"B".to_string(), &swarm).unwrap();
    assert_eq!(
        plan.listen,
        NodeAddress {
            ip0: 0,
            ip1: 0,
            ip2: 0,
            ip3: 0,
            port: 9002
        }
    );
    assert_eq!(plan.dials, vec![addr(1, 9001)]);
}

#[test]
fn start_plan_dials_peers_in_order() {
    let swarm = three_node_swarm();
    let plan = start_plan(&"C".to_string(), &swarm).unwrap();
    assert_eq!(plan.dials, vec![addr(1, 9001), addr(2, 9002)]);
    let plan_a = start_plan(&"A".to_string(), &swarm).unwrap();
    assert!(plan_a.dials.is_empty());
}

#[test]
fn start_plan_fails_when_own_name_is_absent() {
    let swarm = three_node_swarm();
    let result = start_plan(&"D".to_string(), &swarm);
    match result {
        Err(ConfigError::NameNotFound(n)) => assert_eq!(n, "D"),
        other => panic!("expected a configuration error, got {:?}", other.is_ok()),
    }
}

#[test]
fn start_plan_fails_on_unknown_peer() {
    let swarm = GossipSwarm::new(vec![(
        "A".to_string(),
        addr(1, 9001),
        vec!["ghost".to_string()],
    )]);
    match start_plan(&"A".to_string(), &swarm) {
        Err(ConfigError::UnknownPeer(p)) => assert_eq!(p, "ghost"),
        other => panic!("expected a configuration error, got {:?}", other.is_ok()),
    }
}

#[test]
fn later_row_shadows_earlier_row() {
    let swarm = GossipSwarm::new(vec![
        ("A".to_string(), addr(1, 9001), vec![]),
        ("A".to_string(), addr(7, 9007), vec![]),
    ]);
    let plan = start_plan(&"A".to_string(), &swarm).unwrap();
    assert_eq!(plan.listen.port, 9007);
}

#[test]
fn lookup_finds_each_node() {
    let swarm = three_node_swarm();
    let b = swarm.get(&"B".to_string()).unwrap();
    assert_eq!(b.name, "B");
    assert_eq!(b.address, addr(2, 9002));
    assert_eq!(b.connect_to, vec!["A".to_string()]);
    assert!(swarm.get(&"nobody".to_string()).is_none());
}

fn deliveries(actions: &[Action]) -> Vec<(u64, Vec<u8>)> {
    let mut out = Vec::new();
    for a in actions {
        if let Action::Deliver(q, p) = a {
            out.push((*q, p.clone()));
        }
    }
    out
}

#[test]
fn three_nodes_all_observe_a_publish() {
    // Three nodes subscribe the same topic; A publishes; the overlay
    // forwards A's publish to B and C as inbound events.  All three
    // observe the payload at their receive-end exactly once.
    let swarm = three_node_swarm();
    for name in ["A", "B", "C"] {
        assert!(start_plan(&name.to_string(), &swarm).is_ok());
    }

    let mut nodes: Vec<GossipActor> = (0..3).map(|_| GossipActor::new()).collect();
    for actor in nodes.iter_mut() {
        actor.step(ActorEvent::Command(GossipCmd::Subscribe("t".to_string(), 1)));
    }

    let publish_actions = nodes[0].step(ActorEvent::Command(GossipCmd::Publish(
        "t".to_string(),
        b"hello".to_vec(),
    )));

    // A's own receive-end sees the payload once, via loopback.
    assert_eq!(deliveries(&publish_actions), vec![(1, b"hello".to_vec())]);

    // The overlay propagates the published payload to the other nodes.
    let (topic, payload) = publish_actions
        .iter()
        .find_map(|a| match a {
            Action::OverlayPublish(t, p) => Some((t.clone(), p.clone())),
            _ => None,
        })
        .expect("the publish must reach the overlay");
    for actor in nodes.iter_mut().skip(1) {
        let actions = actor.step(ActorEvent::Overlay(OverlayEvent::Inbound(
            topic.clone(),
            payload.clone(),
        )));
        assert_eq!(deliveries(&actions), vec![(1, b"hello".to_vec())]);
    }
}
