//! Static topology configuration: the named nodes of the overlay, each
//! with a listen address and the peers it dials at startup.
//!
//! The topology is pure data, loaded once before any network activity.
//! From it the startup path derives a listen plan — the configured address
//! with the host part rewritten to the wildcard, so the process binds all
//! interfaces while advertising the configured port — and the ordered list
//! of peer addresses to dial.

use vstd::prelude::*;

use crate::errors::ConfigError;

verus! {

/// An IPv4 listen or dial address: four octets and a TCP port.
#[derive(Clone, Copy, Debug, PartialEq, Eq, Structural)]
pub struct NodeAddress {
    pub ip0: u8,
    pub ip1: u8,
    pub ip2: u8,
    pub ip3: u8,
    pub port: u16,
}

/// One node of the topology: its unique name, its address, and the names
/// of the peers it dials at startup, in order.
#[derive(Clone, Debug)]
pub struct GossipNode {
    pub name: String,
    pub address: NodeAddress,
    pub connect_to: Vec<String>,
}

/// The mathematical value of a [`GossipNode`].
pub struct NodeModel {
    pub name: Seq<char>,
    pub address: NodeAddress,
    pub connect_to: Seq<Seq<char>>,
}

/// The values of a sequence of names.
pub open spec fn names_view(v: Seq<String>) -> Seq<Seq<char>> {
    Seq::new(v.len(), |i: int| v[i]@)
}

impl View for GossipNode {
    type V = NodeModel;

    open spec fn view(&self) -> NodeModel {
        NodeModel {
            name: self.name@,
            address: self.address,
            connect_to: names_view(self.connect_to@),
        }
    }
}

/// A row of the plain description a topology is built from: name, address,
/// peers to dial.
pub type NodeInfo = (String, NodeAddress, Vec<String>);

/// The node a search from the end of `s` finds for name `k`.  A later row
/// for the same name shadows an earlier one, as collecting rows into a map
/// would have it.
pub open spec fn find_info(s: Seq<NodeInfo>, k: Seq<char>) -> Option<NodeModel>
    decreases s.len(),
{
    if s.len() == 0 {
        None
    } else if s.last().0@ == k {
        Some(
            NodeModel {
                name: s.last().0@,
                address: s.last().1,
                connect_to: names_view(s.last().2@),
            },
        )
    } else {
        find_info(s.drop_last(), k)
    }
}

/// The mapping a description denotes: each name that occurs is bound to
/// its latest row.
pub open spec fn info_map(s: Seq<NodeInfo>) -> Map<Seq<char>, NodeModel> {
    Map::new(|k: Seq<char>| find_info(s, k) is Some, |k: Seq<char>| find_info(s, k)->Some_0)
}

/// The node a search from the end of `nodes` finds for name `k`.
pub open spec fn find_node(nodes: Seq<GossipNode>, k: Seq<char>) -> Option<NodeModel>
    decreases nodes.len(),
{
    if nodes.len() == 0 {
        None
    } else if nodes.last().name@ == k {
        Some(nodes.last()@)
    } else {
        find_node(nodes.drop_last(), k)
    }
}

/// The static topology: every node of the overlay by name.
#[derive(Clone, Debug)]
pub struct GossipSwarm {
    pub nodes: Vec<GossipNode>,
}

impl View for GossipSwarm {
    type V = Map<Seq<char>, NodeModel>;

    open spec fn view(&self) -> Map<Seq<char>, NodeModel> {
        Map::new(
            |k: Seq<char>| find_node(self.nodes@, k) is Some,
            |k: Seq<char>| find_node(self.nodes@, k)->Some_0,
        )
    }
}

/// Appending a node binds its name and leaves every other name's search
/// result unchanged.
proof fn lemma_find_node_push(nodes: Seq<GossipNode>, n: GossipNode, k: Seq<char>)
    ensures
        find_node(nodes.push(n), k) == if n.name@ == k {
            Some(n@)
        } else {
            find_node(nodes, k)
        },
{
    assert(nodes.push(n).drop_last() =~= nodes);
    assert(nodes.push(n).last() == n);
}

/// Extending the considered prefix of a description by one row binds that
/// row's name and leaves every other name's search result unchanged.
proof fn lemma_find_info_take(s: Seq<NodeInfo>, i: int, k: Seq<char>)
    requires
        0 <= i < s.len(),
    ensures
        find_info(s.take(i + 1), k) == if s[i].0@ == k {
            Some(
                NodeModel { name: s[i].0@, address: s[i].1, connect_to: names_view(s[i].2@) },
            )
        } else {
            find_info(s.take(i), k)
        },
{
    assert(s.take(i + 1).drop_last() =~= s.take(i));
    assert(s.take(i + 1).last() == s[i]);
}

impl GossipSwarm {
    /// Build a topology from its plain description.  A later row for the
    /// same name shadows an earlier one.
    pub fn new(info: Vec<NodeInfo>) -> (r: GossipSwarm)
        ensures
            r@ == info_map(info@),
    {
        let ghost orig = info@;
        let mut rest = info;
        let mut nodes: Vec<GossipNode> = Vec::new();
        while rest.len() > 0
            invariant
                nodes@.len() + rest@.len() == orig.len(),
                rest@ =~= orig.skip(nodes@.len() as int),
                forall|k: Seq<char>| #![auto]
                    find_node(nodes@, k) == find_info(orig.take(nodes@.len() as int), k),
            decreases rest@.len(),
        {
            let ghost i: int = nodes@.len() as int;
            let (name, address, connect_to) = rest.remove(0);
            let node = GossipNode { name, address, connect_to };
            proof {
                assert(rest@ =~= orig.skip(i + 1));
                assert(orig[i] == (node.name, node.address, node.connect_to));
            }
            let ghost nodes0 = nodes@;
            nodes.push(node);
            proof {
                assert forall|k: Seq<char>| #![auto]
                    find_node(nodes@, k) == find_info(orig.take(i + 1), k) by {
                    lemma_find_node_push(nodes0, node, k);
                    lemma_find_info_take(orig, i, k);
                }
            }
        }
        let r = GossipSwarm { nodes };
        proof {
            assert(orig.take(orig.len() as int) =~= orig);
            assert(r@ =~= info_map(orig));
        }
        r
    }

    /// Look up a node by name.
    pub fn get(&self, name: &String) -> (r: Option<&GossipNode>)
        ensures
            match r {
                Some(n) => self@.contains_key(name@) && n@ == self@[name@],
                None => !self@.contains_key(name@),
            },
    {
        let ghost s = self.nodes@;
        let mut i: usize = self.nodes.len();
        proof {
            assert(s.take(s.len() as int) =~= s);
        }
        while i > 0
            invariant
                i <= s.len(),
                self.nodes@ == s,
                find_node(s, name@) == find_node(s.take(i as int), name@),
            decreases i,
        {
            i = i - 1;
            if self.nodes[i].name == *name {
                proof {
                    assert(s.take(i + 1).last() == s[i as int]);
                }
                return Some(&self.nodes[i]);
            }
            proof {
                assert(s.take(i + 1).drop_last() =~= s.take(i as int));
                assert(s.take(i + 1).last() == s[i as int]);
            }
        }
        proof {
            assert(s.take(0) =~= Seq::<GossipNode>::empty());
        }
        None
    }
}

/// The wildcard-rewritten form of an address: all interfaces, the
/// configured port.
pub open spec fn wildcard(addr: NodeAddress) -> NodeAddress {
    NodeAddress { ip0: 0, ip1: 0, ip2: 0, ip3: 0, port: addr.port }
}

/// What startup must do for one node: where to listen and whom to dial.
#[derive(Clone, Debug)]
pub struct StartPlan {
    /// The wildcard-rewritten listen address: every interface, the
    /// configured port.
    pub listen: NodeAddress,
    /// The addresses of the node's `connect_to` peers, in the configured
    /// order.  A dial failure at the transport is logged, never fatal.
    pub dials: Vec<NodeAddress>,
}

/// Derive the startup plan of node `name` from the topology.
///
/// Fails — and startup must then perform no listen or dial call — exactly
/// when the topology does not describe `name` itself, or names a
/// `connect_to` peer it does not define; the error carries the first
/// offending name.
pub fn start_plan(name: &String, swarm: &GossipSwarm) -> (r: Result<StartPlan, ConfigError>)
    ensures
        (r matches Err(ConfigError::NameNotFound(n)) && n@ == name@) <==> !swarm@.contains_key(
            name@,
        ),
        r is Ok <==> swarm@.contains_key(name@) && (forall|j: int|
            0 <= j < swarm@[name@].connect_to.len() ==> swarm@.contains_key(
                #[trigger] swarm@[name@].connect_to[j],
            )),
        r matches Ok(plan) ==> {
            &&& plan.listen == wildcard(swarm@[name@].address)
            &&& plan.dials@.len() == swarm@[name@].connect_to.len()
            &&& forall|j: int|
                0 <= j < plan.dials@.len() ==> #[trigger] plan.dials@[j]
                    == swarm@[swarm@[name@].connect_to[j]].address
        },
        r matches Err(ConfigError::UnknownPeer(p)) ==> swarm@.contains_key(name@) && (exists|j: int|
            0 <= j < swarm@[name@].connect_to.len() && #[trigger] swarm@[name@].connect_to[j] == p@
                && !swarm@.contains_key(p@)),
{
    let node = match swarm.get(name) {
        Some(n) => n,
        None => {
            return Err(ConfigError::NameNotFound(name.clone()));
        },
    };
    let listen = NodeAddress {
        ip0: 0,
        ip1: 0,
        ip2: 0,
        ip3: 0,
        port: node.address.port,
    };
    let mut dials: Vec<NodeAddress> = Vec::new();
    let mut i: usize = 0;
    while i < node.connect_to.len()
        invariant
            swarm@.contains_key(name@),
            node@ == swarm@[name@],
            i <= node.connect_to@.len(),
            dials@.len() == i,
            forall|j: int|
                0 <= j < i ==> swarm@.contains_key(#[trigger] swarm@[name@].connect_to[j]),
            forall|j: int|
                0 <= j < i ==> #[trigger] dials@[j] == swarm@[swarm@[name@].connect_to[j]].address,
        decreases node.connect_to@.len() - i,
    {
        let peer = &node.connect_to[i];
        match swarm.get(peer) {
            Some(peer_node) => {
                dials.push(peer_node.address);
            },
            None => {
                proof {
                    assert(swarm@[name@].connect_to[i as int] == peer@);
                }
                return Err(ConfigError::UnknownPeer(peer.clone()));
            },
        }
        i += 1;
    }
    Ok(StartPlan { listen, dials })
}

} // verus!
