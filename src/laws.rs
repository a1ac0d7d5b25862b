//! Properties of the update operations, stated over the abstract graph.
use vstd::prelude::*;
use crate::graph::GraphState;
use crate::model::{edge_of, refreshed, GraphEdge, MeshPacket, Neighbor, NeighborInfo, NodeInfo};
use crate::update::{neighbor_info_effect, node_info_effect, position_effect, reported_edges};

verus! {

/// The edges that a report's entries set, on their own.
pub open spec fn report_delta(known: Set<u32>, own: u32, ns: Seq<Neighbor>) -> Map<
    (u32, u32),
    GraphEdge,
> {
    reported_edges(Map::empty(), known, own, ns)
}

/// A report's entries override the edges they name and leave every other
/// edge as it was.
pub proof fn lemma_reported_edges_overlay(
    edges: Map<(u32, u32), GraphEdge>,
    known: Set<u32>,
    own: u32,
    ns: Seq<Neighbor>,
)
    ensures
        reported_edges(edges, known, own, ns) == edges.union_prefer_right(
            report_delta(known, own, ns),
        ),
    decreases ns.len(),
{
    if ns.len() > 0 {
        lemma_reported_edges_overlay(edges, known, own, ns.drop_last());
        assert(reported_edges(edges, known, own, ns) =~= edges.union_prefer_right(
            report_delta(known, own, ns),
        ));
    }
}

/// Entries whose peers are all unknown set no edge.
pub proof fn lemma_reported_edges_all_unknown(
    edges: Map<(u32, u32), GraphEdge>,
    known: Set<u32>,
    own: u32,
    ns: Seq<Neighbor>,
)
    requires
        forall|i: int| 0 <= i < ns.len() ==> !known.contains(#[trigger] ns[i].node_id),
    ensures
        reported_edges(edges, known, own, ns) == edges,
    decreases ns.len(),
{
    if ns.len() > 0 {
        let p = ns.drop_last();
        assert forall|i: int| 0 <= i < p.len() implies !known.contains(#[trigger] p[i].node_id) by {
            assert(p[i] == ns[i]);
        }
        lemma_reported_edges_all_unknown(edges, known, own, p);
    }
}

/// Delivering the same neighbor report twice in a row, at any two times,
/// leaves exactly the edges and the node identifiers that one delivery
/// leaves, and every node differs from its state after one delivery at most
/// in `last_heard`.
pub proof fn lemma_neighbor_info_idempotent(
    s: GraphState,
    packet: MeshPacket,
    info: NeighborInfo,
    t1: i64,
    t2: i64,
)
    requires
        s.wf(),
    ensures
        ({
            let once = neighbor_info_effect(s, packet, info, t1);
            let twice = neighbor_info_effect(once, packet, info, t2);
            &&& twice.edges == once.edges
            &&& twice.nodes.dom() == once.nodes.dom()
            &&& forall|id: u32|
                #[trigger] once.nodes.contains_key(id) ==> twice.nodes[id] == refreshed(
                    once.nodes[id],
                    twice.nodes[id].last_heard,
                )
        }),
{
    let once = neighbor_info_effect(s, packet, info, t1);
    let twice = neighbor_info_effect(once, packet, info, t2);
    let ns = info.neighbors@;
    if s.nodes.contains_key(packet.from) {
        assert(s.nodes[packet.from].node_num == packet.from);
    }
    assert(twice.nodes.dom() =~= once.nodes.dom());
    let own = once.nodes.dom();
    let o = twice.nodes.dom();
    lemma_reported_edges_overlay(s.edges, own, info.node_id, ns);
    lemma_reported_edges_overlay(s.edges, own, packet.from, ns);
    lemma_reported_edges_overlay(once.edges, o, info.node_id, ns);
    lemma_reported_edges_overlay(once.edges, o, packet.from, ns);
    assert(twice.edges =~= once.edges);
}

/// A neighbor report whose sender is new, under its own id or the report's,
/// and whose entries name only nodes the graph does not hold (the reporter
/// included), adds exactly one node, the reporter, and no edge.
pub proof fn lemma_unknown_neighbors_add_no_node(
    s: GraphState,
    packet: MeshPacket,
    info: NeighborInfo,
    now: i64,
)
    requires
        s.wf(),
        !s.nodes.contains_key(packet.from),
        !s.nodes.contains_key(info.node_id),
        forall|i: int|
            0 <= i < info.neighbors@.len() ==> !s.nodes.contains_key(
                #[trigger] info.neighbors@[i].node_id,
            ) && info.neighbors@[i].node_id != info.node_id,
    ensures
        ({
            let r = neighbor_info_effect(s, packet, info, now);
            &&& r.nodes.dom() == s.nodes.dom().insert(info.node_id)
            &&& r.nodes.dom().len() == s.nodes.dom().len() + 1
            &&& r.edges == s.edges
        }),
{
    let r = neighbor_info_effect(s, packet, info, now);
    assert(r.nodes.dom() =~= s.nodes.dom().insert(info.node_id));
    lemma_reported_edges_all_unknown(s.edges, r.nodes.dom(), info.node_id, info.neighbors@);
}

/// A node announcement without a position leaves the graph as it was.
pub proof fn lemma_node_info_needs_position(s: GraphState, info: NodeInfo, now: i64)
    requires
        info.position is None,
    ensures
        node_info_effect(s, info, now) == s,
{
}

/// Hearing from a known node, by a positioned announcement, a position report
/// or a neighbor report that it sends, keeps its identifier and timeout and
/// moves its `last_heard` forward to `now`, when `now` is later than it was.
pub proof fn lemma_refresh_keeps_identity(
    s: GraphState,
    packet: MeshPacket,
    neighbor_info: NeighborInfo,
    node_info: NodeInfo,
    now: i64,
)
    requires
        s.wf(),
        s.nodes.contains_key(packet.from),
        node_info.num == packet.from,
        node_info.position is Some,
        now > s.nodes[packet.from].last_heard,
    ensures
        ({
            let id = packet.from;
            let before = s.nodes[id];
            let a = node_info_effect(s, node_info, now).nodes[id];
            let b = position_effect(s, packet, now).nodes[id];
            let c = neighbor_info_effect(s, packet, neighbor_info, now).nodes[id];
            &&& a.node_num == id && a.timeout_duration == before.timeout_duration
            &&& a.last_heard == now && a.last_heard > before.last_heard
            &&& b.node_num == id && b.timeout_duration == before.timeout_duration
            &&& b.last_heard == now && b.last_heard > before.last_heard
            &&& c.node_num == id && c.timeout_duration == before.timeout_duration
            &&& c.last_heard == now && c.last_heard > before.last_heard
        }),
{
    assert(s.nodes[packet.from].node_num == packet.from);
}

/// A report from known node `a` whose one entry names known node `b` sets
/// exactly the edge from `a` to `b`, with that entry's link quality; a second
/// such report with other quality replaces that edge and adds none.
pub proof fn lemma_edge_between_known_nodes(
    s: GraphState,
    packet: MeshPacket,
    info: NeighborInfo,
    again: NeighborInfo,
    b: u32,
    t1: i64,
    t2: i64,
)
    requires
        s.wf(),
        s.nodes.contains_key(packet.from),
        s.nodes.contains_key(b),
        info.neighbors@.len() == 1,
        info.neighbors@[0].node_id == b,
        again.neighbors@.len() == 1,
        again.neighbors@[0].node_id == b,
    ensures
        ({
            let a = packet.from;
            let once = neighbor_info_effect(s, packet, info, t1);
            let twice = neighbor_info_effect(once, packet, again, t2);
            &&& once.edges == s.edges.insert((a, b), edge_of(a, info.neighbors@[0]))
            &&& twice.edges == once.edges.insert((a, b), edge_of(a, again.neighbors@[0]))
            &&& twice.edges.dom() == once.edges.dom()
        }),
{
    let a = packet.from;
    let once = neighbor_info_effect(s, packet, info, t1);
    assert(s.nodes[a].node_num == a);
    assert(info.neighbors@.drop_last() =~= Seq::<Neighbor>::empty());
    assert(again.neighbors@.drop_last() =~= Seq::<Neighbor>::empty());
    assert(once.nodes.contains_key(a) && once.nodes[a].node_num == a);
    assert(reported_edges(s.edges, once.nodes.dom(), a, info.neighbors@.drop_last()) == s.edges);
    let twice = neighbor_info_effect(once, packet, again, t2);
    assert(reported_edges(once.edges, twice.nodes.dom(), a, again.neighbors@.drop_last())
        == once.edges);
    assert(twice.edges.dom() =~= once.edges.dom());
}

} // verus!
