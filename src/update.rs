//! Updating the graph from decoded telemetry packets.
use vstd::prelude::*;
use crate::clock::current_time_millis;
use crate::graph::{GraphState, MeshGraph};
use crate::model::{
    edge_of, fresh_node, refreshed, GraphEdge, GraphNode, MeshPacket, Neighbor, NeighborInfo,
    NodeInfo, Position, SkipReason, UpdateOutcome,
};

verus! {

/// The node `id` as of `now`: the known node with only `last_heard` moved to
/// `now`, or else a fresh node.
pub open spec fn resolved_node(s: GraphState, id: u32, now: i64) -> GraphNode {
    if s.nodes.contains_key(id) {
        refreshed(s.nodes[id], now)
    } else {
        fresh_node(id, now)
    }
}

/// `s` with node `id` refreshed, or created, at `now`.
pub open spec fn heard_from(s: GraphState, id: u32, now: i64) -> GraphState {
    let n = resolved_node(s, id, now);
    GraphState { nodes: s.nodes.insert(n.node_num, n), edges: s.edges }
}

/// The graph after a node announcement at `now`: unchanged without a position.
pub open spec fn node_info_effect(s: GraphState, info: NodeInfo, now: i64) -> GraphState {
    if info.position is None {
        s
    } else {
        heard_from(s, info.num, now)
    }
}

/// The graph after a position report at `now`.
pub open spec fn position_effect(s: GraphState, packet: MeshPacket, now: i64) -> GraphState {
    heard_from(s, packet.from, now)
}

/// The reporting node of a neighbor report as of `now`: the packet's sender
/// refreshed if it is known, or else a fresh node under the report's own id.
pub open spec fn reporter_node(
    s: GraphState,
    packet: MeshPacket,
    info: NeighborInfo,
    now: i64,
) -> GraphNode {
    if s.nodes.contains_key(packet.from) {
        refreshed(s.nodes[packet.from], now)
    } else {
        fresh_node(info.node_id, now)
    }
}

/// `edges` after the entries `ns` of a report from `own`, taken in order: an
/// entry whose peer is in `known` sets the edge from `own` to that peer; any
/// other entry is skipped.
pub open spec fn reported_edges(
    edges: Map<(u32, u32), GraphEdge>,
    known: Set<u32>,
    own: u32,
    ns: Seq<Neighbor>,
) -> Map<(u32, u32), GraphEdge>
    decreases ns.len(),
{
    if ns.len() == 0 {
        edges
    } else {
        let prev = reported_edges(edges, known, own, ns.drop_last());
        let n = ns.last();
        if known.contains(n.node_id) {
            prev.insert((own, n.node_id), edge_of(own, n))
        } else {
            prev
        }
    }
}

/// The graph after a neighbor report at `now`: the reporter is refreshed or
/// created first; then each entry whose peer the graph holds sets an edge.
pub open spec fn neighbor_info_effect(
    s: GraphState,
    packet: MeshPacket,
    info: NeighborInfo,
    now: i64,
) -> GraphState {
    let own = reporter_node(s, packet, info, now);
    let nodes = s.nodes.insert(own.node_num, own);
    GraphState {
        nodes,
        edges: reported_edges(s.edges, nodes.dom(), own.node_num, info.neighbors@),
    }
}

/// What happened to one entry of a report, given the nodes the graph then held.
pub open spec fn entry_outcome(nodes: Map<u32, GraphNode>, n: Neighbor) -> UpdateOutcome {
    if nodes.contains_key(n.node_id) {
        UpdateOutcome::Applied
    } else {
        UpdateOutcome::Skipped(SkipReason::UnknownNeighbor)
    }
}

impl MeshGraph {
    /// Refreshes node `id` at `now`, or creates it with the default timeout.
    fn hear_from(&mut self, id: u32, now: i64)
        requires
            old(self).inv(),
        ensures
            final(self).inv(),
            final(self)@ == heard_from(old(self)@, id, now),
    {
        let node = match self.get_node(id) {
            Some(node) => node.refreshed(now),
            None => GraphNode::new(id, now),
        };
        self.upsert_node(node);
    }

    /// Applies a neighbor report that arrived at `now`. The reporter is
    /// refreshed if the graph holds the packet's sender, and otherwise created
    /// from the report; then, entry by entry, an edge from the reporter is set
    /// for each peer the graph holds, and peers it does not hold are skipped,
    /// never created. The result gives each entry's outcome, in order.
    pub fn update_from_neighbor_info_at(
        &mut self,
        packet: MeshPacket,
        neighbor_info: NeighborInfo,
        now: i64,
    ) -> (outcomes: Vec<UpdateOutcome>)
        requires
            old(self).inv(),
        ensures
            final(self).inv(),
            final(self)@ == neighbor_info_effect(old(self)@, packet, neighbor_info, now),
            outcomes@.len() == neighbor_info.neighbors@.len(),
            forall|i: int|
                0 <= i < outcomes@.len() ==> #[trigger] outcomes@[i] == entry_outcome(
                    final(self)@.nodes,
                    neighbor_info.neighbors@[i],
                ),
    {
        let ghost s = self@;
        let own_node = match self.get_node(packet.from) {
            Some(node) => node.refreshed(now),
            None => GraphNode::from_neighbor_info(&neighbor_info, now),
        };
        self.upsert_node(own_node);
        let ghost nodes = self@.nodes;
        let ns = &neighbor_info.neighbors;
        assert(ns@.take(0) =~= Seq::<Neighbor>::empty());
        let mut outcomes: Vec<UpdateOutcome> = Vec::new();
        let mut i: usize = 0;
        while i < ns.len()
            invariant
                self.inv(),
                i <= ns@.len(),
                self@.nodes == nodes,
                nodes.contains_key(own_node.node_num),
                self@.edges == reported_edges(s.edges, nodes.dom(), own_node.node_num, ns@.take(i as int)),
                outcomes@.len() == i,
                forall|j: int| 0 <= j < i ==> #[trigger] outcomes@[j] == entry_outcome(nodes, ns@[j]),
            decreases ns@.len() - i,
        {
            let neighbor = ns[i];
            assert(ns@.take(i + 1).drop_last() =~= ns@.take(i as int));
            match self.get_node(neighbor.node_id) {
                Some(remote) => {
                    proof {
                        self.lemma_inv_view();
                    }
                    self.upsert_edge(
                        own_node,
                        remote,
                        GraphEdge::from_neighbor(own_node.node_num, neighbor),
                    );
                    outcomes.push(UpdateOutcome::Applied);
                },
                None => {
                    outcomes.push(UpdateOutcome::Skipped(SkipReason::UnknownNeighbor));
                },
            }
            i = i + 1;
        }
        assert(ns@.take(ns@.len() as int) =~= ns@);
        outcomes
    }

    /// Applies a node announcement that arrived at `now`. Without a position it
    /// changes nothing and says so; with one, the node is refreshed, or created
    /// with the default timeout.
    pub fn update_from_node_info_at(&mut self, node_info: NodeInfo, now: i64) -> (r: UpdateOutcome)
        requires
            old(self).inv(),
        ensures
            final(self).inv(),
            final(self)@ == node_info_effect(old(self)@, node_info, now),
            r == (if node_info.position is None {
                UpdateOutcome::Skipped(SkipReason::MissingPosition)
            } else {
                UpdateOutcome::Applied
            }),
    {
        if node_info.position.is_none() {
            return UpdateOutcome::Skipped(SkipReason::MissingPosition);
        }
        self.hear_from(node_info.num, now);
        UpdateOutcome::Applied
    }

    /// Applies a position report that arrived at `now`: the sender is
    /// refreshed, or created with the default timeout. The position itself is
    /// not stored.
    pub fn update_from_position_at(&mut self, packet: MeshPacket, _position: Position, now: i64)
        requires
            old(self).inv(),
        ensures
            final(self).inv(),
            final(self)@ == position_effect(old(self)@, packet, now),
    {
        self.hear_from(packet.from, now);
    }

    /// Applies a neighbor report, as `update_from_neighbor_info_at` does, at
    /// the current time.
    pub fn update_from_neighbor_info(&mut self, packet: MeshPacket, neighbor_info: NeighborInfo)
        requires
            old(self).inv(),
        ensures
            final(self).inv(),
            exists|now: i64|
                final(self)@ == #[trigger] neighbor_info_effect(
                    old(self)@,
                    packet,
                    neighbor_info,
                    now,
                ),
    {
        let now = current_time_millis();
        let ghost info = neighbor_info;
        self.update_from_neighbor_info_at(packet, neighbor_info, now);
        assert(self@ == neighbor_info_effect(old(self)@, packet, info, now));
    }

    /// Applies a node announcement, as `update_from_node_info_at` does, at the
    /// current time.
    pub fn update_from_node_info(&mut self, node_info: NodeInfo)
        requires
            old(self).inv(),
        ensures
            final(self).inv(),
            exists|now: i64|
                final(self)@ == #[trigger] node_info_effect(old(self)@, node_info, now),
    {
        let now = current_time_millis();
        self.update_from_node_info_at(node_info, now);
        assert(self@ == node_info_effect(old(self)@, node_info, now));
    }

    /// Applies a position report, as `update_from_position_at` does, at the
    /// current time.
    pub fn update_from_position(&mut self, packet: MeshPacket, position: Position)
        requires
            old(self).inv(),
        ensures
            final(self).inv(),
            exists|now: i64|
                final(self)@ == #[trigger] position_effect(old(self)@, packet, now),
    {
        let now = current_time_millis();
        self.update_from_position_at(packet, position, now);
        assert(self@ == position_effect(old(self)@, packet, now));
    }
}

} // verus!
