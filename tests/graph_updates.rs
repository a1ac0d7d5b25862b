use mesh_graph::graph::MeshGraph;
use mesh_graph::model::{
    GraphEdge, GraphNode, MeshPacket, Neighbor, NeighborInfo, NodeInfo, Position, SkipReason,
    UpdateOutcome, DEFAULT_NODE_TIMEOUT_SECS,
};

fn position() -> Position {
    Position { latitude_i: Some(523_000_000), longitude_i: Some(48_000_000), altitude: Some(12), time: 1_700_000_000 }
}

fn neighbor(node_id: u32, snr: f32) -> Neighbor {
    Neighbor { node_id, snr_bits: snr.to_bits(), last_rx_time: 1_700_000_100, node_broadcast_interval_secs: 900 }
}

fn report(node_id: u32, neighbors: Vec<Neighbor>) -> NeighborInfo {
    NeighborInfo { node_id, last_sent_by_id: node_id, node_broadcast_interval_secs: 900, neighbors }
}

fn packet(from: u32) -> MeshPacket {
    MeshPacket { from, to: u32::MAX }
}

fn graph_with(ids: &[u32], now: i64) -> MeshGraph {
    let mut g = MeshGraph::new();
    for id in ids {
        g.update_from_node_info_at(NodeInfo { num: *id, position: Some(position()) }, now);
    }
    g
}

const RECENT_MILLIS: i64 = 1_600_000_000_000;

#[test]
fn end_to_end_node_info_then_self_report() {
    let mut g = MeshGraph::new();
    g.update_from_node_info(NodeInfo { num: 7, position: Some(position()) });
    let n = g.get_node(7).unwrap();
    assert_eq!(n.node_num, 7);
    assert_eq!(n.timeout_duration, 900);
    assert!(n.last_heard > RECENT_MILLIS);
    assert_eq!(g.node_count(), 1);

    g.update_from_neighbor_info(packet(7), report(7, vec![neighbor(7, 5.5)]));
    assert_eq!(g.node_count(), 1);
    assert_eq!(g.edge_count(), 1);
    let e = g.get_edge(7, 7).unwrap();
    assert_eq!(e.source, 7);
    assert_eq!(e.target, 7);
    assert_eq!(f32::from_bits(e.snr_bits), 5.5);
}

#[test]
fn neighbor_report_twice_is_idempotent() {
    let mut g = graph_with(&[1, 2, 3], 1_000);
    let info = report(1, vec![neighbor(2, 3.0), neighbor(3, -4.25), neighbor(9, 1.0)]);
    let first = g.update_from_neighbor_info_at(packet(1), info.clone(), 2_000);
    let nodes_once = g.nodes();
    let edges_once = g.edges();
    let second = g.update_from_neighbor_info_at(packet(1), info, 3_000);
    assert_eq!(first, second);
    assert_eq!(g.edges(), edges_once);
    assert_eq!(g.edge_count(), 2);
    assert_eq!(g.node_count(), 3);
    let nodes_twice = g.nodes();
    assert_eq!(nodes_twice.len(), nodes_once.len());
    for (a, b) in nodes_once.iter().zip(nodes_twice.iter()) {
        assert_eq!(a.node_num, b.node_num);
        assert_eq!(a.timeout_duration, b.timeout_duration);
    }
    assert_eq!(g.get_node(1).unwrap().last_heard, 3_000);
    assert_eq!(g.get_node(2).unwrap().last_heard, 1_000);
}

#[test]
fn unknown_neighbors_create_only_the_sender() {
    let mut g = graph_with(&[10], 1_000);
    let outcomes = g.update_from_neighbor_info_at(packet(20), report(20, vec![neighbor(30, 1.0), neighbor(40, 2.0)]), 5_000);
    assert_eq!(outcomes, vec![
        UpdateOutcome::Skipped(SkipReason::UnknownNeighbor),
        UpdateOutcome::Skipped(SkipReason::UnknownNeighbor),
    ]);
    assert_eq!(g.node_count(), 2);
    assert_eq!(g.edge_count(), 0);
    assert_eq!(g.get_node(20), Some(GraphNode { node_num: 20, last_heard: 5_000, timeout_duration: DEFAULT_NODE_TIMEOUT_SECS }));
    assert_eq!(g.get_node(30), None);
    assert_eq!(g.get_node(40), None);
}

#[test]
fn node_info_without_position_is_skipped() {
    let mut g = graph_with(&[1], 1_000);
    let before = g.nodes();
    let r = g.update_from_node_info_at(NodeInfo { num: 5, position: None }, 2_000);
    assert_eq!(r, UpdateOutcome::Skipped(SkipReason::MissingPosition));
    assert_eq!(g.nodes(), before);
    assert_eq!(g.get_node(5), None);
    let r = g.update_from_node_info_at(NodeInfo { num: 1, position: None }, 2_000);
    assert_eq!(r, UpdateOutcome::Skipped(SkipReason::MissingPosition));
    assert_eq!(g.get_node(1).unwrap().last_heard, 1_000);
}

#[test]
fn refresh_keeps_identity_on_every_path() {
    let mut g = MeshGraph::new();
    g.upsert_node(GraphNode { node_num: 4, last_heard: 100, timeout_duration: 60 });

    assert_eq!(g.update_from_node_info_at(NodeInfo { num: 4, position: Some(position()) }, 200), UpdateOutcome::Applied);
    assert_eq!(g.get_node(4), Some(GraphNode { node_num: 4, last_heard: 200, timeout_duration: 60 }));

    g.update_from_position_at(packet(4), position(), 300);
    assert_eq!(g.get_node(4), Some(GraphNode { node_num: 4, last_heard: 300, timeout_duration: 60 }));

    g.update_from_neighbor_info_at(packet(4), report(4, vec![]), 400);
    assert_eq!(g.get_node(4), Some(GraphNode { node_num: 4, last_heard: 400, timeout_duration: 60 }));
    assert_eq!(g.node_count(), 1);
}

#[test]
fn edge_between_known_nodes_is_replaced_not_duplicated() {
    let mut g = graph_with(&[1, 2], 1_000);
    let out = g.update_from_neighbor_info_at(packet(1), report(1, vec![neighbor(2, 6.0)]), 2_000);
    assert_eq!(out, vec![UpdateOutcome::Applied]);
    assert_eq!(g.edge_count(), 1);
    assert_eq!(g.get_edge(1, 2), Some(GraphEdge { source: 1, target: 2, snr_bits: 6.0f32.to_bits(), last_rx_time: 1_700_000_100, node_broadcast_interval_secs: 900 }));
    assert_eq!(g.get_edge(2, 1), None);

    let mut updated = neighbor(2, -2.5);
    updated.last_rx_time = 1_700_000_500;
    g.update_from_neighbor_info_at(packet(1), report(1, vec![updated]), 3_000);
    assert_eq!(g.edge_count(), 1);
    let e = g.get_edge(1, 2).unwrap();
    assert_eq!(f32::from_bits(e.snr_bits), -2.5);
    assert_eq!(e.last_rx_time, 1_700_000_500);
}

#[test]
fn unknown_sender_is_created_under_the_report_id() {
    let mut g = MeshGraph::new();
    g.update_from_neighbor_info_at(packet(8), report(9, vec![]), 50);
    assert_eq!(g.get_node(8), None);
    assert_eq!(g.get_node(9), Some(GraphNode { node_num: 9, last_heard: 50, timeout_duration: 900 }));
}

#[test]
fn position_creates_unknown_sender() {
    let mut g = MeshGraph::new();
    g.update_from_position_at(packet(12), position(), 77);
    assert_eq!(g.get_node(12), Some(GraphNode { node_num: 12, last_heard: 77, timeout_duration: 900 }));
}

#[test]
fn clock_paths_stamp_the_current_time() {
    let mut g = MeshGraph::new();
    g.update_from_position(packet(3), position());
    let n = g.get_node(3).unwrap();
    assert!(n.last_heard > RECENT_MILLIS);
    g.upsert_node(GraphNode { node_num: 5, last_heard: 0, timeout_duration: 30 });
    g.update_from_neighbor_info(packet(5), report(5, vec![neighbor(3, 0.0)]));
    let m = g.get_node(5).unwrap();
    assert!(m.last_heard > RECENT_MILLIS);
    assert_eq!(m.timeout_duration, 30);
    assert!(g.get_edge(5, 3).is_some());
}

#[test]
fn default_timeout_is_fifteen_minutes() {
    assert_eq!(DEFAULT_NODE_TIMEOUT_SECS, 900);
    assert_eq!(GraphNode::new(1, 5), GraphNode { node_num: 1, last_heard: 5, timeout_duration: 900 });
    let info = report(6, vec![]);
    assert_eq!(GraphNode::from_neighbor_info(&info, 8), GraphNode { node_num: 6, last_heard: 8, timeout_duration: 900 });
}

#[test]
fn staleness_follows_timeout() {
    let n = GraphNode { node_num: 1, last_heard: 10_000, timeout_duration: 60 };
    assert!(!n.is_stale(70_000));
    assert!(n.is_stale(70_001));
    assert!(!n.is_stale(0));
    let far = GraphNode { node_num: 1, last_heard: i64::MIN, timeout_duration: u64::MAX };
    assert!(!far.is_stale(i64::MAX));
}

#[test]
fn refreshed_keeps_other_fields() {
    let n = GraphNode { node_num: 3, last_heard: 1, timeout_duration: 45 };
    assert_eq!(n.refreshed(99), GraphNode { node_num: 3, last_heard: 99, timeout_duration: 45 });
}

#[test]
fn from_neighbor_copies_quality() {
    let e = GraphEdge::from_neighbor(11, neighbor(12, 7.75));
    assert_eq!(e, GraphEdge { source: 11, target: 12, snr_bits: 7.75f32.to_bits(), last_rx_time: 1_700_000_100, node_broadcast_interval_secs: 900 });
}

#[test]
fn upserting_a_node_replaces_it_entirely() {
    let mut g = MeshGraph::new();
    g.upsert_node(GraphNode { node_num: 2, last_heard: 1, timeout_duration: 10 });
    g.upsert_node(GraphNode { node_num: 2, last_heard: 2, timeout_duration: 20 });
    assert_eq!(g.node_count(), 1);
    assert_eq!(g.nodes(), vec![GraphNode { node_num: 2, last_heard: 2, timeout_duration: 20 }]);
}

#[test]
fn empty_graph_has_nothing() {
    let g = MeshGraph::new();
    assert_eq!(g.node_count(), 0);
    assert_eq!(g.edge_count(), 0);
    assert_eq!(g.get_node(0), None);
    assert_eq!(g.get_edge(0, 0), None);
    assert!(g.nodes().is_empty());
    assert!(g.edges().is_empty());
}
