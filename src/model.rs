//! The graph's records and the decoded telemetry it is built from.
use vstd::prelude::*;

verus! {

/// How long a node stays fresh without further packets: fifteen minutes.
pub const DEFAULT_NODE_TIMEOUT_SECS: u64 = 15 * 60;

/// One mesh participant.
#[derive(Clone, Copy, Debug, PartialEq, Eq, Structural)]
pub struct GraphNode {
    /// The node's identifier, stable across its session.
    pub node_num: u32,
    /// When a packet was last attributed to the node, in milliseconds since the Unix epoch.
    pub last_heard: i64,
    /// After how many seconds without packets the node counts as stale.
    pub timeout_duration: u64,
}

/// An observed link from the reporting node (`source`) to a peer it hears (`target`).
#[derive(Clone, Copy, Debug, PartialEq, Eq, Structural)]
pub struct GraphEdge {
    pub source: u32,
    pub target: u32,
    /// Bit pattern of the signal-to-noise ratio (an IEEE-754 single) the report gave.
    pub snr_bits: u32,
    /// When the reporting node last heard the peer, as the report gave it.
    pub last_rx_time: u32,
    /// The peer's broadcast interval in seconds, as the report gave it.
    pub node_broadcast_interval_secs: u32,
}

/// The envelope of a decoded packet: who sent it and to whom.
#[derive(Clone, Copy, Debug, PartialEq, Eq, Structural)]
pub struct MeshPacket {
    pub from: u32,
    pub to: u32,
}

/// One peer in a neighbor report, with the quality of the link to it.
#[derive(Clone, Copy, Debug, PartialEq, Eq, Structural)]
pub struct Neighbor {
    pub node_id: u32,
    /// Bit pattern of the signal-to-noise ratio (an IEEE-754 single).
    pub snr_bits: u32,
    pub last_rx_time: u32,
    pub node_broadcast_interval_secs: u32,
}

/// A neighbor report: the peers that `node_id` currently hears directly.
#[derive(Clone, Debug, PartialEq, Eq)]
pub struct NeighborInfo {
    pub node_id: u32,
    pub last_sent_by_id: u32,
    pub node_broadcast_interval_secs: u32,
    pub neighbors: Vec<Neighbor>,
}

/// A reported geographic position, in the radio protocol's integer units.
#[derive(Clone, Copy, Debug, PartialEq, Eq)]
pub struct Position {
    /// Latitude in units of 1e-7 degrees.
    pub latitude_i: Option<i32>,
    /// Longitude in units of 1e-7 degrees.
    pub longitude_i: Option<i32>,
    /// Altitude in metres above mean sea level.
    pub altitude: Option<i32>,
    /// Seconds since the Unix epoch at which the fix was taken.
    pub time: u32,
}

/// A node announcement: a node's identifier and, optionally, where it is.
#[derive(Clone, Copy, Debug, PartialEq, Eq)]
pub struct NodeInfo {
    pub num: u32,
    pub position: Option<Position>,
}

/// Why an update, or one entry of it, changed nothing.
#[derive(Clone, Copy, Debug, PartialEq, Eq, Structural)]
pub enum SkipReason {
    /// A node announcement without a position.
    MissingPosition,
    /// A neighbor entry naming a node that the graph does not hold.
    UnknownNeighbor,
}

/// What an update, or one entry of a neighbor report, did to the graph.
#[derive(Clone, Copy, Debug, PartialEq, Eq, Structural)]
pub enum UpdateOutcome {
    Applied,
    Skipped(SkipReason),
}

/// A node first heard at `now`, with the default timeout.
pub open spec fn fresh_node(id: u32, now: i64) -> GraphNode {
    GraphNode { node_num: id, last_heard: now, timeout_duration: DEFAULT_NODE_TIMEOUT_SECS }
}

/// `n` heard again at `now`: every other field is kept.
pub open spec fn refreshed(n: GraphNode, now: i64) -> GraphNode {
    GraphNode { last_heard: now, ..n }
}

/// The edge that a report from `source` yields for one of its entries.
pub open spec fn edge_of(source: u32, n: Neighbor) -> GraphEdge {
    GraphEdge {
        source,
        target: n.node_id,
        snr_bits: n.snr_bits,
        last_rx_time: n.last_rx_time,
        node_broadcast_interval_secs: n.node_broadcast_interval_secs,
    }
}

impl GraphNode {
    /// A node first heard at `now`, with the default timeout.
    pub fn new(node_num: u32, now: i64) -> (r: GraphNode)
        ensures
            r == fresh_node(node_num, now),
    {
        GraphNode { node_num, last_heard: now, timeout_duration: DEFAULT_NODE_TIMEOUT_SECS }
    }

    /// The reporting node of a neighbor report, first heard at `now`.
    pub fn from_neighbor_info(info: &NeighborInfo, now: i64) -> (r: GraphNode)
        ensures
            r == fresh_node(info.node_id, now),
    {
        GraphNode::new(info.node_id, now)
    }

    /// This node heard again at `now`.
    pub fn refreshed(&self, now: i64) -> (r: GraphNode)
        ensures
            r == refreshed(*self, now),
    {
        GraphNode {
            node_num: self.node_num,
            last_heard: now,
            timeout_duration: self.timeout_duration,
        }
    }

    /// Whether the node has gone unheard for longer than its timeout at time `now`
    /// (both times in milliseconds since the Unix epoch).
    pub fn is_stale(&self, now: i64) -> (r: bool)
        ensures
            r == (now as int - self.last_heard as int > self.timeout_duration as int * 1000),
    {
        let elapsed: i128 = now as i128 - self.last_heard as i128;
        elapsed > self.timeout_duration as i128 * 1000
    }
}

impl GraphEdge {
    /// The edge that a report from `source` yields for its entry `neighbor`.
    pub fn from_neighbor(source: u32, neighbor: Neighbor) -> (r: GraphEdge)
        ensures
            r == edge_of(source, neighbor),
    {
        GraphEdge {
            source,
            target: neighbor.node_id,
            snr_bits: neighbor.snr_bits,
            last_rx_time: neighbor.last_rx_time,
            node_broadcast_interval_secs: neighbor.node_broadcast_interval_secs,
        }
    }
}

} // verus!
