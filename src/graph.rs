//! The graph store: nodes keyed by identifier, edges keyed by their
//! (source, target) pair.
use vstd::prelude::*;
use crate::keyed::{
    keyed_map, keys_unique, lemma_keyed_map_dom, lemma_keyed_map_index, lemma_keyed_map_len,
    lemma_keyed_map_push, lemma_keyed_map_update, lemma_keyed_map_value_key, lemma_keys_unique_push,
};
use crate::model::{GraphEdge, GraphNode};

verus! {

/// The abstract graph: each known node under its identifier, each edge under
/// its (source, target) pair.
pub struct GraphState {
    pub nodes: Map<u32, GraphNode>,
    pub edges: Map<(u32, u32), GraphEdge>,
}

impl GraphState {
    /// Both maps are finite, every node sits under its own identifier, every edge under its own
    /// endpoints, and both endpoints of every edge are known nodes.
    pub open spec fn wf(self) -> bool {
        &&& self.nodes.dom().finite()
        &&& self.edges.dom().finite()
        &&& forall|id: u32| #[trigger] self.nodes.contains_key(id) ==> self.nodes[id].node_num == id
        &&& forall|k: (u32, u32)| #[trigger] self.edges.contains_key(k) ==> {
            &&& self.edges[k].source == k.0
            &&& self.edges[k].target == k.1
            &&& self.nodes.contains_key(k.0)
            &&& self.nodes.contains_key(k.1)
        }
    }
}

pub open spec fn node_key() -> spec_fn(GraphNode) -> u32 {
    |n: GraphNode| n.node_num
}

pub open spec fn edge_key() -> spec_fn(GraphEdge) -> (u32, u32) {
    |e: GraphEdge| (e.source, e.target)
}

/// A mesh topology graph. Nodes and edges are kept in the order in which they
/// were first inserted; an upsert of a known key replaces the record in place.
pub struct MeshGraph {
    nodes: Vec<GraphNode>,
    edges: Vec<GraphEdge>,
}

impl View for MeshGraph {
    type V = GraphState;

    closed spec fn view(&self) -> GraphState {
        GraphState {
            nodes: keyed_map(self.nodes@, node_key()),
            edges: keyed_map(self.edges@, edge_key()),
        }
    }
}

impl MeshGraph {
    /// The store holds each node and each edge key once, and its view is well formed.
    pub closed spec fn inv(&self) -> bool {
        &&& keys_unique(self.nodes@, node_key())
        &&& keys_unique(self.edges@, edge_key())
        &&& self@.wf()
    }

    pub proof fn lemma_inv_view(&self)
        requires
            self.inv(),
        ensures
            self@.wf(),
            self@.nodes.dom().finite(),
            self@.edges.dom().finite(),
    {
        lemma_keyed_map_len(self.nodes@, node_key());
        lemma_keyed_map_len(self.edges@, edge_key());
    }

    /// An empty graph.
    pub fn new() -> (r: MeshGraph)
        ensures
            r.inv(),
            r@.nodes == Map::<u32, GraphNode>::empty(),
            r@.edges == Map::<(u32, u32), GraphEdge>::empty(),
    {
        MeshGraph { nodes: Vec::new(), edges: Vec::new() }
    }

    fn find_node(&self, id: u32) -> (r: Option<usize>)
        requires
            self.inv(),
        ensures
            match r {
                Some(i) => i < self.nodes@.len() && self.nodes@[i as int].node_num == id,
                None => !self@.nodes.contains_key(id),
            },
    {
        let mut i: usize = 0;
        while i < self.nodes.len()
            invariant
                i <= self.nodes@.len(),
                forall|j: int| 0 <= j < i ==> self.nodes@[j].node_num != id,
            decreases self.nodes@.len() - i,
        {
            if self.nodes[i].node_num == id {
                return Some(i);
            }
            i = i + 1;
        }
        proof {
            lemma_keyed_map_dom(self.nodes@, node_key(), id);
        }
        None
    }

    fn find_edge(&self, source: u32, target: u32) -> (r: Option<usize>)
        requires
            self.inv(),
        ensures
            match r {
                Some(i) => i < self.edges@.len() && self.edges@[i as int].source == source
                    && self.edges@[i as int].target == target,
                None => !self@.edges.contains_key((source, target)),
            },
    {
        let mut i: usize = 0;
        while i < self.edges.len()
            invariant
                i <= self.edges@.len(),
                forall|j: int|
                    0 <= j < i ==> (self.edges@[j].source, self.edges@[j].target) != (
                        source,
                        target,
                    ),
            decreases self.edges@.len() - i,
        {
            if self.edges[i].source == source && self.edges[i].target == target {
                return Some(i);
            }
            i = i + 1;
        }
        proof {
            lemma_keyed_map_dom(self.edges@, edge_key(), (source, target));
        }
        None
    }

    /// The node with identifier `id`, if the graph holds one.
    pub fn get_node(&self, id: u32) -> (r: Option<GraphNode>)
        requires
            self.inv(),
        ensures
            r == (if self@.nodes.contains_key(id) {
                Some(self@.nodes[id])
            } else {
                None
            }),
    {
        match self.find_node(id) {
            Some(i) => {
                proof {
                    lemma_keyed_map_index(self.nodes@, node_key(), i as int);
                }
                Some(self.nodes[i])
            },
            None => None,
        }
    }

    /// The edge from `source` to `target`, if the graph holds one.
    pub fn get_edge(&self, source: u32, target: u32) -> (r: Option<GraphEdge>)
        requires
            self.inv(),
        ensures
            r == (if self@.edges.contains_key((source, target)) {
                Some(self@.edges[(source, target)])
            } else {
                None
            }),
    {
        match self.find_edge(source, target) {
            Some(i) => {
                proof {
                    lemma_keyed_map_index(self.edges@, edge_key(), i as int);
                }
                Some(self.edges[i])
            },
            None => None,
        }
    }

    /// Inserts `node` under its identifier, replacing whatever node was there.
    pub fn upsert_node(&mut self, node: GraphNode)
        requires
            old(self).inv(),
        ensures
            final(self).inv(),
            final(self)@.nodes == old(self)@.nodes.insert(node.node_num, node),
            final(self)@.edges == old(self)@.edges,
    {
        let ghost s = self@;
        match self.find_node(node.node_num) {
            Some(i) => {
                proof {
                    lemma_keyed_map_update(self.nodes@, node_key(), i as int, node);
                }
                self.nodes.set(i, node);
            },
            None => {
                proof {
                    lemma_keyed_map_push(self.nodes@, node_key(), node);
                    lemma_keys_unique_push(self.nodes@, node_key(), node);
                }
                self.nodes.push(node);
            },
        }
        assert(self@.wf()) by {
            assert forall|id: u32| #[trigger] self@.nodes.contains_key(id) implies self@.nodes[id].node_num == id by {
                lemma_keyed_map_value_key(self.nodes@, node_key(), id);
            }
            assert forall|k: (u32, u32)| #[trigger] self@.edges.contains_key(k) implies {
                &&& self@.edges[k].source == k.0
                &&& self@.edges[k].target == k.1
                &&& self@.nodes.contains_key(k.0)
                &&& self@.nodes.contains_key(k.1)
            } by {
                assert(s.edges.contains_key(k));
            }
        }
    }

    /// Inserts `edge` under its (source, target) pair, replacing whatever edge
    /// was there. Its endpoints are `source` and `target`, which the graph holds.
    pub fn upsert_edge(&mut self, source: GraphNode, target: GraphNode, edge: GraphEdge)
        requires
            old(self).inv(),
            edge.source == source.node_num,
            edge.target == target.node_num,
            old(self)@.nodes.contains_key(source.node_num),
            old(self)@.nodes.contains_key(target.node_num),
        ensures
            final(self).inv(),
            final(self)@.nodes == old(self)@.nodes,
            final(self)@.edges == old(self)@.edges.insert((edge.source, edge.target), edge),
    {
        let ghost s = self@;
        match self.find_edge(edge.source, edge.target) {
            Some(i) => {
                proof {
                    lemma_keyed_map_update(self.edges@, edge_key(), i as int, edge);
                }
                self.edges.set(i, edge);
            },
            None => {
                proof {
                    lemma_keyed_map_push(self.edges@, edge_key(), edge);
                    lemma_keys_unique_push(self.edges@, edge_key(), edge);
                }
                self.edges.push(edge);
            },
        }
        assert(self@.wf()) by {
            assert forall|k: (u32, u32)| #[trigger] self@.edges.contains_key(k) implies {
                &&& self@.edges[k].source == k.0
                &&& self@.edges[k].target == k.1
                &&& self@.nodes.contains_key(k.0)
                &&& self@.nodes.contains_key(k.1)
            } by {
                if k != (edge.source, edge.target) {
                    assert(s.edges.contains_key(k));
                }
            }
        }
    }

    /// How many nodes the graph holds.
    pub fn node_count(&self) -> (r: usize)
        requires
            self.inv(),
        ensures
            r == self@.nodes.dom().len(),
    {
        proof {
            lemma_keyed_map_len(self.nodes@, node_key());
        }
        self.nodes.len()
    }

    /// How many edges the graph holds.
    pub fn edge_count(&self) -> (r: usize)
        requires
            self.inv(),
        ensures
            r == self@.edges.dom().len(),
    {
        proof {
            lemma_keyed_map_len(self.edges@, edge_key());
        }
        self.edges.len()
    }

    /// Every node of the graph, once each, in the order of first insertion.
    pub fn nodes(&self) -> (r: Vec<GraphNode>)
        requires
            self.inv(),
        ensures
            keys_unique(r@, node_key()),
            keyed_map(r@, node_key()) == self@.nodes,
    {
        let mut r: Vec<GraphNode> = Vec::new();
        let mut i: usize = 0;
        while i < self.nodes.len()
            invariant
                i <= self.nodes@.len(),
                r@ == self.nodes@.take(i as int),
            decreases self.nodes@.len() - i,
        {
            r.push(self.nodes[i]);
            i = i + 1;
            assert(r@ =~= self.nodes@.take(i as int));
        }
        assert(r@ =~= self.nodes@);
        r
    }

    /// Every edge of the graph, once each, in the order of first insertion.
    pub fn edges(&self) -> (r: Vec<GraphEdge>)
        requires
            self.inv(),
        ensures
            keys_unique(r@, edge_key()),
            keyed_map(r@, edge_key()) == self@.edges,
    {
        let mut r: Vec<GraphEdge> = Vec::new();
        let mut i: usize = 0;
        while i < self.edges.len()
            invariant
                i <= self.edges@.len(),
                r@ == self.edges@.take(i as int),
            decreases self.edges@.len() - i,
        {
            r.push(self.edges[i]);
            i = i + 1;
            assert(r@ =~= self.edges@.take(i as int));
        }
        assert(r@ =~= self.edges@);
        r
    }
}

} // verus!
