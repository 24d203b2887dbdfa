//! The undirected graphs of `petgraph` that the interference graph is built
//! on, with what the library relies on of them.  Nodes carry `u32` weights
//! and edges carry nothing; nodes are named by their indices.
use vstd::prelude::*;
use vstd::multiset::Multiset;
use petgraph::graph::{Graph, NodeIndex};
use petgraph::Undirected;

verus! {

#[verifier::external_type_specification]
#[verifier::external_body]
#[verifier::reject_recursive_types(N)]
#[verifier::reject_recursive_types(E)]
#[verifier::reject_recursive_types(Ty)]
#[verifier::reject_recursive_types(Ix)]
pub struct ExGraph<N, E, Ty, Ix>(Graph<N, E, Ty, Ix>);

#[verifier::external_type_specification]
#[verifier::external_body]
pub struct ExUndirected(Undirected);

/// The node weights of `g`, by node index.
pub uninterp spec fn graph_nodes(g: Graph<u32, (), Undirected, u32>) -> Seq<u32>;

/// The edges of `g`, each as the pair of node indices it was added with.
pub uninterp spec fn graph_edges(g: Graph<u32, (), Undirected, u32>) -> Multiset<(nat, nat)>;

/// `Graph::new_undirected`: a graph without nodes or edges.
#[verifier::external_body]
pub fn new_ungraph() -> (g: Graph<u32, (), Undirected, u32>)
    ensures
        graph_nodes(g) == Seq::<u32>::empty(),
        graph_edges(g) == Multiset::<(nat, nat)>::empty(),
{
    Graph::new_undirected()
}

/// `Graph::add_node`: appends a node with weight `w` and returns its index,
/// the number of nodes before.  It panics when the index would reach
/// `u32::MAX`, which `requires` leaves out.
#[verifier::external_body]
pub fn ungraph_add_node(g: &mut Graph<u32, (), Undirected, u32>, w: u32) -> (i: usize)
    requires
        graph_nodes(*old(g)).len() < u32::MAX,
    ensures
        i == graph_nodes(*old(g)).len(),
        graph_nodes(*final(g)) == graph_nodes(*old(g)).push(w),
        graph_edges(*final(g)) == graph_edges(*old(g)),
{
    g.add_node(w).index()
}

/// `Graph::add_edge`: adds one more edge between nodes `a` and `b`, even
/// where one is there already.  It panics on a node that does not exist or
/// when the edge index would reach `u32::MAX`, which `requires` leaves out.
#[verifier::external_body]
pub fn ungraph_add_edge(g: &mut Graph<u32, (), Undirected, u32>, a: usize, b: usize)
    requires
        a < graph_nodes(*old(g)).len(),
        b < graph_nodes(*old(g)).len(),
        graph_edges(*old(g)).len() < u32::MAX,
    ensures
        graph_nodes(*final(g)) == graph_nodes(*old(g)),
        graph_edges(*final(g)) == graph_edges(*old(g)).insert((a as nat, b as nat)),
{
    g.add_edge(NodeIndex::new(a), NodeIndex::new(b), ());
}

/// `Graph::contains_edge` on an undirected graph: whether an edge joins `a`
/// and `b`, added either way round.  Indices are taken modulo `2^32` by
/// `NodeIndex::new`, so `requires` keeps both to existing nodes.
#[verifier::external_body]
pub fn ungraph_contains_edge(g: &Graph<u32, (), Undirected, u32>, a: usize, b: usize) -> (r: bool)
    requires
        a < graph_nodes(*g).len(),
        b < graph_nodes(*g).len(),
    ensures
        r == (graph_edges(*g).count((a as nat, b as nat)) > 0
            || graph_edges(*g).count((b as nat, a as nat)) > 0),
{
    g.contains_edge(NodeIndex::new(a), NodeIndex::new(b))
}

/// `Graph::node_count`.
#[verifier::external_body]
pub fn ungraph_node_count(g: &Graph<u32, (), Undirected, u32>) -> (n: usize)
    ensures
        n == graph_nodes(*g).len(),
{
    g.node_count()
}

/// `Graph::edge_count`: the number of edges, parallel ones counted apart.
#[verifier::external_body]
pub fn ungraph_edge_count(g: &Graph<u32, (), Undirected, u32>) -> (n: usize)
    ensures
        n == graph_edges(*g).len(),
{
    g.edge_count()
}

/// `Graph::neighbors` on an undirected graph, as node indices: each edge
/// joining `a` to a node `v` yields `v` once, a loop on `a` yields `a` once,
/// and nothing else is yielded.  The order is left unsaid.  The index is
/// taken modulo `2^32` by `NodeIndex::new`, so `requires` keeps it to an
/// existing node.
#[verifier::external_body]
pub fn ungraph_neighbors(g: &Graph<u32, (), Undirected, u32>, a: usize) -> (r: Vec<usize>)
    requires
        a < graph_nodes(*g).len(),
    ensures
        forall|v: usize|
            #[trigger] r@.to_multiset().count(v) == graph_edges(*g).count((a as nat, v as nat))
                + if v != a {
                graph_edges(*g).count((v as nat, a as nat))
            } else {
                0
            },
{
    g.neighbors(NodeIndex::new(a)).map(|n| n.index()).collect()
}

} // verus!
