//! The interference graph of a basic block: which locations may not share a
//! register because one is written while the other is live.
use vstd::prelude::*;
use vstd::multiset::Multiset;
use std::cmp::Ordering;
use vstd::set_lib::{lemma_int_range, lemma_len_subset, set_int_range};
use petgraph::graph::Graph;
use petgraph::Undirected;
use crate::liveness_rv_var::{locations_model, RvVarBasicBlockLiveness, RvVarInstrLiveness};
use crate::riscv::rv64imfd_reg::IReg;
use crate::riscv_var::instruction::dest_spec;
use crate::riscv_var::location::{x, LocationV, RvVarLocation};
use crate::ungraph::{
    graph_edges, graph_nodes, new_ungraph, ungraph_add_edge, ungraph_add_node,
    ungraph_contains_edge, ungraph_neighbors,
};

verus! {

broadcast use vstd::multiset::group_multiset_axioms;

/// The integer register that always reads as zero.
pub open spec fn zero_location() -> LocationV {
    LocationV::IReg(IReg::ZERO)
}

/// A floating-point variable or register.
pub open spec fn is_float_spec(l: LocationV) -> bool {
    l is FVar || l is FReg
}

/// An integer variable or register.
pub open spec fn is_x_spec(l: LocationV) -> bool {
    l is IVar || l is IReg
}

/// Two locations may interfere: they differ, are of one class, and neither
/// is the zero register.
pub open spec fn may_interfere(a: LocationV, b: LocationV) -> bool {
    &&& a != b
    &&& !(is_float_spec(a) && is_x_spec(b))
    &&& !(is_float_spec(b) && is_x_spec(a))
    &&& a != zero_location()
    &&& b != zero_location()
}

/// Mathematical model of an interference graph: its locations, in the order
/// they were added, and its edges, each present in both directions.
pub struct GraphV {
    pub nodes: Seq<LocationV>,
    pub edges: Set<(LocationV, LocationV)>,
}

/// `nodes` with `l` appended unless it is there already.
pub open spec fn add_location_spec(nodes: Seq<LocationV>, l: LocationV) -> Seq<LocationV> {
    if nodes.contains(l) {
        nodes
    } else {
        nodes.push(l)
    }
}

/// The graph after linking `a` and `b`: unchanged where they may not
/// interfere, else with both as nodes and an edge between them.
pub open spec fn link_spec(g: GraphV, a: LocationV, b: LocationV) -> GraphV {
    if !may_interfere(a, b) {
        g
    } else {
        GraphV {
            nodes: add_location_spec(add_location_spec(g.nodes, a), b),
            edges: g.edges.insert((a, b)).insert((b, a)),
        }
    }
}

/// The graph after linking `w` with each of `live`, in order.
pub open spec fn link_all_spec(g: GraphV, w: LocationV, live: Seq<LocationV>) -> GraphV
    decreases live.len(),
{
    if live.len() == 0 {
        g
    } else {
        link_all_spec(link_spec(g, w, live[0]), w, live.drop_first())
    }
}

/// The graph after the edges one instruction adds: the location it writes,
/// unless there is none or it is the zero register, linked with every
/// location live after it.
pub open spec fn write_live_spec(g: GraphV, instr: RvVarInstrLiveness) -> GraphV {
    match dest_spec(instr.instr) {
        Some(w) => if w == zero_location() {
            g
        } else {
            link_all_spec(g, w, locations_model(instr.live@))
        },
        None => g,
    }
}

/// The graph after the edges of each instruction, in order.
pub open spec fn write_live_all_spec(g: GraphV, instrs: Seq<RvVarInstrLiveness>) -> GraphV
    decreases instrs.len(),
{
    if instrs.len() == 0 {
        g
    } else {
        write_live_all_spec(write_live_spec(g, instrs[0]), instrs.drop_first())
    }
}

/// The graph without nodes or edges.
pub open spec fn empty_graph() -> GraphV {
    GraphV { nodes: Seq::empty(), edges: Set::empty() }
}

/// The number of edges of a graph model: each is held in both directions.
pub open spec fn edge_number(g: GraphV) -> nat {
    g.edges.len() / 2
}

/// An interference graph over locations, kept in a `petgraph` graph whose
/// node `i` stands for the `i`-th location.
pub struct RvVarLocationGraph {
    ungraph: Graph<u32, (), Undirected, u32>,
    locations: Vec<RvVarLocation>,
    edges: Ghost<Set<(LocationV, LocationV)>>,
}

impl View for RvVarLocationGraph {
    type V = GraphV;

    closed spec fn view(&self) -> GraphV {
        GraphV { nodes: locations_model(self.locations@), edges: self.edges@ }
    }
}

impl RvVarLocationGraph {
    /// The representation invariant: one node per location, locations
    /// distinct, edges symmetric and between distinct known locations, and
    /// each edge of the model added to the `petgraph` graph exactly once, in
    /// one direction.
    pub closed spec fn wf(&self) -> bool {
        let n = self.locations.len();
        let locs = locations_model(self.locations@);
        let es = graph_edges(self.ungraph);
        &&& graph_nodes(self.ungraph).len() == n
        &&& forall|i: int, j: int| 0 <= i < j < n ==> locs[i] != locs[j]
        &&& self.edges@.finite()
        &&& es.len() * 2 == self.edges@.len()
        &&& forall|a: LocationV, b: LocationV| #[trigger]
            self.edges@.contains((a, b)) ==> self.edges@.contains((b, a)) && a != b
                && locs.contains(a) && locs.contains(b)
        &&& forall|e: (nat, nat)| #[trigger]
            es.count(e) > 0 ==> e.0 < n && e.1 < n && self.edges@.contains(
                (locs[e.0 as int], locs[e.1 as int]),
            )
        &&& forall|i: int, j: int|
            0 <= i < n && 0 <= j < n && #[trigger] self.edges@.contains((locs[i], locs[j]))
                ==> es.count((i as nat, j as nat)) > 0 || es.count((j as nat, i as nat)) > 0
        &&& forall|i: nat, j: nat| #[trigger] es.count((i, j)) + es.count((j, i)) <= 1
    }

    /// The model's facts that hold of every well-formed graph: edges are
    /// symmetric, between distinct locations that are nodes.
    pub proof fn lemma_wf(&self)
        requires
            self.wf(),
        ensures
            self@.edges.finite(),
            forall|i: int, j: int| 0 <= i < j < self@.nodes.len() ==> self@.nodes[i] != self@.nodes[j],
            forall|a: LocationV, b: LocationV| #[trigger]
                self@.edges.contains((a, b)) ==> self@.edges.contains((b, a)) && a != b
                    && self@.nodes.contains(a) && self@.nodes.contains(b),
    {
    }

    /// An empty graph.
    pub fn new() -> (g: Self)
        ensures
            g.wf(),
            g@ == empty_graph(),
    {
        let g = RvVarLocationGraph {
            ungraph: new_ungraph(),
            locations: Vec::new(),
            edges: Ghost(Set::empty()),
        };
        assert(locations_model(g.locations@) =~= Seq::<LocationV>::empty());
        g
    }

    /// The index of `l` among the locations, if it is one.
    fn index_of(&self, l: &RvVarLocation) -> (r: Option<usize>)
        ensures
            match r {
                Some(i) => i < self.locations.len() && self@.nodes[i as int] == l@,
                None => !self@.nodes.contains(l@),
            },
    {
        let mut i: usize = 0;
        while i < self.locations.len()
            invariant
                i <= self.locations.len(),
                forall|j: int| 0 <= j < i ==> self@.nodes[j] != l@,
            decreases self.locations.len() - i,
        {
            if self.locations[i] == *l {
                return Some(i);
            }
            i += 1;
        }
        None
    }

    /// The node of `l`, added if it is not there yet.
    fn node_for(&mut self, l: &RvVarLocation) -> (i: usize)
        requires
            old(self).wf(),
            old(self)@.nodes.len() < u32::MAX,
            !old(self)@.edges.contains((l@, l@)),
        ensures
            final(self).wf(),
            final(self)@.nodes == add_location_spec(old(self)@.nodes, l@),
            final(self)@.edges == old(self)@.edges,
            i < final(self)@.nodes.len(),
            final(self)@.nodes[i as int] == l@,
    {
        match self.index_of(l) {
            Some(i) => i,
            None => {
                let ghost old_locs = self@.nodes;
                let ghost old_es = graph_edges(self.ungraph);
                let n = self.locations.len();
                let idx = ungraph_add_node(&mut self.ungraph, n as u32);
                self.locations.push(l.clone());
                proof {
                    let locs = self@.nodes;
                    assert(locs =~= old_locs.push(l@));
                    assert forall|a: LocationV, b: LocationV| #[trigger]
                        self.edges@.contains((a, b)) implies self.edges@.contains((b, a)) && a != b
                        && locs.contains(a) && locs.contains(b) by {
                        assert(old_locs.contains(a) && old_locs.contains(b));
                        let ia = old_locs.index_of(a);
                        let ib = old_locs.index_of(b);
                        assert(locs[ia] == a && locs[ib] == b);
                    }
                    assert forall|e: (nat, nat)| #[trigger]
                        graph_edges(self.ungraph).count(e) > 0 implies e.0 < n + 1 && e.1 < n + 1
                        && self.edges@.contains((locs[e.0 as int], locs[e.1 as int])) by {
                        assert(old_es.count(e) > 0);
                        assert(locs[e.0 as int] == old_locs[e.0 as int]);
                        assert(locs[e.1 as int] == old_locs[e.1 as int]);
                    }
                    assert forall|i: int, j: int|
                        0 <= i < n + 1 && 0 <= j < n + 1 && #[trigger] self.edges@.contains(
                            (locs[i], locs[j]),
                        ) implies graph_edges(self.ungraph).count((i as nat, j as nat)) > 0
                        || graph_edges(self.ungraph).count((j as nat, i as nat)) > 0 by {
                        if i == n || j == n {
                            assert(old_locs.contains(locs[i]) && old_locs.contains(locs[j]));
                            if i == n {
                                assert(old_locs[old_locs.index_of(locs[i])] == l@);
                            } else {
                                assert(old_locs[old_locs.index_of(locs[j])] == l@);
                            }
                        } else {
                            assert(locs[i] == old_locs[i] && locs[j] == old_locs[j]);
                        }
                    }
                }
                idx
            },
        }
    }

    /// Joins two locations by an edge, unless they are the same location,
    /// of different classes (integer and floating point), or one of them is
    /// the zero register.  Each location joined becomes a node.
    #[verifier::rlimit(40)]
    pub fn link(&mut self, location1: &RvVarLocation, location2: &RvVarLocation)
        requires
            old(self).wf(),
            old(self)@.nodes.len() + 2 <= u32::MAX,
            edge_number(old(self)@) + 1 < u32::MAX,
        ensures
            final(self).wf(),
            final(self)@ == link_spec(old(self)@, location1@, location2@),
    {
        if *location1 == *location2 {
            return;
        }
        if is_float_location(location1) && is_x_location(location2) {
            return;
        }
        if is_float_location(location2) && is_x_location(location1) {
            return;
        }
        let zero = x(0);
        if *location1 == zero || *location2 == zero {
            return;
        }
        let ghost g0 = self@;
        let node1 = self.node_for(location1);
        let node2 = self.node_for(location2);
        let ghost locs = self@.nodes;
        let ghost a = location1@;
        let ghost b = location2@;
        assert(locs[node1 as int] == a && locs[node2 as int] == b);
        if !ungraph_contains_edge(&self.ungraph, node1, node2) {
            let ghost es0 = graph_edges(self.ungraph);
            let ghost set0 = self.edges@;
            proof {
                assert(!set0.contains((a, b)));
                assert(!set0.contains((b, a)));
                assert(es0.len() < u32::MAX) by {
                    assert(es0.len() * 2 == set0.len());
                }
            }
            ungraph_add_edge(&mut self.ungraph, node1, node2);
            self.edges = Ghost(set0.insert((a, b)).insert((b, a)));
            proof {
                let es = graph_edges(self.ungraph);
                let n = self.locations.len();
                assert(set0.insert((a, b)).len() == set0.len() + 1);
                assert(!set0.insert((a, b)).contains((b, a)));
                assert(self.edges@.len() == set0.len() + 2);
                assert forall|x1: LocationV, y1: LocationV| #[trigger]
                    self.edges@.contains((x1, y1)) implies self.edges@.contains((y1, x1)) && x1
                    != y1 && locs.contains(x1) && locs.contains(y1) by {
                    if (x1, y1) != (a, b) && (x1, y1) != (b, a) {
                        assert(set0.contains((x1, y1)));
                    }
                }
                assert forall|e: (nat, nat)| #[trigger]
                    es.count(e) > 0 implies e.0 < n && e.1 < n && self.edges@.contains(
                    (locs[e.0 as int], locs[e.1 as int]),
                ) by {
                    if e != (node1 as nat, node2 as nat) {
                        assert(es0.count(e) > 0);
                    }
                }
                assert forall|i: int, j: int|
                    0 <= i < n && 0 <= j < n && #[trigger] self.edges@.contains((locs[i], locs[j]))
                        implies es.count((i as nat, j as nat)) > 0 || es.count(
                    (j as nat, i as nat),
                ) > 0 by {
                    if (locs[i], locs[j]) == (a, b) {
                        assert(i == node1 && j == node2);
                    } else if (locs[i], locs[j]) == (b, a) {
                        assert(i == node2 && j == node1);
                    } else {
                        assert(set0.contains((locs[i], locs[j])));
                    }
                }
            }
        } else {
            proof {
                let es = graph_edges(self.ungraph);
                if es.count((node1 as nat, node2 as nat)) > 0 {
                    assert(self.edges@.contains((a, b)));
                } else {
                    assert(es.count((node2 as nat, node1 as nat)) > 0);
                    assert(self.edges@.contains((b, a)));
                }
                assert(self.edges@.contains((a, b)) && self.edges@.contains((b, a)));
                assert(self.edges@.insert((a, b)).insert((b, a)) =~= self.edges@);
            }
        }
    }

    /// The locations joined to `location` by an edge.
    pub fn neighbors(&self, location: &RvVarLocation) -> (r: Vec<RvVarLocation>)
        requires
            self.wf(),
        ensures
            forall|v: LocationV|
                locations_model(r@).contains(v) <==> self@.edges.contains((location@, v)),
            locations_model(r@).no_duplicates(),
    {
        match self.index_of(location) {
            Some(idx) => {
                let adj = ungraph_neighbors(&self.ungraph, idx);
                let ghost n = self.locations.len();
                let ghost locs = self@.nodes;
                let ghost es = graph_edges(self.ungraph);
                proof {
                    broadcast use vstd::seq_lib::group_to_multiset_ensures;
                    assert forall|v: usize|
                        adj@.contains(v) <==> (idx < n && (es.count((idx as nat, v as nat)) > 0
                            || es.count((v as nat, idx as nat)) > 0)) by {
                        assert(adj@.to_multiset().count(v) > 0 <==> adj@.contains(v));
                        assert(es.count((idx as nat, v as nat)) + es.count((v as nat, idx as nat)) <= 1);
                    }
                    assert forall|v: usize| adj@.to_multiset().contains(v) implies
                        adj@.to_multiset().count(v) == 1 by {
                        assert(es.count((idx as nat, v as nat)) + es.count((v as nat, idx as nat)) <= 1);
                    }
                    adj@.lemma_multiset_has_no_duplicates_conv();
                }
                let mut out: Vec<RvVarLocation> = Vec::new();
                let mut k: usize = 0;
                while k < adj.len()
                    invariant
                        self.wf(),
                        idx < n,
                        n == self.locations.len(),
                        locs == self@.nodes,
                        es == graph_edges(self.ungraph),
                        locs[idx as int] == location@,
                        k <= adj.len(),
                        out.len() == k,
                        forall|v: usize|
                            adj@.contains(v) <==> (idx < n && (es.count((idx as nat, v as nat)) > 0
                                || es.count((v as nat, idx as nat)) > 0)),
                        forall|t: int| 0 <= t < k ==> #[trigger] adj@[t] < n && out@[t]@ == locs[adj@[t] as int],
                    decreases adj.len() - k,
                {
                    let j = adj[k];
                    proof {
                        assert(adj@.contains(j));
                        if es.count((idx as nat, j as nat)) > 0 {
                            assert(j < n);
                        } else {
                            assert(es.count((j as nat, idx as nat)) > 0);
                            assert(j < n);
                        }
                    }
                    let ghost before = out@;
                    out.push(self.locations[j].clone());
                    assert(out@[k as int]@ == locs[j as int]);
                    assert forall|t: int| 0 <= t < k + 1 implies #[trigger] adj@[t] < n && out@[t]@
                        == locs[adj@[t] as int] by {
                        if t < k {
                            assert(out@[t] == before[t]);
                            assert(adj@[t] < n && before[t]@ == locs[adj@[t] as int]);
                        } else {
                            assert(t == k);
                            assert(adj@[t] == j);
                            assert(j < n);
                        }
                    }
                    k += 1;
                }
                proof {
                    assert forall|t1: int, t2: int|
                        0 <= t1 < out@.len() && 0 <= t2 < out@.len() && t1 != t2 implies
                        locations_model(out@)[t1] != locations_model(out@)[t2] by {
                        assert(adj@[t1] != adj@[t2]);
                        assert(adj@[t1] < n && adj@[t2] < n);
                        assert(out@[t1]@ == locs[adj@[t1] as int]);
                        assert(out@[t2]@ == locs[adj@[t2] as int]);
                    }
                    assert forall|v: LocationV|
                        locations_model(out@).contains(v) <==> self@.edges.contains((location@, v)) by {
                        if locations_model(out@).contains(v) {
                            let t = locations_model(out@).index_of(v);
                            assert(out@[t]@ == v);
                            let j = adj@[t];
                            assert(adj@.contains(j));
                            if es.count((idx as nat, j as nat)) > 0 {
                                assert(self.edges@.contains((locs[idx as int], locs[j as int])));
                            } else {
                                assert(es.count((j as nat, idx as nat)) > 0);
                                assert(self.edges@.contains((locs[j as int], locs[idx as int])));
                            }
                        }
                        if self@.edges.contains((location@, v)) {
                            assert(locs.contains(v));
                            let j = locs.index_of(v);
                            assert(self.edges@.contains((locs[idx as int], locs[j])));
                            assert(adj@.contains(j as usize));
                            let t = adj@.index_of(j as usize);
                            assert(locations_model(out@)[t] == v);
                        }
                    }
                }
                out
            },
            None => {
                proof {
                    assert forall|v: LocationV| !self@.edges.contains((location@, v)) by {
                        if self@.edges.contains((location@, v)) {
                            assert(self@.nodes.contains(location@));
                        }
                    }
                }
                let out: Vec<RvVarLocation> = Vec::new();
                assert(locations_model(out@) =~= Seq::<LocationV>::empty());
                out
            },
        }
    }

    /// All locations of the graph, in the order they were added.
    pub fn all_locations(&self) -> (r: Vec<RvVarLocation>)
        ensures
            locations_model(r@) == self@.nodes,
    {
        let mut out: Vec<RvVarLocation> = Vec::new();
        let mut i: usize = 0;
        while i < self.locations.len()
            invariant
                i <= self.locations.len(),
                out.len() == i,
                forall|t: int| 0 <= t < i ==> #[trigger] out@[t]@ == self.locations@[t]@,
            decreases self.locations.len() - i,
        {
            out.push(self.locations[i].clone());
            i += 1;
        }
        assert(locations_model(out@) =~= self@.nodes);
        out
    }

    /// Whether an edge joins `a` and `b`.
    pub fn has_edge(&self, a: &RvVarLocation, b: &RvVarLocation) -> (r: bool)
        requires
            self.wf(),
        ensures
            r == self@.edges.contains((a@, b@)),
    {
        match (self.index_of(a), self.index_of(b)) {
            (Some(i), Some(j)) => {
                let r = ungraph_contains_edge(&self.ungraph, i, j);
                proof {
                    let es = graph_edges(self.ungraph);
                    if r {
                        if es.count((i as nat, j as nat)) > 0 {
                        } else {
                            assert(self.edges@.contains((b@, a@)));
                        }
                    }
                }
                r
            },
            _ => {
                assert(!self@.edges.contains((a@, b@)));
                false
            },
        }
    }

    /// Whether `l` is a node of the graph.
    pub fn contains_location(&self, l: &RvVarLocation) -> (r: bool)
        ensures
            r == self@.nodes.contains(l@),
    {
        self.index_of(l).is_some()
    }

    /// The number of locations.
    pub fn node_count(&self) -> (n: usize)
        ensures
            n == self@.nodes.len(),
    {
        self.locations.len()
    }

    /// The number of edges.
    pub fn edge_count(&self) -> (n: usize)
        requires
            self.wf(),
        ensures
            n == edge_number(self@),
    {
        crate::ungraph::ungraph_edge_count(&self.ungraph)
    }
}

/// The total number of live locations over the instructions.
pub open spec fn total_live(instrs: Seq<RvVarInstrLiveness>) -> nat
    decreases instrs.len(),
{
    if instrs.len() == 0 {
        0
    } else {
        instrs[0].live@.len() + total_live(instrs.drop_first())
    }
}

/// Linking adds at most two locations and one edge.
proof fn lemma_link_growth(g: GraphV, a: LocationV, b: LocationV)
    requires
        g.edges.finite(),
    ensures
        link_spec(g, a, b).edges.finite(),
        link_spec(g, a, b).nodes.len() <= g.nodes.len() + 2,
        link_spec(g, a, b).edges.len() <= g.edges.len() + 2,
{
    if may_interfere(a, b) {
        let e1 = g.edges.insert((a, b));
        assert(e1.len() <= g.edges.len() + 1);
        assert(e1.insert((b, a)).len() <= e1.len() + 1);
    }
}

/// Links `write` with each location of `live`, in order.
fn link_write_with_live(
    graph: &mut RvVarLocationGraph,
    write: &RvVarLocation,
    live: &Vec<RvVarLocation>,
)
    requires
        old(graph).wf(),
        old(graph)@.nodes.len() + 2 * live.len() + 2 <= u32::MAX,
        edge_number(old(graph)@) + live.len() + 1 < u32::MAX,
    ensures
        final(graph).wf(),
        final(graph)@ == link_all_spec(old(graph)@, write@, locations_model(live@)),
        final(graph)@.nodes.len() <= old(graph)@.nodes.len() + 2 * live.len(),
        edge_number(final(graph)@) <= edge_number(old(graph)@) + live.len(),
{
    let ghost lv = locations_model(live@);
    let ghost g0 = graph@;
    let mut i: usize = 0;
    assert(lv.skip(0) =~= lv);
    while i < live.len()
        invariant
            graph.wf(),
            i <= live.len(),
            lv == locations_model(live@),
            link_all_spec(g0, write@, lv) == link_all_spec(graph@, write@, lv.skip(i as int)),
            graph@.nodes.len() <= g0.nodes.len() + 2 * i,
            edge_number(graph@) <= edge_number(g0) + i,
            g0.nodes.len() + 2 * live.len() + 2 <= u32::MAX,
            edge_number(g0) + live.len() + 1 < u32::MAX,
        decreases live.len() - i,
    {
        let ghost before = graph@;
        assert(lv.skip(i as int).drop_first() =~= lv.skip(i + 1));
        assert(lv.skip(i as int)[0] == live@[i as int]@);
        proof {
            graph.lemma_wf();
            lemma_link_growth(before, write@, live@[i as int]@);
        }
        graph.link(write, &live[i]);
        i += 1;
    }
}

/// Adds the edges of one instruction: the location it writes, unless there
/// is none or it is the zero register, joined with every location live
/// after it.
pub fn add_write_live_edge(graph: &mut RvVarLocationGraph, instr: &RvVarInstrLiveness)
    requires
        old(graph).wf(),
        old(graph)@.nodes.len() + 2 * instr.live.len() + 2 <= u32::MAX,
        edge_number(old(graph)@) + instr.live.len() + 1 < u32::MAX,
    ensures
        final(graph).wf(),
        final(graph)@ == write_live_spec(old(graph)@, *instr),
        final(graph)@.nodes.len() <= old(graph)@.nodes.len() + 2 * instr.live.len(),
        edge_number(final(graph)@) <= edge_number(old(graph)@) + instr.live.len(),
{
    if let Some(write) = instr.instr.dest_location() {
        if write == x(0) {
            return;
        }
        link_write_with_live(graph, &write, &instr.live);
    }
}

/// The interference graph of a block: each instruction's written location
/// joined with the locations live after it.
pub fn build_infer_graph(block: &RvVarBasicBlockLiveness) -> (graph: RvVarLocationGraph)
    requires
        2 * total_live(block.instrs@) + 2 <= u32::MAX,
    ensures
        graph.wf(),
        graph@ == write_live_all_spec(empty_graph(), block.instrs@),
{
    let mut graph = RvVarLocationGraph::new();
    let ghost all = block.instrs@;
    let mut i: usize = 0;
    assert(all.skip(0) =~= all);
    while i < block.instrs.len()
        invariant
            graph.wf(),
            i <= block.instrs.len(),
            all == block.instrs@,
            write_live_all_spec(empty_graph(), all) == write_live_all_spec(
                graph@,
                all.skip(i as int),
            ),
            graph@.nodes.len() + 2 * total_live(all.skip(i as int)) + 2 <= u32::MAX,
            edge_number(graph@) + total_live(all.skip(i as int)) + 1 < u32::MAX,
        decreases block.instrs.len() - i,
    {
        assert(all.skip(i as int).drop_first() =~= all.skip(i + 1));
        assert(all.skip(i as int)[0] == all[i as int]);
        add_write_live_edge(&mut graph, &block.instrs[i]);
        i += 1;
    }
    graph
}

/// `x` and `y` are `w` and one of `live`, either way round, and may
/// interfere.
pub open spec fn linked_by(w: LocationV, live: Seq<LocationV>, x: LocationV, y: LocationV) -> bool {
    exists|j: int|
        0 <= j < live.len() && may_interfere(w, #[trigger] live[j]) && ((x, y) == (w, live[j]) || (
        x,
        y,
    ) == (live[j], w))
}

/// The instruction joins `x` and `y`: it writes one of them, not the zero
/// register, while the other is live after it, and they may interfere.
pub open spec fn instr_links(i: RvVarInstrLiveness, x: LocationV, y: LocationV) -> bool {
    match dest_spec(i.instr) {
        Some(w) => w != zero_location() && linked_by(w, locations_model(i.live@), x, y),
        None => false,
    }
}

/// Some instruction of the sequence joins `x` and `y`.
pub open spec fn block_links(instrs: Seq<RvVarInstrLiveness>, x: LocationV, y: LocationV) -> bool {
    exists|k: int| 0 <= k < instrs.len() && instr_links(#[trigger] instrs[k], x, y)
}

/// `v` is on an edge of `g`.
pub open spec fn on_edge(g: GraphV, v: LocationV) -> bool {
    exists|u: LocationV| #[trigger] g.edges.contains((v, u))
}

proof fn lemma_link_edges(g: GraphV, a: LocationV, b: LocationV)
    ensures
        forall|x: LocationV, y: LocationV|
            #[trigger] link_spec(g, a, b).edges.contains((x, y)) <==> (g.edges.contains((x, y)) || (
            may_interfere(a, b) && ((x, y) == (a, b) || (x, y) == (b, a)))),
        forall|v: LocationV|
            #[trigger] link_spec(g, a, b).nodes.contains(v) <==> (g.nodes.contains(v) || (
            may_interfere(a, b) && (v == a || v == b))),
{
    if may_interfere(a, b) {
        let n1 = add_location_spec(g.nodes, a);
        assert forall|v: LocationV| #[trigger] n1.contains(v) <==> (g.nodes.contains(v) || v == a) by {
            if !g.nodes.contains(a) {
                if n1.contains(v) {
                    let i = n1.index_of(v);
                    if i < g.nodes.len() {
                        assert(g.nodes[i] == v);
                    }
                }
                if v == a {
                    assert(n1[g.nodes.len() as int] == a);
                }
                if g.nodes.contains(v) {
                    let i = g.nodes.index_of(v);
                    assert(n1[i] == v);
                }
            }
        }
        let n2 = add_location_spec(n1, b);
        assert forall|v: LocationV| #[trigger] n2.contains(v) <==> (n1.contains(v) || v == b) by {
            if !n1.contains(b) {
                if n2.contains(v) {
                    let i = n2.index_of(v);
                    if i < n1.len() {
                        assert(n1[i] == v);
                    }
                }
                if v == b {
                    assert(n2[n1.len() as int] == b);
                }
                if n1.contains(v) {
                    let i = n1.index_of(v);
                    assert(n2[i] == v);
                }
            }
        }
    }
}

/// Linking two locations is idempotent and, up to the order in which new
/// nodes are listed, symmetric: linking `a` and `b` again, either way round,
/// leaves the graph as it is, and linking `b` and `a` gives the same edges
/// and the same nodes as linking `a` and `b`.
pub proof fn lemma_link_idempotent_symmetric(g: GraphV, a: LocationV, b: LocationV)
    ensures
        link_spec(link_spec(g, a, b), a, b) == link_spec(g, a, b),
        link_spec(link_spec(g, a, b), b, a) == link_spec(g, a, b),
        link_spec(g, b, a).edges == link_spec(g, a, b).edges,
        link_spec(g, b, a).nodes.to_set() == link_spec(g, a, b).nodes.to_set(),
{
    let h = link_spec(g, a, b);
    lemma_link_edges(g, a, b);
    lemma_link_edges(g, b, a);
    if may_interfere(a, b) {
        assert(h.nodes.contains(a));
        assert(h.nodes.contains(b));
        assert(add_location_spec(h.nodes, a) == h.nodes);
        assert(add_location_spec(h.nodes, b) == h.nodes);
        assert(h.edges.insert((a, b)).insert((b, a)) =~= h.edges);
        assert(h.edges.insert((b, a)).insert((a, b)) =~= h.edges);
        assert(link_spec(g, b, a).edges =~= h.edges);
        assert(link_spec(g, b, a).nodes.to_set() =~= h.nodes.to_set());
    }
}

proof fn lemma_link_all_edges(g: GraphV, w: LocationV, live: Seq<LocationV>)
    ensures
        forall|x: LocationV, y: LocationV|
            #[trigger] link_all_spec(g, w, live).edges.contains((x, y)) <==> (g.edges.contains(
                (x, y),
            ) || linked_by(w, live, x, y)),
        forall|v: LocationV|
            #[trigger] link_all_spec(g, w, live).nodes.contains(v) <==> (g.nodes.contains(v) || (
            exists|u: LocationV| linked_by(w, live, v, u))),
    decreases live.len(),
{
    if live.len() > 0 {
        let g1 = link_spec(g, w, live[0]);
        let rest = live.drop_first();
        lemma_link_all_edges(g1, w, rest);
        lemma_link_edges(g, w, live[0]);
        let gl = link_all_spec(g, w, live);
        assert(gl == link_all_spec(g1, w, rest));
        assert forall|x: LocationV, y: LocationV|
            #[trigger] gl.edges.contains((x, y)) <==> (g.edges.contains((x, y)) || linked_by(
                w,
                live,
                x,
                y,
            )) by {
            let first = may_interfere(w, live[0]) && ((x, y) == (w, live[0]) || (x, y) == (
            live[0],
            w,
            ));
            if first {
                assert(linked_by(w, live, x, y));
            }
            if linked_by(w, rest, x, y) {
                let j = choose|j: int|
                    0 <= j < rest.len() && may_interfere(w, #[trigger] rest[j]) && ((x, y) == (
                    w,
                    rest[j],
                ) || (x, y) == (rest[j], w));
                assert(live[j + 1] == rest[j]);
                assert(linked_by(w, live, x, y));
            }
            if linked_by(w, live, x, y) {
                let j = choose|j: int|
                    0 <= j < live.len() && may_interfere(w, #[trigger] live[j]) && ((x, y) == (
                    w,
                    live[j],
                ) || (x, y) == (live[j], w));
                if j > 0 {
                    assert(rest[j - 1] == live[j]);
                    assert(linked_by(w, rest, x, y));
                } else {
                    assert(first);
                }
            }
        }
        assert forall|v: LocationV|
            #[trigger] gl.nodes.contains(v) <==> (g.nodes.contains(v) || (exists|u: LocationV|
                linked_by(w, live, v, u))) by {
            if g1.nodes.contains(v) && !g.nodes.contains(v) {
                assert(may_interfere(w, live[0]));
                if v == w {
                    assert(linked_by(w, live, v, live[0]));
                } else {
                    assert(v == live[0]);
                    assert(linked_by(w, live, v, w));
                }
            }
            if exists|u: LocationV| linked_by(w, rest, v, u) {
                let u = choose|u: LocationV| linked_by(w, rest, v, u);
                let j = choose|j: int|
                    0 <= j < rest.len() && may_interfere(w, #[trigger] rest[j]) && ((v, u) == (
                    w,
                    rest[j],
                ) || (v, u) == (rest[j], w));
                assert(live[j + 1] == rest[j]);
                assert(linked_by(w, live, v, u));
            }
            if exists|u: LocationV| linked_by(w, live, v, u) {
                let u = choose|u: LocationV| linked_by(w, live, v, u);
                let j = choose|j: int|
                    0 <= j < live.len() && may_interfere(w, #[trigger] live[j]) && ((v, u) == (
                    w,
                    live[j],
                ) || (v, u) == (live[j], w));
                if j > 0 {
                    assert(rest[j - 1] == live[j]);
                    assert(linked_by(w, rest, v, u));
                } else {
                    assert(g1.nodes.contains(v));
                }
            }
        }
    } else {
        assert forall|x: LocationV, y: LocationV| !linked_by(w, live, x, y) by {}
    }
}

proof fn lemma_write_live_all(g: GraphV, instrs: Seq<RvVarInstrLiveness>)
    ensures
        forall|x: LocationV, y: LocationV|
            #[trigger] write_live_all_spec(g, instrs).edges.contains((x, y)) <==> (
            g.edges.contains((x, y)) || block_links(instrs, x, y)),
        forall|v: LocationV|
            #[trigger] write_live_all_spec(g, instrs).nodes.contains(v) <==> (g.nodes.contains(v)
                || (exists|u: LocationV| block_links(instrs, v, u))),
    decreases instrs.len(),
{
    if instrs.len() > 0 {
        let i0 = instrs[0];
        let rest = instrs.drop_first();
        let g1 = write_live_spec(g, i0);
        lemma_write_live_all(g1, rest);
        let ga = write_live_all_spec(g, instrs);
        assert(ga == write_live_all_spec(g1, rest));
        match dest_spec(i0.instr) {
            Some(w) => {
                if w != zero_location() {
                    lemma_link_all_edges(g, w, locations_model(i0.live@));
                }
            },
            None => {},
        }
        assert forall|x: LocationV, y: LocationV|
            #[trigger] ga.edges.contains((x, y)) <==> (g.edges.contains((x, y)) || block_links(
                instrs,
                x,
                y,
            )) by {
            if g1.edges.contains((x, y)) && !g.edges.contains((x, y)) {
                assert(instr_links(instrs[0], x, y));
            }
            if instr_links(instrs[0], x, y) {
                assert(g1.edges.contains((x, y)));
            }
            if block_links(rest, x, y) {
                let k = choose|k: int| 0 <= k < rest.len() && instr_links(#[trigger] rest[k], x, y);
                assert(instrs[k + 1] == rest[k]);
            }
            if block_links(instrs, x, y) {
                let k = choose|k: int|
                    0 <= k < instrs.len() && instr_links(#[trigger] instrs[k], x, y);
                if k > 0 {
                    assert(rest[k - 1] == instrs[k]);
                    assert(block_links(rest, x, y));
                }
            }
        }
        assert forall|v: LocationV|
            #[trigger] ga.nodes.contains(v) <==> (g.nodes.contains(v) || (exists|u: LocationV|
                block_links(instrs, v, u))) by {
            if g1.nodes.contains(v) && !g.nodes.contains(v) {
                let w = dest_spec(i0.instr)->0;
                let u = choose|u: LocationV| linked_by(w, locations_model(i0.live@), v, u);
                assert(instr_links(instrs[0], v, u));
                assert(block_links(instrs, v, u));
            }
            if exists|u: LocationV| block_links(rest, v, u) {
                let u = choose|u: LocationV| block_links(rest, v, u);
                let k = choose|k: int| 0 <= k < rest.len() && instr_links(#[trigger] rest[k], v, u);
                assert(instrs[k + 1] == rest[k]);
                assert(block_links(instrs, v, u));
            }
            if exists|u: LocationV| block_links(instrs, v, u) {
                let u = choose|u: LocationV| block_links(instrs, v, u);
                let k = choose|k: int|
                    0 <= k < instrs.len() && instr_links(#[trigger] instrs[k], v, u);
                if k > 0 {
                    assert(rest[k - 1] == instrs[k]);
                    assert(block_links(rest, v, u));
                } else {
                    let w = dest_spec(i0.instr)->0;
                    assert(linked_by(w, locations_model(i0.live@), v, u));
                    assert(g1.nodes.contains(v));
                }
            }
        }
    } else {
        assert forall|x: LocationV, y: LocationV| !block_links(instrs, x, y) by {}
    }
}

/// The interference graph of a block has an edge between `a` and `b`
/// exactly when some instruction writes one of them while the other is
/// live after it, the two being distinct locations of one class, neither
/// the zero register.  Its locations are exactly those on an edge.
pub proof fn lemma_interference_graph(instrs: Seq<RvVarInstrLiveness>)
    ensures
        forall|a: LocationV, b: LocationV|
            #[trigger] write_live_all_spec(empty_graph(), instrs).edges.contains((a, b))
                <==> block_links(instrs, a, b),
        forall|v: LocationV|
            #[trigger] write_live_all_spec(empty_graph(), instrs).nodes.contains(v) <==> on_edge(
                write_live_all_spec(empty_graph(), instrs),
                v,
            ),
{
    let g = write_live_all_spec(empty_graph(), instrs);
    lemma_write_live_all(empty_graph(), instrs);
    assert forall|v: LocationV| #[trigger] g.nodes.contains(v) <==> on_edge(g, v) by {
        if g.nodes.contains(v) {
            assert(!empty_graph().nodes.contains(v));
            let u = choose|u: LocationV| block_links(instrs, v, u);
            assert(g.edges.contains((v, u)));
        }
        if on_edge(g, v) {
            let u = choose|u: LocationV| #[trigger] g.edges.contains((v, u));
            assert(block_links(instrs, v, u));
        }
    }
}

/// The register numbers a value may be given: `x5` to `x31`, without `x8`;
/// the 26 registers that are not reserved.
pub open spec fn allocatable_numbers() -> Seq<u8> {
    seq![5u8, 6u8, 7u8, 9u8, 10u8, 11u8, 12u8, 13u8, 14u8, 15u8, 16u8, 17u8, 18u8, 19u8, 20u8, 21u8, 22u8, 23u8, 24u8, 25u8, 26u8, 27u8, 28u8, 29u8, 30u8, 31u8]
}

/// The register numbers reserved for fixed uses: zero, return address,
/// stack, global and thread pointers, and frame pointer.
pub open spec fn non_allocatable_numbers() -> Seq<u8> {
    seq![0u8, 1u8, 2u8, 3u8, 4u8, 8u8]
}

/// The two register pools split the integer registers: each of `x0` to
/// `x31` is in exactly one of them, and 26 may be allocated.
pub proof fn lemma_register_pools_partition()
    ensures
        allocatable_numbers().len() == 26,
        forall|n: u8|
            n < 32 ==> (allocatable_numbers().contains(n) <==> !non_allocatable_numbers().contains(n)),
{
    let a = allocatable_numbers();
    let r = non_allocatable_numbers();
    assert forall|n: u8| n < 32 implies (a.contains(n) <==> !r.contains(n)) by {
        if n <= 4 || n == 8 {
            let j: int = if n == 8 { 5 } else { n as int };
            assert(r[j] == n);
            if a.contains(n) {
                let i = choose|i: int| 0 <= i < a.len() && a[i] == n;
                assert(a[i] >= 5 && a[i] != 8);
            }
        } else {
            let i: int = if n < 8 { n - 5 } else { n - 6 };
            assert(a[i] == n);
            if r.contains(n) {
                let j = choose|j: int| 0 <= j < r.len() && r[j] == n;
                assert(r[j] <= 4 || r[j] == 8);
            }
        }
    }
}

/// The integer registers with the given numbers.
pub open spec fn xregs(ns: Seq<u8>) -> Seq<LocationV> {
    Seq::new(ns.len(), |i: int| LocationV::IReg(IReg::spec_from_u8(ns[i])))
}

/// The integer registers with the given numbers, in order.
fn xregs_of(ns: &[u8]) -> (r: Vec<RvVarLocation>)
    requires
        forall|i: int| 0 <= i < ns@.len() ==> ns@[i] < 32,
    ensures
        locations_model(r@) == xregs(ns@),
{
    let mut out: Vec<RvVarLocation> = Vec::new();
    let mut i: usize = 0;
    while i < ns.len()
        invariant
            i <= ns@.len(),
            forall|j: int| 0 <= j < ns@.len() ==> ns@[j] < 32,
            out.len() == i,
            forall|t: int| 0 <= t < i ==> #[trigger] out@[t]@ == LocationV::IReg(
                IReg::spec_from_u8(ns@[t]),
            ),
        decreases ns@.len() - i,
    {
        out.push(x(ns[i]));
        i += 1;
    }
    assert(locations_model(out@) =~= xregs(ns@));
    out
}

/// The registers a value may be given: every integer register that is not
/// reserved for a fixed use.
pub fn allocatable_xregs() -> (r: Vec<RvVarLocation>)
    ensures
        locations_model(r@) == xregs(allocatable_numbers()),
{
    let ns: [u8; 26] = [5, 6, 7, 9, 10, 11, 12, 13, 14, 15, 16, 17, 18, 19, 20, 21, 22, 23, 24, 25, 26, 27, 28, 29, 30, 31];
    assert(ns@ == allocatable_numbers());
    xregs_of(&ns)
}

/// The registers reserved for fixed uses.
pub fn non_allocatable_xregs() -> (r: Vec<RvVarLocation>)
    ensures
        locations_model(r@) == xregs(non_allocatable_numbers()),
{
    let ns: [u8; 6] = [0, 1, 2, 3, 4, 8];
    assert(ns@ == non_allocatable_numbers());
    xregs_of(&ns)
}

/// The colour of each reserved register: `-1`, `-2`, and so on, in the order
/// of [`non_allocatable_xregs`].
pub fn non_allocatable_xregs_color() -> (r: Vec<(RvVarLocation, i8)>)
    ensures
        r@.len() == non_allocatable_numbers().len(),
        forall|i: int|
            0 <= i < r@.len() ==> (#[trigger] r@[i]).0@ == xregs(non_allocatable_numbers())[i]
                && r@[i].1 == -1 - i,
{
    let regs = non_allocatable_xregs();
    assert(regs@.len() == locations_model(regs@).len());
    let mut color_map: Vec<(RvVarLocation, i8)> = Vec::new();
    let mut c: i8 = -1;
    let mut i: usize = 0;
    while i < regs.len()
        invariant
            locations_model(regs@) == xregs(non_allocatable_numbers()),
            regs@.len() == 6,
            i <= regs.len(),
            c == -1 - i,
            color_map@.len() == i,
            forall|t: int|
                0 <= t < i ==> (#[trigger] color_map@[t]).0@ == xregs(non_allocatable_numbers())[t]
                    && color_map@[t].1 == -1 - t,
        decreases regs.len() - i,
    {
        assert(regs@[i as int]@ == xregs(non_allocatable_numbers())[i as int]);
        color_map.push((regs[i].clone(), c));
        c = c - 1;
        i += 1;
    }
    color_map
}

/// Whether `location` is a floating-point variable or register.
pub fn is_float_location(location: &RvVarLocation) -> (b: bool)
    ensures
        b == is_float_spec(location@),
{
    match location {
        RvVarLocation::FVar(_) | RvVarLocation::FReg(_) => true,
        _ => false,
    }
}

/// Whether `location` is an integer variable or register.
pub fn is_x_location(location: &RvVarLocation) -> (b: bool)
    ensures
        b == is_x_spec(location@),
{
    match location {
        RvVarLocation::IVar(_) | RvVarLocation::IReg(_) => true,
        _ => false,
    }
}

/// Mathematical model of a [`LocationStaturation`].
pub struct SatV {
    pub staturation: Seq<i8>,
    pub color: i8,
}

/// What colouring knows of one location: the colours of its neighbours, in
/// the order they were recorded, and its own colour, `0` while it has none.
pub struct LocationStaturation {
    pub staturation: Vec<i8>,
    pub color: i8,
}

impl View for LocationStaturation {
    type V = SatV;

    open spec fn view(&self) -> SatV {
        SatV { staturation: self.staturation@, color: self.color }
    }
}

/// A location that nothing is known of yet.
pub open spec fn fresh_sat() -> SatV {
    SatV { staturation: Seq::empty(), color: 0 }
}

/// How two saturations compare: by the number of colours recorded.
pub open spec fn staturation_order(a: usize, b: usize) -> Ordering {
    if a < b {
        Ordering::Less
    } else if a == b {
        Ordering::Equal
    } else {
        Ordering::Greater
    }
}

impl LocationStaturation {
    /// No colours recorded, and no colour.
    pub fn new() -> (s: Self)
        ensures
            s@ == fresh_sat(),
    {
        LocationStaturation { staturation: Vec::new(), color: 0 }
    }

    /// Compares by the number of colours recorded, and nothing else.
    pub fn cmp(&self, other: &Self) -> (r: Ordering)
        ensures
            r == staturation_order(self.staturation.len(), other.staturation.len()),
    {
        let a = self.staturation.len();
        let b = other.staturation.len();
        if a < b {
            Ordering::Less
        } else if a == b {
            Ordering::Equal
        } else {
            Ordering::Greater
        }
    }

    /// [`LocationStaturation::cmp`], which always gives an answer.
    pub fn partial_cmp(&self, other: &Self) -> (r: Option<Ordering>)
        ensures
            r == Some(staturation_order(self.staturation.len(), other.staturation.len())),
    {
        Some(self.cmp(other))
    }
}

/// Mathematical model of a saturation graph: the location of each node, by
/// index; the edges, as the pairs of node indices they were added with; and
/// for each location recorded, its node and its saturation.
pub struct StaturationGraphV {
    pub nodes: Seq<LocationV>,
    pub edges: Multiset<(nat, nat)>,
    pub entries: Map<LocationV, (nat, SatV)>,
}

/// A new node for `l`, which becomes `l`'s node with nothing recorded, even
/// where `l` had a node already.
pub open spec fn sat_add_location(g: StaturationGraphV, l: LocationV) -> StaturationGraphV {
    StaturationGraphV {
        nodes: g.nodes.push(l),
        edges: g.edges,
        entries: g.entries.insert(l, (g.nodes.len(), fresh_sat())),
    }
}

/// `c` recorded among the colours of `l`'s neighbours, if `l` is recorded.
pub open spec fn sat_add_staturation(g: StaturationGraphV, l: LocationV, c: i8) -> StaturationGraphV {
    if g.entries.dom().contains(l) {
        let e = g.entries[l];
        StaturationGraphV {
            nodes: g.nodes,
            edges: g.edges,
            entries: g.entries.insert(
                l,
                (e.0, SatV { staturation: e.1.staturation.push(c), color: e.1.color }),
            ),
        }
    } else {
        g
    }
}

/// `l` given the colour `c`, if `l` is recorded.
pub open spec fn sat_set_color(g: StaturationGraphV, l: LocationV, c: i8) -> StaturationGraphV {
    if g.entries.dom().contains(l) {
        let e = g.entries[l];
        StaturationGraphV {
            nodes: g.nodes,
            edges: g.edges,
            entries: g.entries.insert(l, (e.0, SatV { staturation: e.1.staturation, color: c })),
        }
    } else {
        g
    }
}

/// The graph after linking `a` and `b`, unless they are the same: `a` gets
/// a node if it has none; `a`'s node is looked up a second time in place of
/// `b`'s, so the edge added, where there is none yet, is a loop on `a`'s
/// node; then each of the two that has a colour has it recorded for the
/// other.
pub open spec fn sat_link(g: StaturationGraphV, a: LocationV, b: LocationV) -> StaturationGraphV {
    if a == b {
        g
    } else {
        let g1 = if g.entries.dom().contains(a) {
            g
        } else {
            sat_add_location(g, a)
        };
        let n1 = g1.entries[a].0;
        let g2 = if g1.edges.count((n1, n1)) > 0 {
            g1
        } else {
            StaturationGraphV { nodes: g1.nodes, edges: g1.edges.insert((n1, n1)), entries: g1.entries }
        };
        let c1 = g2.entries[a].1.color;
        let c2 = g2.entries[b].1.color;
        let g3 = if c1 != 0 {
            sat_add_staturation(g2, b, c1)
        } else {
            g2
        };
        if c2 != 0 {
            sat_add_staturation(g3, a, c2)
        } else {
            g3
        }
    }
}

/// The graph after linking each pair, in order.
pub open spec fn sat_link_all(g: StaturationGraphV, pairs: Seq<(LocationV, LocationV)>) -> StaturationGraphV
    decreases pairs.len(),
{
    if pairs.len() == 0 {
        g
    } else {
        sat_link_all(sat_link(g, pairs[0].0, pairs[0].1), pairs.drop_first())
    }
}

/// The colour of a reserved register: `-1` for the first of
/// [`non_allocatable_xregs`], `-2` for the next, and so on.
pub open spec fn reserved_color(l: LocationV) -> Option<i8> {
    let regs = xregs(non_allocatable_numbers());
    if regs.contains(l) {
        Some((-1 - regs.index_of(l)) as i8)
    } else {
        None
    }
}

/// The graph after adding a node for each location, in order, each
/// reserved register given its colour.
pub open spec fn sat_add_locations(g: StaturationGraphV, locs: Seq<LocationV>) -> StaturationGraphV
    decreases locs.len(),
{
    if locs.len() == 0 {
        g
    } else {
        let g1 = sat_add_location(g, locs[0]);
        let g2 = match reserved_color(locs[0]) {
            Some(c) => sat_set_color(g1, locs[0], c),
            None => g1,
        };
        sat_add_locations(g2, locs.drop_first())
    }
}

/// The graph that colouring works on: a node for each location recorded,
/// kept in a `petgraph` graph whose node `i` stands for `node_locations[i]`,
/// with each location's node and saturation.
pub struct RvVarLocationStaturationGraph {
    graph: Graph<u32, (), Undirected, u32>,
    node_locations: Vec<RvVarLocation>,
    locations: Vec<RvVarLocation>,
    location_nodes: Vec<usize>,
    staturations: Vec<LocationStaturation>,
    loops: Ghost<Set<int>>,
}

impl View for RvVarLocationStaturationGraph {
    type V = StaturationGraphV;

    closed spec fn view(&self) -> StaturationGraphV {
        let keys = locations_model(self.locations@);
        StaturationGraphV {
            nodes: locations_model(self.node_locations@),
            edges: graph_edges(self.graph),
            entries: Map::new(
                |l: LocationV| keys.contains(l),
                |l: LocationV|
                    (
                        self.location_nodes@[keys.index_of(l)] as nat,
                        self.staturations@[keys.index_of(l)]@,
                    ),
            ),
        }
    }
}

impl RvVarLocationStaturationGraph {
    /// The representation invariant: one `petgraph` node per node location;
    /// locations recorded once each, with a node and a saturation, the node
    /// standing for the location; and every edge a loop, on a distinct node.
    pub closed spec fn wf(&self) -> bool {
        let keys = locations_model(self.locations@);
        let n = self.node_locations.len();
        let es = graph_edges(self.graph);
        &&& graph_nodes(self.graph).len() == n
        &&& keys.no_duplicates()
        &&& self.location_nodes.len() == self.locations.len()
        &&& self.staturations.len() == self.locations.len()
        &&& forall|i: int|
            0 <= i < keys.len() ==> #[trigger] self.location_nodes@[i] < n
                && self.node_locations@[self.location_nodes@[i] as int]@ == keys[i]
        &&& self.loops@.finite()
        &&& forall|k: int| #[trigger] self.loops@.contains(k) ==> 0 <= k < n
        &&& es.len() == self.loops@.len()
        &&& forall|e: (nat, nat)|
            #[trigger] es.count(e) == if e.0 == e.1 && self.loops@.contains(e.0 as int) {
                1nat
            } else {
                0nat
            }
    }

    /// Each recorded location's entry is its node and saturation.
    proof fn lemma_entries(&self)
        requires
            self.wf(),
        ensures
            forall|i: int|
                0 <= i < self.locations.len() ==> #[trigger] self@.entries[self.locations@[i]@] == (
                self.location_nodes@[i] as nat,
                self.staturations@[i]@,
            ),
            forall|l: LocationV|
                self@.entries.dom().contains(l) <==> locations_model(self.locations@).contains(l),
    {
        let keys = locations_model(self.locations@);
        assert forall|i: int| 0 <= i < self.locations.len() implies #[trigger] self@.entries[self.locations@[i]@] == (
            self.location_nodes@[i] as nat,
            self.staturations@[i]@,
        ) by {
            assert(keys[i] == self.locations@[i]@);
            assert(keys.contains(keys[i]));
            let j = keys.index_of(keys[i]);
            assert(keys[j] == keys[i]);
        }
    }

    /// An empty saturation graph; `location_graph` is not read.
    pub fn new(location_graph: &RvVarLocationGraph) -> (g: Self)
        ensures
            g.wf(),
            g@.nodes == Seq::<LocationV>::empty(),
            g@.edges == Multiset::<(nat, nat)>::empty(),
            g@.entries == Map::<LocationV, (nat, SatV)>::empty(),
    {
        let g = RvVarLocationStaturationGraph {
            graph: new_ungraph(),
            node_locations: Vec::new(),
            locations: Vec::new(),
            location_nodes: Vec::new(),
            staturations: Vec::new(),
            loops: Ghost(Set::empty()),
        };
        assert(locations_model(g.node_locations@) =~= Seq::<LocationV>::empty());
        assert(g@.entries =~= Map::<LocationV, (nat, SatV)>::empty());
        g
    }

    /// The index of `l` among the recorded locations, if it is one.
    fn find(&self, l: &RvVarLocation) -> (r: Option<usize>)
        ensures
            match r {
                Some(i) => i < self.locations.len() && self.locations@[i as int]@ == l@,
                None => !locations_model(self.locations@).contains(l@),
            },
    {
        let mut i: usize = 0;
        while i < self.locations.len()
            invariant
                i <= self.locations.len(),
                forall|j: int| 0 <= j < i ==> self.locations@[j]@ != l@,
            decreases self.locations.len() - i,
        {
            if self.locations[i] == *l {
                return Some(i);
            }
            i += 1;
        }
        proof {
            if locations_model(self.locations@).contains(l@) {
                let j = locations_model(self.locations@).index_of(l@);
                assert(self.locations@[j]@ == l@);
            }
        }
        None
    }
}

impl RvVarLocationStaturationGraph {
    /// Adds a new node for `location`, which becomes its node, with nothing
    /// recorded, even where it had a node already; returns the new node's
    /// index.
    pub fn add_location(&mut self, location: &RvVarLocation) -> (idx: usize)
        requires
            old(self).wf(),
            old(self)@.nodes.len() < u32::MAX,
        ensures
            final(self).wf(),
            final(self)@ == sat_add_location(old(self)@, location@),
            idx == old(self)@.nodes.len(),
    {
        let ghost g0 = self@;
        let ghost keys0 = locations_model(self.locations@);
        let ghost locs0 = self.locations@;
        let ghost nodes0 = self.location_nodes@;
        let ghost sats0 = self.staturations@;
        let ghost es0 = graph_edges(self.graph);
        proof {
            self.lemma_entries();
        }
        let n = self.node_locations.len();
        let idx = ungraph_add_node(&mut self.graph, n as u32);
        self.node_locations.push(location.clone());
        let ghost pos: int;
        match self.find(location) {
            Some(i) => {
                self.location_nodes.set(i, idx);
                self.staturations.set(i, LocationStaturation::new());
                proof {
                    pos = i as int;
                }
            },
            None => {
                self.locations.push(location.clone());
                self.location_nodes.push(idx);
                self.staturations.push(LocationStaturation::new());
                proof {
                    pos = locs0.len() as int;
                    let keys = locations_model(self.locations@);
                    assert(keys =~= keys0.push(location@));
                    assert forall|a: int, b: int| 0 <= a < keys.len() && 0 <= b < keys.len() && a != b
                        implies keys[a] != keys[b] by {
                        if a < keys0.len() && b < keys0.len() {
                            assert(keys0[a] != keys0[b]);
                        } else if a == keys0.len() {
                            assert(keys0.contains(keys[b]) ==> keys[b] != location@);
                            assert(keys0[b] == keys[b]);
                        } else {
                            assert(keys0[a] == keys[a]);
                        }
                    }
                }
            },
        }
        proof {
            let keys = locations_model(self.locations@);
            let n1 = self.node_locations.len();
            assert(locations_model(self.node_locations@) =~= g0.nodes.push(location@));
            assert(graph_edges(self.graph) == es0);
            assert(0 <= pos < self.locations.len());
            assert(self.locations@[pos]@ == location@);
            assert(self.location_nodes@[pos] == idx);
            assert forall|i: int|
                0 <= i < keys.len() implies #[trigger] self.location_nodes@[i] < n1
                    && self.node_locations@[self.location_nodes@[i] as int]@ == keys[i] by {
                if i != pos {
                    assert(i < keys0.len());
                    assert(self.location_nodes@[i] == nodes0[i]);
                    assert(nodes0[i] < n);
                    assert(keys[i] == keys0[i]);
                }
            }
            assert(self.wf());
            self.lemma_entries();
            let want = g0.entries.insert(location@, (n as nat, fresh_sat()));
            assert forall|k: LocationV| self@.entries.dom().contains(k) <==> want.dom().contains(k) by {
                if keys.contains(k) && k != location@ {
                    let j = keys.index_of(k);
                    assert(j != pos);
                    assert(keys0[j] == k);
                }
                if keys0.contains(k) {
                    let j = keys0.index_of(k);
                    assert(keys[j] == k);
                }
            }
            assert forall|k: LocationV| #[trigger] self@.entries.dom().contains(k) implies self@.entries[k]
                == want[k] by {
                if k == location@ {
                    assert(self@.entries[self.locations@[pos]@] == (
                        self.location_nodes@[pos] as nat,
                        self.staturations@[pos]@,
                    ));
                } else {
                    let j = keys0.index_of(k);
                    assert(keys0[j] == k);
                    assert(j != pos);
                    assert(locs0[j]@ == k);
                    assert(g0.entries[locs0[j]@] == (nodes0[j] as nat, sats0[j]@));
                    assert(self.locations@[j] == locs0[j]);
                    assert(self@.entries[self.locations@[j]@] == (
                        self.location_nodes@[j] as nat,
                        self.staturations@[j]@,
                    ));
                }
            }
            assert(self@.entries =~= want);
        }
        idx
    }
}

impl RvVarLocationStaturationGraph {
    /// Records `color` among the colours of `location`'s neighbours, if
    /// `location` is recorded; else does nothing.
    pub fn add_staturation(&mut self, location: &RvVarLocation, color: i8)
        requires
            old(self).wf(),
        ensures
            final(self).wf(),
            final(self)@ == sat_add_staturation(old(self)@, location@, color),
    {
        let ghost g0 = self@;
        let ghost locs0 = self.locations@;
        let ghost sats0 = self.staturations@;
        proof {
            self.lemma_entries();
        }
        if let Some(i) = self.find(location) {
            let mut st = self.staturations[i].staturation.clone();
            st.push(color);
            let c = self.staturations[i].color;
            self.staturations.set(i, LocationStaturation { staturation: st, color: c });
            proof {
                self.lemma_entries();
                self.lemma_same_keys_entries(g0, locs0, sats0, i as int);
            }
        }
    }

    /// Gives `location` the colour `color`, if it is recorded; else does
    /// nothing.
    pub fn set_color(&mut self, location: &RvVarLocation, color: i8)
        requires
            old(self).wf(),
        ensures
            final(self).wf(),
            final(self)@ == sat_set_color(old(self)@, location@, color),
    {
        let ghost g0 = self@;
        let ghost locs0 = self.locations@;
        let ghost sats0 = self.staturations@;
        proof {
            self.lemma_entries();
        }
        if let Some(i) = self.find(location) {
            let st = self.staturations[i].staturation.clone();
            self.staturations.set(i, LocationStaturation { staturation: st, color });
            proof {
                self.lemma_entries();
                self.lemma_same_keys_entries(g0, locs0, sats0, i as int);
            }
        }
    }

    /// Where only the saturation at `i` changed, the entries changed only at
    /// the `i`-th location.
    proof fn lemma_same_keys_entries(
        &self,
        g0: StaturationGraphV,
        locs0: Seq<RvVarLocation>,
        sats0: Seq<LocationStaturation>,
        i: int,
    )
        requires
            self.wf(),
            0 <= i < self.locations.len(),
            locs0 == self.locations@,
            sats0.len() == self.staturations.len(),
            forall|j: int| 0 <= j < sats0.len() && j != i ==> sats0[j] == self.staturations@[j],
            g0.entries.dom() == self@.entries.dom(),
            forall|j: int|
                0 <= j < locs0.len() ==> #[trigger] g0.entries[locs0[j]@] == (
                    self.location_nodes@[j] as nat,
                    sats0[j]@,
                ),
        ensures
            self@.entries == g0.entries.insert(
                locs0[i]@,
                (self.location_nodes@[i] as nat, self.staturations@[i]@),
            ),
    {
        self.lemma_entries();
        let keys = locations_model(self.locations@);
        let want = g0.entries.insert(locs0[i]@, (self.location_nodes@[i] as nat, self.staturations@[i]@));
        assert(keys[i] == locs0[i]@);
        assert forall|k: LocationV| #[trigger] self@.entries.dom().contains(k) implies self@.entries[k]
            == want[k] by {
            let j = keys.index_of(k);
            assert(keys[j] == k);
            assert(self@.entries[self.locations@[j]@] == (
                self.location_nodes@[j] as nat,
                self.staturations@[j]@,
            ));
            if j != i {
                assert(keys[j] != keys[i]);
                assert(g0.entries[locs0[j]@] == (self.location_nodes@[j] as nat, sats0[j]@));
            }
        }
        assert(self@.entries =~= want);
    }
}

impl RvVarLocationStaturationGraph {
    /// The index among the recorded locations of `l`, which is recorded.
    fn entry_index(&self, l: &RvVarLocation) -> (i: usize)
        requires
            self.wf(),
            self@.entries.dom().contains(l@),
        ensures
            i < self.locations.len(),
            self.locations@[i as int]@ == l@,
            self@.entries[l@] == (self.location_nodes@[i as int] as nat, self.staturations@[i as int]@),
    {
        proof {
            self.lemma_entries();
        }
        let i = self.find(l).unwrap();
        i
    }

    /// Links two locations, unless they are the same.  `location1` gets a
    /// node if it has none.  The second lookup is by `location1` too, so the
    /// edge added, where there is none yet, is a loop on `location1`'s node,
    /// and `location2` gets no node here.  Then each of the two that has a
    /// colour has it recorded for the other.
    pub fn link(&mut self, location1: &RvVarLocation, location2: &RvVarLocation)
        requires
            old(self).wf(),
            old(self)@.nodes.len() < u32::MAX,
            location1@ != location2@ ==> old(self)@.entries.dom().contains(location2@),
        ensures
            final(self).wf(),
            final(self)@ == sat_link(old(self)@, location1@, location2@),
    {
        if *location1 == *location2 {
            return;
        }
        let ghost g0 = self@;
        proof {
            self.lemma_entries();
        }
        let node1 = match self.find(location1) {
            Some(i) => self.location_nodes[i],
            None => self.add_location(location1),
        };
        let ghost g1 = self@;
        proof {
            self.lemma_entries();
            assert(g1.entries.dom().contains(location1@));
            assert(g1.entries.dom().contains(location2@));
            assert(g1.entries[location1@].0 == node1);
            assert(g1.nodes.len() <= g0.nodes.len() + 1);
        }
        let node2 = match self.find(location1) {
            Some(i) => self.location_nodes[i],
            None => self.add_location(location2),
        };
        assert(node2 == node1);
        if !ungraph_contains_edge(&self.graph, node1, node2) {
            let ghost n = self.node_locations.len();
            let ghost loops0 = self.loops@;
            let ghost es0 = graph_edges(self.graph);
            proof {
                assert(es0.count((node1 as nat, node1 as nat)) == 0);
                assert(!loops0.contains(node1 as int));
                lemma_int_range(0, n as int);
                assert(loops0.insert(node1 as int).subset_of(set_int_range(0, n as int)));
                lemma_len_subset(loops0.insert(node1 as int), set_int_range(0, n as int));
                assert(loops0.insert(node1 as int).len() == loops0.len() + 1);
                assert(n == g1.nodes.len());
                assert(es0.len() == loops0.len());
            }
            ungraph_add_edge(&mut self.graph, node1, node2);
            self.loops = Ghost(loops0.insert(node1 as int));
            proof {
                let es = graph_edges(self.graph);
                assert forall|e: (nat, nat)|
                    #[trigger] es.count(e) == if e.0 == e.1 && self.loops@.contains(e.0 as int) {
                        1nat
                    } else {
                        0nat
                    } by {
                    assert(es0.count(e) == if e.0 == e.1 && loops0.contains(e.0 as int) {
                        1nat
                    } else {
                        0nat
                    });
                }
                assert(self.wf());
                assert(self@.entries == g1.entries);
            }
        }
        let ghost g2 = self@;
        proof {
            assert(g2.nodes == g1.nodes && g2.entries == g1.entries);
        }
        let i1 = self.entry_index(location1);
        let color1 = self.staturations[i1].color;
        let i2 = self.entry_index(location2);
        let color2 = self.staturations[i2].color;
        if color1 != 0 {
            self.add_staturation(location2, color1);
        }
        if color2 != 0 {
            self.add_staturation(location1, color2);
        }
    }
}

/// Linking each pair of `s` and then `p` is linking each pair of `s.push(p)`.
proof fn lemma_sat_link_all_push(g: StaturationGraphV, s: Seq<(LocationV, LocationV)>, p: (LocationV, LocationV))
    ensures
        sat_link_all(g, s.push(p)) == sat_link(sat_link_all(g, s), p.0, p.1),
    decreases s.len(),
{
    if s.len() == 0 {
        assert(s.push(p).drop_first() =~= Seq::<(LocationV, LocationV)>::empty());
        assert(s.push(p)[0] == p);
        assert(sat_link_all(sat_link(g, p.0, p.1), Seq::<(LocationV, LocationV)>::empty())
            == sat_link(g, p.0, p.1));
    } else {
        assert(s.push(p).drop_first() =~= s.drop_first().push(p));
        assert(s.push(p)[0] == s[0]);
        lemma_sat_link_all_push(sat_link(g, s[0].0, s[0].1), s.drop_first(), p);
    }
}

/// Linking a location that has a node with one that has an entry adds no
/// node and records no location.
proof fn lemma_sat_link_keeps(g: StaturationGraphV, a: LocationV, b: LocationV)
    requires
        g.entries.dom().contains(a),
        g.entries.dom().contains(b),
    ensures
        sat_link(g, a, b).nodes == g.nodes,
        sat_link(g, a, b).entries.dom() == g.entries.dom(),
{
    if a != b {
        let n1 = g.entries[a].0;
        let g2 = if g.edges.count((n1, n1)) > 0 {
            g
        } else {
            StaturationGraphV { nodes: g.nodes, edges: g.edges.insert((n1, n1)), entries: g.entries }
        };
        let c1 = g2.entries[a].1.color;
        let g3 = if c1 != 0 {
            sat_add_staturation(g2, b, c1)
        } else {
            g2
        };
        assert(g3.entries.dom() =~= g.entries.dom());
        assert(sat_link(g, a, b).entries.dom() =~= g.entries.dom());
    }
}

/// The reserved registers are distinct.
proof fn lemma_reserved_distinct()
    ensures
        xregs(non_allocatable_numbers()).no_duplicates(),
        xregs(non_allocatable_numbers()).len() == 6,
{
    let r = xregs(non_allocatable_numbers());
    assert(r[0] == LocationV::IReg(IReg::ZERO));
    assert(r[1] == LocationV::IReg(IReg::RA));
    assert(r[2] == LocationV::IReg(IReg::SP));
    assert(r[3] == LocationV::IReg(IReg::GP));
    assert(r[4] == LocationV::IReg(IReg::TP));
    assert(r[5] == LocationV::IReg(IReg::S0));
}

/// Whether `l` is one of `v`.
fn contains_location(v: &Vec<RvVarLocation>, l: &RvVarLocation) -> (r: bool)
    ensures
        r == locations_model(v@).contains(l@),
{
    let mut i: usize = 0;
    while i < v.len()
        invariant
            i <= v.len(),
            forall|j: int| 0 <= j < i ==> v@[j]@ != l@,
        decreases v.len() - i,
    {
        if v[i] == *l {
            assert(locations_model(v@)[i as int] == l@);
            return true;
        }
        i += 1;
    }
    proof {
        if locations_model(v@).contains(l@) {
            let j = locations_model(v@).index_of(l@);
            assert(v@[j]@ == l@);
        }
    }
    false
}

/// The colour that `colors` gives the reserved register `l`.
fn reserved_color_in(colors: &Vec<(RvVarLocation, i8)>, l: &RvVarLocation) -> (c: i8)
    requires
        colors@.len() == non_allocatable_numbers().len(),
        forall|i: int|
            0 <= i < colors@.len() ==> (#[trigger] colors@[i]).0@ == xregs(non_allocatable_numbers())[i]
                && colors@[i].1 == -1 - i,
        xregs(non_allocatable_numbers()).contains(l@),
    ensures
        reserved_color(l@) == Some(c),
{
    let ghost regs = xregs(non_allocatable_numbers());
    proof {
        lemma_reserved_distinct();
    }
    let mut i: usize = 0;
    while i < colors.len()
        invariant
            regs == xregs(non_allocatable_numbers()),
            regs.no_duplicates(),
            regs.len() == 6,
            regs.contains(l@),
            colors@.len() == 6,
            forall|t: int|
                0 <= t < colors@.len() ==> (#[trigger] colors@[t]).0@ == regs[t] && colors@[t].1 == -1 - t,
            i <= colors.len(),
            forall|j: int| 0 <= j < i ==> regs[j] != l@,
        decreases colors.len() - i,
    {
        if colors[i].0 == *l {
            let c = colors[i].1;
            proof {
                let j = regs.index_of(l@);
                assert(regs[j] == l@);
                assert(regs[i as int] == l@);
                assert(j == i);
            }
            return c;
        }
        i += 1;
    }
    proof {
        let j = regs.index_of(l@);
        assert(regs[j] == l@);
    }
    0
}

impl RvVarLocationStaturationGraph {
    /// Fills the graph from an interference graph.  First each of its
    /// locations, in order, gets a new node with nothing recorded, and each
    /// reserved register its colour.  Then each location is linked with each
    /// of its neighbours: every edge of the interference graph, taken in
    /// each direction, is linked once, in an order left to
    /// [`RvVarLocationGraph::neighbors`].
    pub fn init(&mut self, location_graph: &RvVarLocationGraph)
        requires
            old(self).wf(),
            location_graph.wf(),
            old(self)@.nodes.len() + location_graph@.nodes.len() < u32::MAX,
        ensures
            final(self).wf(),
            exists|pairs: Seq<(LocationV, LocationV)>|
                {
                    &&& pairs.no_duplicates()
                    &&& forall|p: (LocationV, LocationV)|
                        pairs.contains(p) <==> location_graph@.edges.contains(p)
                    &&& final(self)@ == sat_link_all(
                        sat_add_locations(old(self)@, location_graph@.nodes),
                        pairs,
                    )
                },
    {
        let ghost g0 = self@;
        let non_allocatable = non_allocatable_xregs();
        let non_allocatable_colors = non_allocatable_xregs_color();
        let all_locations = location_graph.all_locations();
        let ghost locs = location_graph@.nodes;
        proof {
            location_graph.lemma_wf();
            assert(locations_model(all_locations@) == locs);
            assert(all_locations@.len() == locs.len());
            assert(locs.skip(0) =~= locs);
        }
        let mut i: usize = 0;
        while i < all_locations.len()
            invariant
                self.wf(),
                location_graph.wf(),
                locations_model(non_allocatable@) == xregs(non_allocatable_numbers()),
                non_allocatable_colors@.len() == non_allocatable_numbers().len(),
                forall|t: int|
                    0 <= t < non_allocatable_colors@.len() ==> (#[trigger] non_allocatable_colors@[t]).0@
                        == xregs(non_allocatable_numbers())[t] && non_allocatable_colors@[t].1 == -1 - t,
                locs == location_graph@.nodes,
                locations_model(all_locations@) == locs,
                all_locations@.len() == locs.len(),
                i <= all_locations.len(),
                g0.nodes.len() + locs.len() < u32::MAX,
                self@.nodes.len() == g0.nodes.len() + i,
                sat_add_locations(g0, locs) == sat_add_locations(self@, locs.skip(i as int)),
                forall|j: int| 0 <= j < i ==> self@.entries.dom().contains(#[trigger] locs[j]),
            decreases all_locations.len() - i,
        {
            let location = &all_locations[i];
            let ghost before = self@;
            assert(location@ == locs[i as int]);
            assert(locs.skip(i as int)[0] == locs[i as int]);
            assert(locs.skip(i as int).drop_first() =~= locs.skip(i + 1));
            self.add_location(location);
            if contains_location(&non_allocatable, location) {
                let color = reserved_color_in(&non_allocatable_colors, location);
                self.set_color(location, color);
            }
            proof {
                let g1 = sat_add_location(before, location@);
                assert(self@ == match reserved_color(location@) {
                    Some(c) => sat_set_color(g1, location@, c),
                    None => g1,
                });
                assert forall|j: int| 0 <= j < i + 1 implies self@.entries.dom().contains(#[trigger] locs[j]) by {
                    assert(before.entries.dom().contains(locs[j]) || j == i);
                }
            }
            i += 1;
        }
        let ghost ga = self@;
        proof {
            assert(locs.skip(i as int) =~= Seq::<LocationV>::empty());
            assert(ga == sat_add_locations(g0, locs));
        }
        let ghost mut pairs: Seq<(LocationV, LocationV)> = Seq::empty();
        i = 0;
        while i < all_locations.len()
            invariant
                self.wf(),
                location_graph.wf(),
                locs == location_graph@.nodes,
                locs.no_duplicates(),
                locations_model(all_locations@) == locs,
                all_locations@.len() == locs.len(),
                i <= all_locations.len(),
                self@.nodes.len() == ga.nodes.len(),
                ga.nodes.len() < u32::MAX,
                self@.entries.dom() == ga.entries.dom(),
                forall|j: int| 0 <= j < locs.len() ==> ga.entries.dom().contains(#[trigger] locs[j]),
                self@ == sat_link_all(ga, pairs),
                pairs.no_duplicates(),
                forall|p: (LocationV, LocationV)|
                    #[trigger] pairs.contains(p) <==> (location_graph@.edges.contains(p)
                        && locs.subrange(0, i as int).contains(p.0)),
            decreases all_locations.len() - i,
        {
            let location = &all_locations[i];
            assert(location@ == locs[i as int]);
            let neighbors = location_graph.neighbors(location);
            let ghost nb = locations_model(neighbors@);
            let mut k: usize = 0;
            while k < neighbors.len()
                invariant
                    self.wf(),
                    location_graph.wf(),
                    locs == location_graph@.nodes,
                    locs.no_duplicates(),
                    i < locs.len(),
                    location@ == locs[i as int],
                    nb == locations_model(neighbors@),
                    nb.no_duplicates(),
                    forall|v: LocationV| nb.contains(v) <==> location_graph@.edges.contains((location@, v)),
                    k <= neighbors.len(),
                    self@.nodes.len() == ga.nodes.len(),
                    ga.nodes.len() < u32::MAX,
                    self@.entries.dom() == ga.entries.dom(),
                    forall|j: int| 0 <= j < locs.len() ==> ga.entries.dom().contains(#[trigger] locs[j]),
                    self@ == sat_link_all(ga, pairs),
                    pairs.no_duplicates(),
                    forall|p: (LocationV, LocationV)|
                        #[trigger] pairs.contains(p) <==> (location_graph@.edges.contains(p) && (
                        locs.subrange(0, i as int).contains(p.0) || (p.0 == location@
                            && nb.subrange(0, k as int).contains(p.1)))),
                decreases neighbors.len() - k,
            {
                let neighbor = &neighbors[k];
                let ghost p = (location@, neighbor@);
                let ghost before = self@;
                proof {
                    location_graph.lemma_wf();
                    assert(nb[k as int] == neighbor@);
                    assert(nb.contains(neighbor@));
                    assert(location_graph@.edges.contains(p));
                    assert(locs.contains(neighbor@));
                    let jn = locs.index_of(neighbor@);
                    assert(ga.entries.dom().contains(locs[jn]));
                    assert(ga.entries.dom().contains(locs[i as int]));
                    lemma_sat_link_keeps(before, location@, neighbor@);
                    lemma_sat_link_all_push(ga, pairs, p);
                    if pairs.contains(p) {
                        if locs.subrange(0, i as int).contains(location@) {
                            let t = locs.subrange(0, i as int).index_of(location@);
                            assert(locs[t] == locs[i as int]);
                        } else {
                            let t = nb.subrange(0, k as int).index_of(neighbor@);
                            assert(nb[t] == nb[k as int]);
                        }
                    }
                    assert forall|a: int, b: int|
                        0 <= a < pairs.push(p).len() && 0 <= b < pairs.push(p).len() && a != b implies
                        pairs.push(p)[a] != pairs.push(p)[b] by {
                        if a < pairs.len() && b < pairs.len() {
                            assert(pairs[a] != pairs[b]);
                        } else if a == pairs.len() {
                            assert(pairs.contains(pairs[b]));
                        } else {
                            assert(pairs.contains(pairs[a]));
                        }
                    }
                    assert forall|q: (LocationV, LocationV)|
                        #[trigger] pairs.push(p).contains(q) <==> (location_graph@.edges.contains(q) && (
                        locs.subrange(0, i as int).contains(q.0) || (q.0 == location@
                            && nb.subrange(0, k + 1).contains(q.1)))) by {
                        if pairs.push(p).contains(q) && q != p {
                            let t = pairs.push(p).index_of(q);
                            assert(pairs[t] == q);
                            assert(pairs.contains(q));
                            if nb.subrange(0, k as int).contains(q.1) {
                                let u = nb.subrange(0, k as int).index_of(q.1);
                                assert(nb.subrange(0, k + 1)[u] == q.1);
                            }
                        }
                        if q == p {
                            assert(pairs.push(p)[pairs.len() as int] == p);
                            assert(nb.subrange(0, k + 1)[k as int] == q.1);
                        }
                        if location_graph@.edges.contains(q) && q.0 == location@
                            && nb.subrange(0, k + 1).contains(q.1) && q != p {
                            let u = nb.subrange(0, k + 1).index_of(q.1);
                            assert(u != k);
                            assert(nb.subrange(0, k as int)[u] == q.1);
                        }
                        if pairs.contains(q) {
                            let t = pairs.index_of(q);
                            assert(pairs.push(p)[t] == q);
                        }
                    }
                }
                self.link(location, neighbor);
                proof {
                    pairs = pairs.push(p);
                }
                k += 1;
            }
            proof {
                assert forall|q: (LocationV, LocationV)|
                    #[trigger] pairs.contains(q) <==> (location_graph@.edges.contains(q)
                        && locs.subrange(0, i + 1).contains(q.0)) by {
                    assert(nb.subrange(0, k as int) =~= nb);
                    if locs.subrange(0, i as int).contains(q.0) {
                        let t = locs.subrange(0, i as int).index_of(q.0);
                        assert(locs.subrange(0, i + 1)[t] == q.0);
                    }
                    if q.0 == location@ {
                        assert(locs.subrange(0, i + 1)[i as int] == q.0);
                    }
                    if locs.subrange(0, i + 1).contains(q.0) && q.0 != location@ {
                        let t = locs.subrange(0, i + 1).index_of(q.0);
                        assert(t != i);
                        assert(locs.subrange(0, i as int)[t] == q.0);
                    }
                }
            }
            i += 1;
        }
        proof {
            location_graph.lemma_wf();
            assert(locs.subrange(0, i as int) =~= locs);
            assert forall|p: (LocationV, LocationV)|
                pairs.contains(p) <==> location_graph@.edges.contains(p) by {
                if location_graph@.edges.contains((p.0, p.1)) {
                    assert(location_graph@.nodes.contains(p.0));
                }
            }
            assert({
                &&& pairs.no_duplicates()
                &&& forall|p: (LocationV, LocationV)|
                    pairs.contains(p) <==> location_graph@.edges.contains(p)
                &&& self@ == sat_link_all(sat_add_locations(g0, location_graph@.nodes), pairs)
            });
        }
    }
}

impl RvVarLocationStaturationGraph {
    /// `location`'s node, the colours recorded for it and its colour, if it
    /// is recorded.
    pub fn entry(&self, location: &RvVarLocation) -> (r: Option<(usize, Vec<i8>, i8)>)
        requires
            self.wf(),
        ensures
            match r {
                Some(e) => self@.entries.dom().contains(location@) && self@.entries[location@] == (
                    e.0 as nat,
                    SatV { staturation: e.1@, color: e.2 },
                ),
                None => !self@.entries.dom().contains(location@),
            },
    {
        proof {
            self.lemma_entries();
        }
        match self.find(location) {
            Some(i) => {
                let st = self.staturations[i].staturation.clone();
                Some((self.location_nodes[i], st, self.staturations[i].color))
            },
            None => None,
        }
    }

    /// The number of nodes.
    pub fn node_count(&self) -> (n: usize)
        requires
            self.wf(),
        ensures
            n == self@.nodes.len(),
    {
        crate::ungraph::ungraph_node_count(&self.graph)
    }

    /// The number of edges.
    pub fn edge_count(&self) -> (n: usize)
        ensures
            n == self@.edges.len(),
    {
        crate::ungraph::ungraph_edge_count(&self.graph)
    }
}

} // verus!
