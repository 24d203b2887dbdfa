use intu::allocate_registers_rv_var::{
    build_infer_graph, LocationStaturation, RvVarLocationGraph, RvVarLocationStaturationGraph,
};
use intu::liveness_rv_var::{RvVarBasicBlockLiveness, RvVarInstrLiveness};
use intu::riscv_var::instruction::RvVarInstr;
use intu::riscv_var::label::Label;
use intu::riscv_var::location::{var, x, RvVarLocation};
use std::cmp::Ordering;

fn ivar(name: &str) -> RvVarLocation {
    var(name.to_string())
}

fn block_graph(instrs: Vec<RvVarInstrLiveness>) -> RvVarLocationGraph {
    let block = RvVarBasicBlockLiveness {
        name: Label::new("bb".to_string()),
        instrs,
        live_out: Vec::new(),
    };
    build_infer_graph(&block)
}

#[test]
fn staturation_graph_starts_empty() {
    let lg = RvVarLocationGraph::new();
    let g = RvVarLocationStaturationGraph::new(&lg);
    assert_eq!(g.node_count(), 0);
    assert_eq!(g.edge_count(), 0);
    assert!(g.entry(&ivar("a")).is_none());
}

#[test]
fn add_location_gives_a_fresh_node_each_time() {
    let lg = RvVarLocationGraph::new();
    let mut g = RvVarLocationStaturationGraph::new(&lg);
    assert_eq!(g.add_location(&ivar("a")), 0);
    g.set_color(&ivar("a"), 3);
    g.add_staturation(&ivar("a"), 5);
    assert_eq!(g.entry(&ivar("a")), Some((0, vec![5], 3)));
    assert_eq!(g.add_location(&ivar("a")), 1);
    assert_eq!(g.entry(&ivar("a")), Some((1, vec![], 0)));
    assert_eq!(g.node_count(), 2);
}

#[test]
fn staturation_and_color_of_unknown_location_do_nothing() {
    let lg = RvVarLocationGraph::new();
    let mut g = RvVarLocationStaturationGraph::new(&lg);
    g.add_staturation(&ivar("a"), 1);
    g.set_color(&ivar("a"), 1);
    assert!(g.entry(&ivar("a")).is_none());
    assert_eq!(g.node_count(), 0);
}

#[test]
fn link_same_location_is_a_no_op() {
    let lg = RvVarLocationGraph::new();
    let mut g = RvVarLocationStaturationGraph::new(&lg);
    g.link(&ivar("a"), &ivar("a"));
    assert_eq!(g.node_count(), 0);
    assert_eq!(g.edge_count(), 0);
}

#[test]
fn link_adds_a_loop_and_records_colours() {
    let lg = RvVarLocationGraph::new();
    let mut g = RvVarLocationStaturationGraph::new(&lg);
    g.add_location(&ivar("b"));
    g.set_color(&ivar("b"), -2);
    g.link(&ivar("a"), &ivar("b"));
    // `a` got a node, `b` kept its own; the edge is a loop on `a`'s node.
    assert_eq!(g.node_count(), 2);
    assert_eq!(g.edge_count(), 1);
    assert_eq!(g.entry(&ivar("a")), Some((1, vec![-2], 0)));
    assert_eq!(g.entry(&ivar("b")), Some((0, vec![], -2)));
    g.set_color(&ivar("a"), 7);
    g.link(&ivar("a"), &ivar("b"));
    assert_eq!(g.edge_count(), 1);
    assert_eq!(g.entry(&ivar("a")), Some((1, vec![-2, -2], 7)));
    assert_eq!(g.entry(&ivar("b")), Some((0, vec![7], -2)));
}

#[test]
fn init_colours_reserved_registers_and_records_each_edge_both_ways() {
    // `a` is written while `x2` (sp) and `b` are live.
    let lg = block_graph(vec![RvVarInstrLiveness {
        instr: RvVarInstr::Add { rd: ivar("a"), rs1: ivar("b"), rs2: x(2) },
        live: vec![x(2), ivar("b")],
    }]);
    let mut g = RvVarLocationStaturationGraph::new(&lg);
    g.init(&lg);
    assert_eq!(g.node_count(), 3);
    // sp is the third reserved register: colour -3.
    let (_, sp_sat, sp_color) = g.entry(&x(2)).unwrap();
    assert_eq!(sp_color, -3);
    assert!(sp_sat.is_empty());
    // `a` sees sp's colour once from each direction of their edge.
    let (_, a_sat, a_color) = g.entry(&ivar("a")).unwrap();
    assert_eq!(a_color, 0);
    assert_eq!(a_sat, vec![-3, -3]);
    let (_, b_sat, b_color) = g.entry(&ivar("b")).unwrap();
    assert_eq!(b_color, 0);
    assert!(b_sat.is_empty());
    // Every node with a neighbour got one loop.
    assert_eq!(g.edge_count(), 3);
}

#[test]
fn location_staturation_orders_by_number_of_colours() {
    let mut a = LocationStaturation::new();
    let b = LocationStaturation::new();
    assert_eq!(a.color, 0);
    assert_eq!(a.cmp(&b), Ordering::Equal);
    a.staturation.push(4);
    a.staturation.push(4);
    assert_eq!(a.cmp(&b), Ordering::Greater);
    assert_eq!(b.cmp(&a), Ordering::Less);
    assert_eq!(b.partial_cmp(&a), Some(Ordering::Less));
}
