use intu::allocate_registers_rv_var::{
    allocatable_xregs, build_infer_graph, is_float_location, is_x_location, non_allocatable_xregs,
    non_allocatable_xregs_color, RvVarLocationGraph,
};
use intu::liveness_rv_var::{RvVarBasicBlockLiveness, RvVarInstrLiveness};
use intu::riscv::rv64imfd_reg::{FReg, IReg};
use intu::riscv_var::instruction::RvVarInstr;
use intu::riscv_var::label::Label;
use intu::riscv_var::location::{fvar, var, x, x0, RvVarLocation};

fn ivar(name: &str) -> RvVarLocation {
    var(name.to_string())
}

fn fv(name: &str) -> RvVarLocation {
    fvar(name.to_string())
}

fn il(instr: RvVarInstr, live: &[RvVarLocation]) -> RvVarInstrLiveness {
    RvVarInstrLiveness { instr, live: live.to_vec() }
}

fn graph_of(instrs: Vec<RvVarInstrLiveness>) -> RvVarLocationGraph {
    let block = RvVarBasicBlockLiveness {
        name: Label::new("bb".to_string()),
        instrs,
        live_out: Vec::new(),
    };
    build_infer_graph(&block)
}

fn has_edge(g: &RvVarLocationGraph, a: &RvVarLocation, b: &RvVarLocation) -> bool {
    g.has_edge(a, b)
}

#[test]
fn int_def_links_live_int_sources() {
    let g = graph_of(vec![il(
        RvVarInstr::Add { rd: ivar("a"), rs1: ivar("b"), rs2: ivar("c") },
        &[ivar("b"), ivar("c")],
    )]);
    assert!(has_edge(&g, &ivar("a"), &ivar("b")));
    assert!(has_edge(&g, &ivar("a"), &ivar("c")));
    assert_eq!(g.edge_count(), 2);
}

#[test]
fn zero_def_produces_nothing() {
    let g = graph_of(vec![il(
        RvVarInstr::Add { rd: x0(), rs1: ivar("a"), rs2: ivar("b") },
        &[ivar("a"), ivar("b")],
    )]);
    assert_eq!(g.node_count(), 0);
    assert_eq!(g.edge_count(), 0);
}

#[test]
fn zero_source_is_ignored() {
    let g = graph_of(vec![il(
        RvVarInstr::Add { rd: ivar("d"), rs1: x0(), rs2: ivar("b") },
        &[x0(), ivar("b")],
    )]);
    assert!(has_edge(&g, &ivar("d"), &ivar("b")));
    assert!(!has_edge(&g, &ivar("d"), &x0()));
    assert!(!g.contains_location(&x0()));
    assert_eq!(g.node_count(), 2);
    assert_eq!(g.edge_count(), 1);
}

#[test]
fn self_edge_is_skipped() {
    let g = graph_of(vec![il(
        RvVarInstr::Add { rd: ivar("a"), rs1: ivar("a"), rs2: ivar("b") },
        &[ivar("a"), ivar("b")],
    )]);
    assert!(has_edge(&g, &ivar("a"), &ivar("b")));
    assert_eq!(g.node_count(), 2);
    assert_eq!(g.edge_count(), 1);
}

#[test]
fn int_var_interferes_with_physical_int_reg() {
    let g = graph_of(vec![il(
        RvVarInstr::Add { rd: ivar("a"), rs1: RvVarLocation::IReg(IReg::A0), rs2: ivar("c") },
        &[RvVarLocation::IReg(IReg::A0), ivar("c")],
    )]);
    assert!(has_edge(&g, &ivar("a"), &RvVarLocation::IReg(IReg::A0)));
    assert!(has_edge(&g, &ivar("a"), &ivar("c")));
    assert_eq!(g.edge_count(), 2);
}

#[test]
fn float_write_links_live_float_locations() {
    let g = graph_of(vec![il(
        RvVarInstr::Ld { rd: fv("d"), rs1: ivar("p"), imm: 0 },
        &[fv("x"), fv("y"), RvVarLocation::FReg(FReg::FA0)],
    )]);
    assert!(has_edge(&g, &fv("d"), &fv("x")));
    assert!(has_edge(&g, &fv("y"), &fv("d")));
    assert!(has_edge(&g, &fv("d"), &RvVarLocation::FReg(FReg::FA0)));
    assert_eq!(g.edge_count(), 3);
    assert_eq!(g.node_count(), 4);
}

#[test]
fn cross_class_locations_never_interfere() {
    let g = graph_of(vec![
        il(RvVarInstr::Ld { rd: ivar("d"), rs1: ivar("p"), imm: 0 }, &[fv("f")]),
        il(RvVarInstr::Ld { rd: fv("e"), rs1: ivar("p"), imm: 8 }, &[ivar("i")]),
    ]);
    assert!(!has_edge(&g, &ivar("d"), &fv("f")));
    assert!(!has_edge(&g, &fv("e"), &ivar("i")));
    assert_eq!(g.edge_count(), 0);
    assert_eq!(g.node_count(), 0);
}

#[test]
fn repeated_interference_gives_one_edge() {
    let g = graph_of(vec![
        il(RvVarInstr::Add { rd: ivar("a"), rs1: ivar("b"), rs2: ivar("b") }, &[ivar("b")]),
        il(RvVarInstr::Add { rd: ivar("b"), rs1: ivar("a"), rs2: ivar("a") }, &[ivar("a"), ivar("a")]),
    ]);
    assert!(has_edge(&g, &ivar("a"), &ivar("b")));
    assert_eq!(g.edge_count(), 1);
    assert_eq!(g.node_count(), 2);
    assert_eq!(g.neighbors(&ivar("a")), vec![ivar("b")]);
    assert_eq!(g.all_locations(), vec![ivar("a"), ivar("b")]);
}

#[test]
fn stores_and_branches_write_nothing() {
    let g = graph_of(vec![
        il(RvVarInstr::Sd { rs2: ivar("a"), rs1: ivar("p"), imm: 0 }, &[ivar("a"), ivar("p")]),
        il(
            RvVarInstr::Beq { rs1: ivar("a"), rs2: ivar("p"), label: Label::new("l".to_string()) },
            &[ivar("a")],
        ),
    ]);
    assert_eq!(g.edge_count(), 0);
    assert_eq!(g.node_count(), 0);
}

#[test]
fn link_skips_what_may_not_interfere() {
    let mut g = RvVarLocationGraph::new();
    g.link(&ivar("a"), &ivar("a"));
    g.link(&ivar("a"), &fv("f"));
    g.link(&x0(), &ivar("a"));
    assert_eq!(g.node_count(), 0);
    g.link(&ivar("a"), &x(10));
    g.link(&x(10), &ivar("a"));
    assert_eq!(g.edge_count(), 1);
    assert_eq!(g.neighbors(&x(10)), vec![ivar("a")]);
    assert!(g.neighbors(&ivar("zz")).is_empty());
}

#[test]
fn location_classes() {
    assert!(is_float_location(&fv("f")));
    assert!(is_float_location(&RvVarLocation::FReg(FReg::FT0)));
    assert!(!is_float_location(&ivar("i")));
    assert!(is_x_location(&ivar("i")));
    assert!(is_x_location(&x(3)));
    assert!(!is_x_location(&fv("f")));
}

#[test]
fn register_pools() {
    let alloc = allocatable_xregs();
    assert_eq!(alloc.len(), 26);
    assert_eq!(alloc[0], x(5));
    assert!(!alloc.contains(&x(4)));
    assert!(!alloc.contains(&x(8)));
    assert!(alloc.contains(&x(31)));
    let reserved = non_allocatable_xregs();
    for n in 0..32u8 {
        assert!(alloc.contains(&x(n)) != reserved.contains(&x(n)));
    }
    assert_eq!(reserved, vec![x(0), x(1), x(2), x(3), x(4), x(8)]);
    let colors = non_allocatable_xregs_color();
    assert_eq!(colors.len(), 6);
    assert_eq!(colors[0], (x(0), -1));
    assert_eq!(colors[5], (x(8), -6));
}

#[test]
fn link_twice_either_way_changes_nothing() {
    let mut g = RvVarLocationGraph::new();
    g.link(&ivar("p"), &ivar("q"));
    let nodes = g.all_locations();
    g.link(&ivar("p"), &ivar("q"));
    g.link(&ivar("q"), &ivar("p"));
    assert_eq!(g.edge_count(), 1);
    assert_eq!(g.all_locations(), nodes);
    assert_eq!(nodes, vec![ivar("p"), ivar("q")]);
    let mut h = RvVarLocationGraph::new();
    h.link(&ivar("q"), &ivar("p"));
    assert!(h.has_edge(&ivar("p"), &ivar("q")));
    assert_eq!(h.all_locations(), vec![ivar("q"), ivar("p")]);
}
