use intu::assign_homes::{RvArg, RvInstr, RvReg};
use intu::expose_allocation::{
    alloc_bin_op, alloc_int, alloc_prim_io, alloc_seq, alloc_unit, allocate, collect,
    global_freeptr, global_fromspace_end, global_value, AllocExpr, GlobalValue,
};
use intu::syntax::{BinOp, PrimIO, Type};

#[test]
fn allocation_builders_make_their_forms() {
    assert_eq!(collect(16), AllocExpr::Collect(16));
    assert_eq!(allocate(24), AllocExpr::Allocate(24));
    assert_eq!(global_freeptr(), AllocExpr::GlobalValue(GlobalValue::FreePtr));
    assert_eq!(global_fromspace_end(), global_value(GlobalValue::FromspaceEnd));
    assert_eq!(
        alloc_bin_op(BinOp::Add, global_freeptr(), alloc_int(8), Type::Int),
        AllocExpr::BinOp(
            BinOp::Add,
            Box::new(AllocExpr::GlobalValue(GlobalValue::FreePtr)),
            Box::new(AllocExpr::Int(8)),
            Type::Int,
        )
    );
    assert_eq!(
        alloc_seq(vec![alloc_unit()], alloc_int(1), Type::Int),
        AllocExpr::Sequence(vec![AllocExpr::Unit], Box::new(AllocExpr::Int(1)), Type::Int)
    );
    assert_eq!(
        alloc_prim_io(PrimIO::PrintInt, Some(alloc_int(2)), Type::Unit),
        AllocExpr::PrimIO(PrimIO::PrintInt, Some(Box::new(AllocExpr::Int(2))), Type::Unit)
    );
    assert_eq!(
        alloc_prim_io(PrimIO::ReadInt, None, Type::Int),
        AllocExpr::PrimIO(PrimIO::ReadInt, None, Type::Int)
    );
}

#[test]
fn home_instructions_compare_by_value() {
    let a = RvInstr::Add(RvArg::Reg(RvReg::A0), RvArg::Var("x".to_string()), RvArg::Imm(1));
    assert_eq!(a.clone(), a);
    assert_ne!(RvInstr::Load(RvArg::Reg(RvReg::T0), RvArg::Mem(RvReg::Sp, 8), 0), RvInstr::Ret);
}
