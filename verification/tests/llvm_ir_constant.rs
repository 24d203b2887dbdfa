use intu::llvm_ir::basicblock::BasicBlock;
use intu::llvm_ir::constant::{
    Add, BitCast, ConstBinaryOp, Constant, ConstantRef, ExtractElement, Float, ShuffleVector,
};
use intu::llvm_ir::function::{CallingConvention, Function, Parameter};
use intu::llvm_ir::instruction::{
    self, CmpXchg, ExtractValue, ICmp, Instruction, IntPredicate, Atomicity, MemoryOrdering,
    SynchronizationScope,
};
use intu::llvm_ir::module::{DLLStorageClass, Linkage, Visibility};
use intu::llvm_ir::name::Name;
use intu::llvm_ir::operand::Operand;
use intu::llvm_ir::terminator::{Br, Invoke, Ret, Terminator, Unreachable};
use intu::llvm_ir::types::{Either, Type, TypeRef, Typed, Types};
use std::convert::TryFrom;

fn cint(bits: u32, value: u64) -> ConstantRef {
    ConstantRef::new(Constant::Int { bits, value })
}

fn local(n: usize, ty: TypeRef) -> Operand {
    Operand::LocalOperand { name: Name::Number(n), ty }
}

#[test]
fn constant_types() {
    let types = Types::new();
    assert_eq!(cint(32, 7).get_type(&types).to_string(), "i32");
    assert_eq!(Constant::Float(Float::Double(1.5f64.to_bits())).get_type(&types).to_string(), "double");
    assert_eq!(Constant::Float(Float::Quadruple).get_type(&types).to_string(), "fp128");
    let st = Constant::Struct { name: None, values: vec![cint(8, 1), cint(64, 2)], is_packed: true };
    assert_eq!(st.get_type(&types).to_string(), "<{ i8, i64 }>");
    let arr = Constant::Array { element_type: types.i16(), elements: vec![cint(16, 1), cint(16, 2)] };
    assert_eq!(arr.get_type(&types).to_string(), "[2 x i16]");
    let vec3 = Constant::Vector(vec![cint(32, 1), cint(32, 2), cint(32, 3)]);
    assert_eq!(vec3.get_type(&types).to_string(), "<3 x i32>");
    assert_eq!(Constant::TokenNone.get_type(&types).to_string(), "token");
    assert_eq!(Constant::BlockAddress.get_type(&types).to_string(), "label");
    let g = Constant::GlobalReference { name: Name::Number(0), ty: types.i8() };
    assert_eq!(g.get_type(&types).to_string(), "ptr");
}

#[test]
fn constant_expression_types() {
    let types = Types::new();
    let add = Add { operand0: cint(64, 1), operand1: cint(64, 2) };
    assert_eq!(add.get_type(&types).to_string(), "i64");
    assert_eq!(add.get_operand1(), cint(64, 2));
    let c = Constant::from(add);
    assert_eq!(c.get_type(&types).to_string(), "i64");
    let back = Add::try_from(c.clone()).unwrap();
    assert_eq!(back.operand0, cint(64, 1));
    assert!(BitCast::try_from(c).is_err());
    let v = ConstantRef::new(Constant::Vector(vec![cint(8, 1), cint(8, 2)]));
    let ee = ExtractElement { vector: v.clone(), index: cint(32, 0) };
    assert_eq!(ee.get_type(&types).to_string(), "i8");
    let mask = ConstantRef::new(Constant::Vector(vec![cint(32, 0), cint(32, 1), cint(32, 2), cint(32, 3)]));
    let sv = ShuffleVector { operand0: v.clone(), operand1: v, mask };
    assert_eq!(Constant::ShuffleVector(sv).get_type(&types).to_string(), "<4 x i8>");
}

#[test]
fn operand_types_and_constants() {
    let types = Types::new();
    let op = Operand::ConstantOperand(cint(1, 1));
    assert_eq!(op.get_type(&types).to_string(), "i1");
    assert_eq!(op.as_constant(), Some(&Constant::Int { bits: 1, value: 1 }));
    let l = local(3, types.double());
    assert_eq!(l.get_type(&types).to_string(), "double");
    assert!(l.as_constant().is_none());
    assert_eq!(Operand::MetadataOperand.get_type(&types).to_string(), "metadata");
}

#[test]
fn instruction_types() {
    let types = Types::new();
    let add = Instruction::Add(instruction::Add {
        operand0: local(0, types.i32()),
        operand1: local(1, types.i32()),
        dest: Name::Number(2),
        nuw: false,
        nsw: false,
    });
    assert_eq!(add.get_type(&types).to_string(), "i32");
    assert!(add.is_binary_op());
    assert!(!add.is_unary_op());
    let vty = types.vector_of(types.i32(), 4, false);
    let cmp = ICmp {
        predicate: IntPredicate::SLT,
        operand0: local(0, vty.clone()),
        operand1: local(1, vty),
        dest: Name::Number(2),
    };
    assert_eq!(cmp.get_type(&types).to_string(), "<4 x i1>");
    let agg = types.struct_of(vec![types.i8(), types.array_of(types.double(), 3)], false);
    let ev = ExtractValue { aggregate: local(0, agg), indices: vec![1, 2], dest: Name::Number(1) };
    assert_eq!(ev.get_type(&types).to_string(), "double");
    let atomicity = Atomicity {
        synch_scope: SynchronizationScope::System,
        mem_ordering: MemoryOrdering::Monotonic,
    };
    let cx = CmpXchg {
        address: local(0, types.pointer()),
        expected: local(1, types.i64()),
        replacement: local(2, types.i64()),
        dest: Name::Number(3),
        volatile: false,
        atomicity,
        failure_memory_ordering: MemoryOrdering::Monotonic,
        weak: false,
    };
    assert_eq!(cx.get_type(&types).to_string(), "{ i64, i1 }");
    let call = Instruction::Call(instruction::Call {
        function: Either::Right(local(0, types.pointer())),
        function_ty: types.func_type(types.i16(), vec![types.i32()], false),
        arguments: vec![],
        return_attributes: vec![],
        dest: Some(Name::Number(1)),
        function_attributes: vec![],
        is_tail_call: false,
        calling_convention: CallingConvention::C,
    });
    assert_eq!(call.get_type(&types).to_string(), "i16");
}

#[test]
fn terminators_blocks_and_functions() {
    let types = Types::new();
    let ret = Terminator::Ret(Ret { return_operand: None });
    assert_eq!(ret.get_type(&types).to_string(), "void");
    assert!(ret.try_get_result().is_none());
    let inv = Terminator::Invoke(Invoke {
        function: Either::Right(local(0, types.pointer())),
        function_ty: types.func_type(types.i8(), vec![], true),
        arguments: vec![],
        return_attributes: vec![],
        result: Name::Number(5),
        return_label: Name::Number(6),
        exception_label: Name::Number(7),
        function_attributes: vec![],
        calling_convention: CallingConvention::Fast,
    });
    assert_eq!(inv.get_type(&types).to_string(), "i8");
    assert_eq!(inv.try_get_result(), Some(&Name::Number(5)));
    assert_eq!(Terminator::from(Unreachable {}), Terminator::Unreachable(Unreachable {}));
    let bb = BasicBlock::new(Name::Number(0));
    assert!(bb.instrs.is_empty());
    assert_eq!(bb.term, Terminator::Unreachable(Unreachable {}));
    let _ = Br { dest: Name::Number(1) };
    let f = Function {
        name: "f".to_string(),
        parameters: vec![
            Parameter { name: Name::Number(0), ty: types.i32(), attributes: vec![] },
            Parameter { name: Name::Number(1), ty: types.pointer(), attributes: vec![] },
        ],
        is_var_arg: false,
        return_type: types.i64(),
        basic_blocks: vec![bb],
        function_attributes: vec![],
        return_attributes: vec![],
        linkage: Linkage::External,
        visibility: Visibility::Default,
        dll_storage_class: DLLStorageClass::Default,
        calling_convention: CallingConvention::C,
        section: None,
        comdat: None,
        alignment: 0,
        garbage_collector_name: None,
        personality_function: None,
    };
    assert_eq!(f.get_type(&types).to_string(), "i64 (i32, ptr)");
    let _ = Type::VoidType;
}
