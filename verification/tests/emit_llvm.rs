use intu::emit_llvm::{
    compile_binop, compile_catom, compile_cexpr, compile_tail, compile_function_operand, compile_make_closure,
    compile_project, compile_unaryop, create_c_main, ensure_func_decl, extract_arrow_params_and_ret,
    flatten_arrow, llvm_type,
};
use intu::explicate_control::{CExpr, CStmt, CTail};
use intu::llvm_ir::function::FunctionDeclaration;
use intu::llvm_ir::terminator::{CondBr, Ret, Terminator};
use intu::llvm_ir::types::Either;
use intu::explicate_control::CAtom;
use intu::gensym::Gensym;
use intu::syntax::Type as SType;
use intu::llvm_ir::constant::{Constant, ConstantRef};
use intu::llvm_ir::instruction::{self, FPPredicate, Instruction, IntPredicate};
use intu::llvm_ir::name::Name;
use intu::llvm_ir::operand::Operand;
use intu::llvm_ir::types::Types;
use intu::syntax::{BinOp, UnaryOp};

fn local(n: usize, float: bool, types: &Types) -> Operand {
    Operand::LocalOperand { name: Name::Number(n), ty: if float { types.double() } else { types.i64() } }
}

#[test]
fn binops_pick_integer_or_float_forms() {
    let types = Types::new();
    let i = compile_binop(&BinOp::Add, local(0, false, &types), local(1, false, &types), Name::Number(2), &types);
    assert_eq!(
        i,
        Instruction::Add(instruction::Add {
            operand0: local(0, false, &types),
            operand1: local(1, false, &types),
            dest: Name::Number(2),
            nuw: false,
            nsw: false,
        })
    );
    let f = compile_binop(&BinOp::Div, local(0, true, &types), local(1, true, &types), Name::Number(2), &types);
    assert_eq!(
        f,
        Instruction::FDiv(instruction::FDiv {
            operand0: local(0, true, &types),
            operand1: local(1, true, &types),
            dest: Name::Number(2),
        })
    );
    let d = compile_binop(&BinOp::Div, local(0, false, &types), local(1, false, &types), Name::Number(3), &types);
    assert!(matches!(d, Instruction::SDiv(instruction::SDiv { exact: false, .. })));
    let lt = compile_binop(&BinOp::Lt, local(0, false, &types), local(1, false, &types), Name::Number(4), &types);
    assert!(matches!(lt, Instruction::ICmp(instruction::ICmp { predicate: IntPredicate::SLT, .. })));
    let ge = compile_binop(&BinOp::Geq, local(0, true, &types), local(1, true, &types), Name::Number(5), &types);
    assert!(matches!(ge, Instruction::FCmp(instruction::FCmp { predicate: FPPredicate::OGE, .. })));
    let ne = compile_binop(&BinOp::Neq, local(0, true, &types), local(1, true, &types), Name::Number(6), &types);
    assert!(matches!(ne, Instruction::FCmp(instruction::FCmp { predicate: FPPredicate::ONE, .. })));
    let or = compile_binop(&BinOp::Or, local(0, false, &types), local(1, false, &types), Name::Number(7), &types);
    assert!(matches!(or, Instruction::Or(instruction::Or { disjoint: false, .. })));
}

#[test]
fn unary_ops_compile() {
    let types = Types::new();
    let n = compile_unaryop(&UnaryOp::Neg, local(0, false, &types), Name::Number(1), &types);
    assert_eq!(
        n,
        Instruction::Sub(instruction::Sub {
            operand0: Operand::ConstantOperand(ConstantRef::new(Constant::Int { bits: 64, value: 0 })),
            operand1: local(0, false, &types),
            dest: Name::Number(1),
            nuw: false,
            nsw: false,
        })
    );
    let f = compile_unaryop(&UnaryOp::Neg, local(0, true, &types), Name::Number(1), &types);
    assert!(matches!(f, Instruction::FNeg(_)));
    let x = compile_unaryop(&UnaryOp::Not, local(0, false, &types), Name::Number(2), &types);
    assert_eq!(
        x,
        Instruction::Xor(instruction::Xor {
            operand0: local(0, false, &types),
            operand1: Operand::ConstantOperand(ConstantRef::new(Constant::Int { bits: 1, value: 1 })),
            dest: Name::Number(2),
        })
    );
}

fn named(s: &str) -> Name {
    Name::Name(Box::new(s.to_string()))
}

fn int_const(bits: u32, value: u64) -> Operand {
    Operand::ConstantOperand(ConstantRef::new(Constant::Int { bits, value }))
}

#[test]
fn atoms_compile_to_constants_or_locals() {
    let types = Types::new();
    let env = vec![("y".to_string(), local(7, false, &types))];
    assert_eq!(compile_catom(&CAtom::Int(-1), &types, &env), int_const(64, u64::MAX));
    assert_eq!(compile_catom(&CAtom::Bool(true), &types, &env), int_const(1, 1));
    assert_eq!(compile_catom(&CAtom::Var("y".to_string(), SType::Int), &types, &env), local(7, false, &types));
    assert_eq!(
        compile_catom(&CAtom::Var("z".to_string(), SType::Float), &types, &env),
        Operand::LocalOperand { name: named("z"), ty: types.double() }
    );
    assert_eq!(
        llvm_type(&SType::Arrow(Box::new(SType::Int), Box::new(SType::Int)), &types),
        types.pointer()
    );
}

#[test]
fn make_closure_stores_function_then_captures() {
    let types = Types::new();
    let env = vec![("y".to_string(), local(7, false, &types))];
    let mut gs = Gensym::new();
    let f = CAtom::Var("f".to_string(), SType::Arrow(Box::new(SType::Int), Box::new(SType::Int)));
    let caps = vec![CAtom::Var("y".to_string(), SType::Int), CAtom::Bool(false)];
    let (instrs, result) = compile_make_closure(&f, &caps, &types, &mut gs, &env);
    let st = types.struct_of(vec![types.pointer(), types.i64(), types.bool()], false);
    let ptr = |n: &str| Operand::LocalOperand { name: named(n), ty: types.pointer() };
    let gep = |field: u64, dest: &str| {
        Instruction::GetElementPtr(instruction::GetElementPtr {
            address: ptr("tmp$1"),
            indices: vec![int_const(32, 0), int_const(32, field)],
            dest: named(dest),
            in_bounds: true,
            source_element_type: st.clone(),
        })
    };
    let store = |addr: &str, value: Operand| {
        Instruction::Store(instruction::Store {
            address: ptr(addr),
            value,
            volatile: false,
            atomicity: None,
            alignment: 8,
        })
    };
    let expected = vec![
        Instruction::BitCast(instruction::BitCast {
            operand: ptr("f"),
            to_type: types.pointer(),
            dest: named("tmp$0"),
        }),
        Instruction::Alloca(instruction::Alloca {
            allocated_type: st.clone(),
            num_elements: int_const(64, 1),
            dest: named("tmp$1"),
            alignment: 8,
        }),
        gep(0, "tmp$2"),
        store("tmp$2", ptr("tmp$0")),
        gep(1, "tmp$3"),
        store("tmp$3", local(7, false, &types)),
        gep(2, "tmp$4"),
        store("tmp$4", int_const(1, 0)),
    ];
    assert_eq!(instrs, expected);
    assert_eq!(result, ptr("tmp$1"));
    assert_eq!(gs.fresh(), "$5");
}

fn arrow(a: SType, b: SType) -> SType {
    SType::Arrow(Box::new(a), Box::new(b))
}

#[test]
fn project_loads_a_field_of_the_environment() {
    let types = Types::new();
    let env: Vec<(String, Operand)> = Vec::new();
    let mut gs = Gensym::new();
    let (instrs, result) =
        compile_project(&CAtom::Var("env".to_string(), arrow(SType::Int, SType::Int)), 2, &SType::Bool, &types, &mut gs, &env);
    let ptr = |n: &str| Operand::LocalOperand { name: named(n), ty: types.pointer() };
    assert_eq!(
        instrs,
        vec![
            Instruction::GetElementPtr(instruction::GetElementPtr {
                address: ptr("env"),
                indices: vec![int_const(32, 0), int_const(32, 2)],
                dest: named("tmp$0"),
                in_bounds: true,
                source_element_type: types.pointer(),
            }),
            Instruction::Load(instruction::Load {
                address: ptr("tmp$0"),
                dest: named("tmp$1"),
                loaded_ty: types.bool(),
                volatile: false,
                atomicity: None,
                alignment: 8,
            }),
        ]
    );
    assert_eq!(result, Operand::LocalOperand { name: named("tmp$1"), ty: types.bool() });
}

#[test]
fn curried_types_flatten_to_one_function_type() {
    let types = Types::new();
    let t = arrow(SType::Int, arrow(SType::Float, SType::Bool));
    let (params, ret) = extract_arrow_params_and_ret(&t, &types);
    assert_eq!(params, vec![types.i64(), types.double()]);
    assert_eq!(ret, types.bool());
    assert_eq!(flatten_arrow(&t, &types), types.func_type(types.bool(), vec![types.i64(), types.double()], false));
}

#[test]
fn unknown_functions_are_declared_once() {
    let types = Types::new();
    let env: Vec<(String, Operand)> = Vec::new();
    let mut decls: Vec<FunctionDeclaration> = Vec::new();
    let t = arrow(SType::Int, SType::Int);
    let f = CAtom::Var("g".to_string(), t.clone());
    let (op, fty) = compile_function_operand(&f, &types, &env, &mut decls);
    let flat = types.func_type(types.i64(), vec![types.i64()], false);
    assert_eq!(fty, flat);
    assert_eq!(
        op,
        Operand::ConstantOperand(ConstantRef::new(Constant::GlobalReference { name: named("g"), ty: flat.clone() }))
    );
    assert_eq!(decls.len(), 1);
    assert_eq!(decls[0].name, "g");
    assert_eq!(decls[0].parameters.len(), 1);
    assert_eq!(decls[0].parameters[0].name, Name::Number(0));
    ensure_func_decl("g", &t, &types, &mut decls);
    assert_eq!(decls.len(), 1);
    let env = vec![("g".to_string(), local(3, false, &types))];
    let (op, _) = compile_function_operand(&f, &types, &env, &mut decls);
    assert_eq!(op, local(3, false, &types));
    assert_eq!(decls.len(), 1);
}

#[test]
fn right_hand_sides_compile_to_one_instruction() {
    let types = Types::new();
    let env = vec![("a".to_string(), local(0, false, &types))];
    let mut gs = Gensym::new();
    let mut decls: Vec<FunctionDeclaration> = Vec::new();
    let (instrs, op) = compile_cexpr(&CExpr::Atom(CAtom::Int(4)), &types, &mut gs, &env, &mut decls);
    assert!(instrs.is_empty());
    assert_eq!(op, int_const(64, 4));
    let a = CAtom::Var("a".to_string(), SType::Int);
    let (instrs, op) = compile_cexpr(&CExpr::BinOp(BinOp::Lt, a, CAtom::Int(1)), &types, &mut gs, &env, &mut decls);
    assert_eq!(
        instrs,
        vec![Instruction::ICmp(instruction::ICmp {
            predicate: IntPredicate::SLT,
            operand0: local(0, false, &types),
            operand1: int_const(64, 1),
            dest: named("tmp$0"),
        })]
    );
    assert_eq!(op, Operand::LocalOperand { name: named("tmp$0"), ty: types.bool() });
    let f = CAtom::Var("h".to_string(), arrow(SType::Int, SType::Float));
    let (instrs, op) = compile_cexpr(&CExpr::Call(f, vec![CAtom::Int(2)]), &types, &mut gs, &env, &mut decls);
    assert_eq!(instrs.len(), 1);
    match &instrs[0] {
        Instruction::Call(call) => {
            assert_eq!(call.arguments.len(), 1);
            assert_eq!(call.arguments[0].0, int_const(64, 2));
            assert_eq!(call.dest, Some(named("tmp$1")));
            assert!(!call.is_tail_call);
        },
        other => panic!("expected a call, got {:?}", other),
    }
    assert_eq!(op, Operand::LocalOperand { name: named("tmp$1"), ty: types.double() });
    assert_eq!(decls.len(), 1);
}

#[test]
fn c_main_calls_program_and_returns_zero() {
    let types = Types::new();
    let mut gs = Gensym::new();
    let pty = types.func_type(types.i64(), Vec::new(), false);
    let f = create_c_main(&types, &pty, &mut gs);
    assert_eq!(f.name, "main");
    assert_eq!(f.return_type, types.i32());
    assert_eq!(f.basic_blocks.len(), 1);
    let entry = &f.basic_blocks[0];
    assert_eq!(entry.name, named("entry"));
    match &entry.instrs[0] {
        Instruction::Call(call) => {
            assert_eq!(
                call.function,
                Either::Right(Operand::ConstantOperand(ConstantRef::new(Constant::GlobalReference {
                    name: named("program"),
                    ty: pty.clone(),
                })))
            );
            assert_eq!(call.dest, Some(named("tmp$0")));
        },
        other => panic!("expected a call, got {:?}", other),
    }
    assert_eq!(entry.term, Terminator::Ret(Ret { return_operand: Some(int_const(32, 0)) }));
}

#[test]
fn tails_compile_to_labelled_blocks() {
    let types = Types::new();
    let env: Vec<(String, Operand)> = Vec::new();
    let mut gs = Gensym::new();
    let mut decls: Vec<FunctionDeclaration> = Vec::new();
    let x = CAtom::Var("x".to_string(), SType::Int);
    let f = CAtom::Var("f".to_string(), arrow(SType::Int, SType::Int));
    let tail = CTail::Sequence(
        CStmt::Assign("x".to_string(), CExpr::BinOp(BinOp::Add, CAtom::Int(1), CAtom::Int(2)), SType::Int),
        Box::new(CTail::If(
            CAtom::Bool(true),
            Box::new(CTail::Return(CExpr::Atom(x.clone()))),
            Box::new(CTail::TailCall(f, vec![x])),
        )),
    );
    let blocks = compile_tail(&tail, &types, &mut gs, &env, &mut decls);
    let tmp0 = Operand::LocalOperand { name: named("tmp$0"), ty: types.i64() };
    assert_eq!(blocks.len(), 3);
    assert_eq!(blocks[0].name, named("if.entry$4"));
    assert_eq!(
        blocks[0].instrs,
        vec![Instruction::Add(instruction::Add {
            operand0: int_const(64, 1),
            operand1: int_const(64, 2),
            dest: named("tmp$0"),
            nuw: false,
            nsw: false,
        })]
    );
    assert_eq!(
        blocks[0].term,
        Terminator::CondBr(CondBr {
            condition: int_const(1, 1),
            true_dest: named("ret$1"),
            false_dest: named("tailcall$3"),
        })
    );
    assert_eq!(blocks[1].name, named("ret$1"));
    assert!(blocks[1].instrs.is_empty());
    assert_eq!(blocks[1].term, Terminator::Ret(Ret { return_operand: Some(tmp0.clone()) }));
    assert_eq!(blocks[2].name, named("tailcall$3"));
    match &blocks[2].instrs[0] {
        Instruction::Call(call) => {
            assert!(call.is_tail_call);
            assert_eq!(call.arguments[0].0, tmp0);
            assert_eq!(call.dest, Some(named("tmp$2")));
        },
        other => panic!("expected a call, got {:?}", other),
    }
    assert_eq!(
        blocks[2].term,
        Terminator::Ret(Ret {
            return_operand: Some(Operand::LocalOperand { name: named("tmp$2"), ty: types.i64() }),
        })
    );
    assert_eq!(decls.len(), 1);
    assert_eq!(gs.fresh(), "$5");
}
