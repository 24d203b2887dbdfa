//! Compilation of the control language to LLVM IR: atoms and right-hand
//! sides to instructions, closures and environment reads, calls and
//! external declarations, tails to labelled basic blocks, and the C entry
//! point.
use vstd::prelude::*;
use crate::explicate_control::{catoms_model, CAtom, CAtomV, CExpr, CExprV, CStmt, CStmtV, CTail, CTailV};
use crate::a_normal_form::AExprV;
use crate::eval::{binop_spec, fits_i64, trunc_div, unary_spec, IoV, ValueV};
use crate::gensym::{dollar_name, Gensym};
use crate::llvm_ir::constant::{Constant, ConstantRef, ConstantV, Float};
use crate::llvm_ir::basicblock::BasicBlock;
use crate::llvm_ir::function::{
    parameter_types, CallingConvention, Function, FunctionDeclaration, Parameter, ParameterAttribute,
};
use crate::llvm_ir::terminator::{CondBr, Ret, Terminator};
use crate::llvm_ir::module::{DLLStorageClass, Linkage, Visibility};
use crate::llvm_ir::instruction::{self, cmp_result_type, FPPredicate, Instruction, IntPredicate};
use crate::llvm_ir::name::{Name, NameV};
use crate::llvm_ir::operand::{
    lemma_operand_model, operand_type, operand_typable, operand_v_type, operand_v_typable,
    operands_model, Operand, OperandV,
};
use crate::llvm_ir::types::{type_refs_model, Either, Type, TypeRef, TypeV as LType, Types};
use crate::syntax::{BinOp, Ident, Type as SType, TypeV, UnaryOp};

verus! {

/// The instruction for `left op right` into `dest`: the floating-point
/// form where the operands are floating point, else the integer form
/// (signed division and comparisons).
pub open spec fn binop_instruction(
    op: BinOp,
    left: Operand,
    right: Operand,
    dest: Name,
    is_float: bool,
) -> Instruction {
    match op {
        BinOp::Add => if is_float {
            Instruction::FAdd(instruction::FAdd { operand0: left, operand1: right, dest })
        } else {
            Instruction::Add(instruction::Add { operand0: left, operand1: right, dest, nuw: false, nsw: false })
        },
        BinOp::Sub => if is_float {
            Instruction::FSub(instruction::FSub { operand0: left, operand1: right, dest })
        } else {
            Instruction::Sub(instruction::Sub { operand0: left, operand1: right, dest, nuw: false, nsw: false })
        },
        BinOp::Mul => if is_float {
            Instruction::FMul(instruction::FMul { operand0: left, operand1: right, dest })
        } else {
            Instruction::Mul(instruction::Mul { operand0: left, operand1: right, dest, nuw: false, nsw: false })
        },
        BinOp::Div => if is_float {
            Instruction::FDiv(instruction::FDiv { operand0: left, operand1: right, dest })
        } else {
            Instruction::SDiv(instruction::SDiv { operand0: left, operand1: right, dest, exact: false })
        },
        BinOp::Eq => if is_float {
            Instruction::FCmp(instruction::FCmp { predicate: FPPredicate::OEQ, operand0: left, operand1: right, dest })
        } else {
            Instruction::ICmp(instruction::ICmp { predicate: IntPredicate::EQ, operand0: left, operand1: right, dest })
        },
        BinOp::Neq => if is_float {
            Instruction::FCmp(instruction::FCmp { predicate: FPPredicate::ONE, operand0: left, operand1: right, dest })
        } else {
            Instruction::ICmp(instruction::ICmp { predicate: IntPredicate::NE, operand0: left, operand1: right, dest })
        },
        BinOp::Lt => if is_float {
            Instruction::FCmp(instruction::FCmp { predicate: FPPredicate::OLT, operand0: left, operand1: right, dest })
        } else {
            Instruction::ICmp(instruction::ICmp { predicate: IntPredicate::SLT, operand0: left, operand1: right, dest })
        },
        BinOp::Gt => if is_float {
            Instruction::FCmp(instruction::FCmp { predicate: FPPredicate::OGT, operand0: left, operand1: right, dest })
        } else {
            Instruction::ICmp(instruction::ICmp { predicate: IntPredicate::SGT, operand0: left, operand1: right, dest })
        },
        BinOp::Leq => if is_float {
            Instruction::FCmp(instruction::FCmp { predicate: FPPredicate::OLE, operand0: left, operand1: right, dest })
        } else {
            Instruction::ICmp(instruction::ICmp { predicate: IntPredicate::SLE, operand0: left, operand1: right, dest })
        },
        BinOp::Geq => if is_float {
            Instruction::FCmp(instruction::FCmp { predicate: FPPredicate::OGE, operand0: left, operand1: right, dest })
        } else {
            Instruction::ICmp(instruction::ICmp { predicate: IntPredicate::SGE, operand0: left, operand1: right, dest })
        },
        BinOp::And => Instruction::And(instruction::And { operand0: left, operand1: right, dest }),
        BinOp::Or => Instruction::Or(instruction::Or { operand0: left, operand1: right, dest, disjoint: false }),
    }
}

/// The instruction for a binary operator applied to two operands, chosen by
/// the type of the left one.
pub fn compile_binop(op: &BinOp, left: Operand, right: Operand, dest: Name, types: &Types) -> (i:
    Instruction)
    requires
        operand_typable(left),
    ensures
        i == binop_instruction(*op, left, right, dest, operand_type(left) is FPType),
{
    let left_ty = types.type_of(&left);
    let is_float = match left_ty.as_ref() {
        Type::FPType(_) => true,
        _ => false,
    };
    match op {
            BinOp::Add => if is_float {
                Instruction::FAdd(instruction::FAdd { operand0: left, operand1: right, dest })
            } else {
                Instruction::Add(instruction::Add { operand0: left, operand1: right, dest, nuw: false, nsw: false })
            },
            BinOp::Sub => if is_float {
                Instruction::FSub(instruction::FSub { operand0: left, operand1: right, dest })
            } else {
                Instruction::Sub(instruction::Sub { operand0: left, operand1: right, dest, nuw: false, nsw: false })
            },
            BinOp::Mul => if is_float {
                Instruction::FMul(instruction::FMul { operand0: left, operand1: right, dest })
            } else {
                Instruction::Mul(instruction::Mul { operand0: left, operand1: right, dest, nuw: false, nsw: false })
            },
            BinOp::Div => if is_float {
                Instruction::FDiv(instruction::FDiv { operand0: left, operand1: right, dest })
            } else {
                Instruction::SDiv(instruction::SDiv { operand0: left, operand1: right, dest, exact: false })
            },
            BinOp::Eq => if is_float {
                Instruction::FCmp(instruction::FCmp { predicate: FPPredicate::OEQ, operand0: left, operand1: right, dest })
            } else {
                Instruction::ICmp(instruction::ICmp { predicate: IntPredicate::EQ, operand0: left, operand1: right, dest })
            },
            BinOp::Neq => if is_float {
                Instruction::FCmp(instruction::FCmp { predicate: FPPredicate::ONE, operand0: left, operand1: right, dest })
            } else {
                Instruction::ICmp(instruction::ICmp { predicate: IntPredicate::NE, operand0: left, operand1: right, dest })
            },
            BinOp::Lt => if is_float {
                Instruction::FCmp(instruction::FCmp { predicate: FPPredicate::OLT, operand0: left, operand1: right, dest })
            } else {
                Instruction::ICmp(instruction::ICmp { predicate: IntPredicate::SLT, operand0: left, operand1: right, dest })
            },
            BinOp::Gt => if is_float {
                Instruction::FCmp(instruction::FCmp { predicate: FPPredicate::OGT, operand0: left, operand1: right, dest })
            } else {
                Instruction::ICmp(instruction::ICmp { predicate: IntPredicate::SGT, operand0: left, operand1: right, dest })
            },
            BinOp::Leq => if is_float {
                Instruction::FCmp(instruction::FCmp { predicate: FPPredicate::OLE, operand0: left, operand1: right, dest })
            } else {
                Instruction::ICmp(instruction::ICmp { predicate: IntPredicate::SLE, operand0: left, operand1: right, dest })
            },
            BinOp::Geq => if is_float {
                Instruction::FCmp(instruction::FCmp { predicate: FPPredicate::OGE, operand0: left, operand1: right, dest })
            } else {
                Instruction::ICmp(instruction::ICmp { predicate: IntPredicate::SGE, operand0: left, operand1: right, dest })
            },
            BinOp::And => Instruction::And(instruction::And { operand0: left, operand1: right, dest }),
            BinOp::Or => Instruction::Or(instruction::Or { operand0: left, operand1: right, dest, disjoint: false }),
    }
}

/// The instruction for a unary operator: `fneg` of a floating-point
/// operand, `0 - x` in 64 bits of an integer one, and `x xor true` for
/// negation.
pub open spec fn unaryop_instruction(op: UnaryOp, operand: Operand, dest: Name, is_float: bool) -> Instruction {
    match op {
        UnaryOp::Neg => if is_float {
            Instruction::FNeg(instruction::FNeg { operand, dest })
        } else {
            Instruction::Sub(
                instruction::Sub {
                    operand0: Operand::ConstantOperand(
                        ConstantRef(Box::new(Constant::Int { bits: 64, value: 0 })),
                    ),
                    operand1: operand,
                    dest,
                    nuw: false,
                    nsw: false,
                },
            )
        },
        UnaryOp::Not => Instruction::Xor(
            instruction::Xor {
                operand0: operand,
                operand1: Operand::ConstantOperand(
                    ConstantRef(Box::new(Constant::Int { bits: 1, value: 1 })),
                ),
                dest,
            },
        ),
    }
}

/// The instruction for a unary operator applied to an operand, chosen by
/// its type.
pub fn compile_unaryop(op: &UnaryOp, operand: Operand, dest: Name, types: &Types) -> (i: Instruction)
    requires
        operand_typable(operand),
    ensures
        i == unaryop_instruction(*op, operand, dest, operand_type(operand) is FPType),
{
    let op_ty = types.type_of(&operand);
    let is_float = match op_ty.as_ref() {
        Type::FPType(_) => true,
        _ => false,
    };
    match op {
        UnaryOp::Neg => if is_float {
            Instruction::FNeg(instruction::FNeg { operand, dest })
        } else {
            Instruction::Sub(
                instruction::Sub {
                    operand0: Operand::ConstantOperand(
                        ConstantRef::new(Constant::Int { bits: 64, value: 0 }),
                    ),
                    operand1: operand,
                    dest,
                    nuw: false,
                    nsw: false,
                },
            )
        },
        UnaryOp::Not => Instruction::Xor(
            instruction::Xor {
                operand0: operand,
                operand1: Operand::ConstantOperand(
                    ConstantRef::new(Constant::Int { bits: 1, value: 1 }),
                ),
                dest,
            },
        ),
    }
}

/// Whether a source type has an LLVM type here: tuples have none, and type
/// variables must have been resolved.
pub open spec fn has_llvm_type(t: TypeV) -> bool {
    !(t is Tuple) && !(t is Var)
}

/// The LLVM type of a source type: the unit type is the empty structure,
/// functions are pointers.
pub open spec fn llvm_type_spec(t: TypeV) -> LType {
    match t {
        TypeV::Unit => LType::StructType { element_types: Seq::empty(), is_packed: false },
        TypeV::Bool => LType::IntegerType { bits: 1 },
        TypeV::Int => LType::IntegerType { bits: 64 },
        TypeV::Float => LType::FPType(crate::llvm_ir::types::FPType::Double),
        _ => LType::PointerType { addr_space: 0 },
    }
}

/// The LLVM type of a source type.
pub fn llvm_type(ty: &SType, types: &Types) -> (r: TypeRef)
    requires
        has_llvm_type(ty@),
    ensures
        r@ == llvm_type_spec(ty@),
{
    match ty {
        SType::Unit => {
            let t = types.struct_of(Vec::new(), false);
            assert(t@->StructType_element_types =~= Seq::<LType>::empty());
            t
        },
        SType::Bool => types.bool(),
        SType::Int => types.i64(),
        SType::Float => types.double(),
        _ => types.pointer(),
    }
}

/// The model of an environment from names to operands.
pub open spec fn env_model(env: Seq<(Ident, Operand)>) -> Seq<(Seq<char>, OperandV)> {
    Seq::new(env.len(), |i: int| (env[i].0@, env[i].1@))
}

/// The operand the first entry for `x` gives, if there is one.
pub open spec fn env_lookup(env: Seq<(Seq<char>, OperandV)>, x: Seq<char>) -> Option<OperandV>
    decreases env.len(),
{
    if env.len() == 0 {
        None
    } else if env[0].0 == x {
        Some(env[0].1)
    } else {
        env_lookup(env.drop_first(), x)
    }
}

/// The operand an atom compiles to: a constant for a literal; for a
/// variable, the operand the environment gives it, else the local value of
/// that name.
pub open spec fn catom_operand(a: CAtomV, env: Seq<(Seq<char>, OperandV)>) -> OperandV {
    match a {
        AExprV::Unit => OperandV::Constant(
            ConstantV::AggregateZero(LType::StructType { element_types: Seq::empty(), is_packed: false }),
        ),
        AExprV::Bool(b) => OperandV::Constant(ConstantV::Int { bits: 1, value: if b { 1 } else { 0 } }),
        AExprV::Int(i) => OperandV::Constant(ConstantV::Int { bits: 64, value: i as u64 }),
        AExprV::Float(f) => OperandV::Constant(ConstantV::Float(Float::Double(f))),
        AExprV::Var(x, t) => match env_lookup(env, x) {
            Some(op) => op,
            None => OperandV::Local { name: NameV::Name(x), ty: llvm_type_spec(t) },
        },
    }
}

/// An atom can be compiled, and its operand has a type: a variable is in
/// the environment with a typed operand, or its type has an LLVM type.
pub open spec fn catom_compilable(a: CAtomV, env: Seq<(Seq<char>, OperandV)>) -> bool {
    match a {
        AExprV::Var(x, t) => match env_lookup(env, x) {
            Some(op) => operand_v_typable(op),
            None => has_llvm_type(t),
        },
        _ => true,
    }
}

/// The operand of a compilable atom has a type.
proof fn lemma_compilable_typable(a: CAtomV, env: Seq<(Seq<char>, OperandV)>)
    requires
        catom_compilable(a, env),
    ensures
        operand_v_typable(catom_operand(a, env)),
{
}

/// The first entry for `x` in `env`.
fn lookup_env<'a>(env: &'a Vec<(Ident, Operand)>, x: &Ident) -> (r: Option<&'a Operand>)
    ensures
        match env_lookup(env_model(env@), x@) {
            Some(op) => r is Some && r->0@ == op,
            None => r is None,
        },
{
    let mut i: usize = 0;
    assert(env_model(env@).skip(0) =~= env_model(env@));
    while i < env.len()
        invariant
            i <= env@.len(),
            env_lookup(env_model(env@), x@) == env_lookup(env_model(env@).skip(i as int), x@),
        decreases env@.len() - i,
    {
        let ghost rest = env_model(env@).skip(i as int);
        assert(rest[0] == (env@[i as int].0@, env@[i as int].1@));
        assert(rest.drop_first() =~= env_model(env@).skip(i + 1));
        if env[i].0 == *x {
            return Some(&env[i].1);
        }
        i += 1;
    }
    None
}

/// The operand an atom compiles to.
pub fn compile_catom(atom: &CAtom, types: &Types, env: &Vec<(Ident, Operand)>) -> (r: Operand)
    requires
        catom_compilable(atom@, env_model(env@)),
    ensures
        r@ == catom_operand(atom@, env_model(env@)),
{
    match atom {
        CAtom::Unit => {
            let unit_ty = types.struct_of(Vec::new(), false);
            assert(unit_ty@->StructType_element_types =~= Seq::<LType>::empty());
            Operand::ConstantOperand(ConstantRef::new(Constant::AggregateZero(unit_ty)))
        },
        CAtom::Bool(b) => Operand::ConstantOperand(
            ConstantRef::new(Constant::Int { bits: 1, value: if *b { 1 } else { 0 } }),
        ),
        CAtom::Int(i) => Operand::ConstantOperand(ConstantRef::new(Constant::Int { bits: 64, value: #[verifier::truncate] (*i as u64) })),
        CAtom::Float(f) => Operand::ConstantOperand(ConstantRef::new(Constant::Float(Float::Double(*f)))),
        CAtom::Var(name, ty) => {
            if let Some(op) = lookup_env(env, name) {
                op.clone()
            } else {
                let ty_ref = llvm_type(ty, types);
                Operand::LocalOperand { name: Name::Name(Box::new(name.clone())), ty: ty_ref }
            }
        },
    }
}

/// The name `tmp$k`.
pub open spec fn tmp_name(k: nat) -> NameV {
    NameV::Name(dollar_name("tmp"@, k))
}

/// A fresh temporary name, `tmp$k` for the counter `k`.
fn fresh_name(gensym: &mut Gensym) -> (r: Name)
    requires
        old(gensym)@ < u64::MAX,
    ensures
        r@ == tmp_name(old(gensym)@),
        final(gensym)@ == old(gensym)@ + 1,
{
    Name::Name(Box::new(gensym.fresh_with_prefix("tmp")))
}

/// The pointer type of address space 0.
pub open spec fn ptr_type() -> LType {
    LType::PointerType { addr_space: 0 }
}

/// The integer constant operand `iBITS value`.
pub open spec fn const_int(bits: u32, value: u64) -> OperandV {
    OperandV::Constant(ConstantV::Int { bits, value })
}

/// The structure type of a closure: a function pointer, then the types of
/// the captured values.
pub open spec fn closure_struct_type(captured: Seq<CAtom>, env: Seq<(Seq<char>, OperandV)>) -> LType {
    LType::StructType {
        element_types: seq![ptr_type()] + Seq::new(
            captured.len(),
            |i: int| operand_v_type(catom_operand(captured[i]@, env)),
        ),
        is_packed: false,
    }
}

/// `i` computes, into `dest`, the address of field `field` of the structure
/// of type `st` that the pointer `base` points to.
pub open spec fn is_field_address(i: Instruction, base: NameV, field: u64, st: LType, dest: NameV) -> bool {
    i matches Instruction::GetElementPtr(g) && g.address@ == (OperandV::Local { name: base, ty: ptr_type() })
        && operands_model(g.indices@) == seq![const_int(32, 0), const_int(32, field)] && g.dest@ == dest
        && g.in_bounds && g.source_element_type@ == st
}

/// `i` stores `value` at the pointer `address`, neither volatile nor atomic,
/// with alignment 8.
pub open spec fn is_store_to(i: Instruction, address: NameV, value: OperandV) -> bool {
    i matches Instruction::Store(s) && s.address@ == (OperandV::Local { name: address, ty: ptr_type() })
        && s.value@ == value && !s.volatile && s.atomicity is None && s.alignment == 8
}

/// `instrs[0..4]` cast the function pointer into `tmp$c`, allocate the
/// closure structure at `tmp$(c+1)`, and store the function pointer in its
/// first field through `tmp$(c+2)`; then for each captured value `i`, one
/// instruction computes the address of field `i + 1` into `tmp$(c+3+i)` and
/// the next stores the value there.
pub open spec fn make_closure_instrs(
    instrs: Seq<Instruction>,
    fn_ptr: CAtomV,
    captured: Seq<CAtom>,
    env: Seq<(Seq<char>, OperandV)>,
    c: nat,
) -> bool {
    let st = closure_struct_type(captured, env);
    &&& instrs.len() == 4 + 2 * captured.len()
    &&& instrs[0] matches Instruction::BitCast(b) && b.operand@ == catom_operand(fn_ptr, env)
        && b.to_type@ == ptr_type() && b.dest@ == tmp_name(c)
    &&& instrs[1] matches Instruction::Alloca(a) && a.allocated_type@ == st && a.num_elements@ == const_int(
        64,
        1,
    ) && a.dest@ == tmp_name(c + 1) && a.alignment == 8
    &&& is_field_address(instrs[2], tmp_name(c + 1), 0, st, tmp_name(c + 2))
    &&& is_store_to(
        instrs[3],
        tmp_name(c + 2),
        OperandV::Local { name: tmp_name(c), ty: ptr_type() },
    )
    &&& forall|i: int|
        0 <= i < captured.len() ==> is_field_address(
            #[trigger] instrs[4 + 2 * i],
            tmp_name(c + 1),
            (i + 1) as u64,
            st,
            tmp_name((c + 3 + i) as nat),
        ) && is_store_to(
            instrs[5 + 2 * i],
            tmp_name((c + 3 + i) as nat),
            catom_operand(captured[i]@, env),
        )
}

/// The address of field `field` of the structure of type `st` at `base`.
fn field_address(base: &Name, field: u64, st: &TypeRef, dest: Name, types: &Types) -> (i: Instruction)
    ensures
        is_field_address(i, base@, field, st@, dest@),
{
    let indices = vec![
        Operand::ConstantOperand(ConstantRef::new(Constant::Int { bits: 32, value: 0 })),
        Operand::ConstantOperand(ConstantRef::new(Constant::Int { bits: 32, value: field })),
    ];
    assert(operands_model(indices@) =~= seq![const_int(32, 0), const_int(32, field)]);
    Instruction::GetElementPtr(
        instruction::GetElementPtr {
            address: Operand::LocalOperand { name: base.clone(), ty: types.pointer() },
            indices,
            dest,
            in_bounds: true,
            source_element_type: st.clone(),
        },
    )
}

/// A store of `value` at the pointer `address`, with alignment 8.
fn store_to(address: Name, value: Operand, types: &Types) -> (i: Instruction)
    ensures
        is_store_to(i, address@, value@),
{
    Instruction::Store(
        instruction::Store {
            address: Operand::LocalOperand { name: address, ty: types.pointer() },
            value,
            volatile: false,
            atomicity: None,
            alignment: 8,
        },
    )
}

/// Builds a closure on the stack: a structure holding the function pointer,
/// cast to a pointer, and then each captured value.  The result is the
/// pointer to the structure.
pub fn compile_make_closure(
    fn_ptr: &CAtom,
    captured: &Vec<CAtom>,
    types: &Types,
    gensym: &mut Gensym,
    env: &Vec<(Ident, Operand)>,
) -> (r: (Vec<Instruction>, Operand))
    requires
        old(gensym)@ + 3 + captured@.len() <= u64::MAX,
        catom_compilable(fn_ptr@, env_model(env@)),
        forall|i: int| 0 <= i < captured@.len() ==> catom_compilable(#[trigger] captured@[i]@, env_model(env@)),
    ensures
        final(gensym)@ == old(gensym)@ + 3 + captured@.len(),
        make_closure_instrs(r.0@, fn_ptr@, captured@, env_model(env@), old(gensym)@),
        r.1@ == (OperandV::Local { name: tmp_name(old(gensym)@ + 1), ty: ptr_type() }),
{
    let ghost c = gensym@;
    let ghost e = env_model(env@);
    let ghost n = captured@.len();
    let mut instrs: Vec<Instruction> = Vec::new();

    let fn_ptr_op = compile_catom(fn_ptr, types, env);
    let fn_ptr_cast_dest = fresh_name(gensym);
    instrs.push(
        Instruction::BitCast(
            instruction::BitCast {
                operand: fn_ptr_op,
                to_type: types.pointer(),
                dest: fn_ptr_cast_dest.clone(),
            },
        ),
    );

    let mut struct_fields: Vec<TypeRef> = vec![types.pointer()];
    let mut k: usize = 0;
    while k < captured.len()
        invariant
            k <= captured@.len(),
            e == env_model(env@),
            forall|i: int| 0 <= i < captured@.len() ==> catom_compilable(#[trigger] captured@[i]@, e),
            type_refs_model(struct_fields@) =~= seq![ptr_type()] + Seq::new(
                k as nat,
                |i: int| operand_v_type(catom_operand(captured@[i]@, e)),
            ),
        decreases captured@.len() - k,
    {
        let cap_op = compile_catom(&captured[k], types, env);
        proof {
            lemma_operand_model(cap_op);
            lemma_compilable_typable(captured@[k as int]@, e);
        }
        let ghost before = type_refs_model(struct_fields@);
        let t = types.type_of(&cap_op);
        struct_fields.push(t);
        assert(type_refs_model(struct_fields@) =~= before.push(t@));
        k += 1;
    }
    let closure_struct_ty = types.struct_of(struct_fields, false);
    assert(closure_struct_ty@ == closure_struct_type(captured@, e));

    let alloca_dest = fresh_name(gensym);
    instrs.push(
        Instruction::Alloca(
            instruction::Alloca {
                allocated_type: closure_struct_ty.clone(),
                num_elements: Operand::ConstantOperand(ConstantRef::new(Constant::Int { bits: 64, value: 1 })),
                dest: alloca_dest.clone(),
                alignment: 8,
            },
        ),
    );

    let fn_field_dest = fresh_name(gensym);
    instrs.push(field_address(&alloca_dest, 0, &closure_struct_ty, fn_field_dest.clone(), types));
    instrs.push(
        store_to(
            fn_field_dest,
            Operand::LocalOperand { name: fn_ptr_cast_dest, ty: types.pointer() },
            types,
        ),
    );

    let mut j: usize = 0;
    while j < captured.len()
        invariant
            j <= captured@.len(),
            e == env_model(env@),
            n == captured@.len(),
            forall|i: int| 0 <= i < captured@.len() ==> catom_compilable(#[trigger] captured@[i]@, e),
            gensym@ == c + 3 + j,
            c + 3 + n <= u64::MAX,
            alloca_dest@ == tmp_name(c + 1),
            closure_struct_ty@ == closure_struct_type(captured@, e),
            instrs@.len() == 4 + 2 * j,
            make_closure_prefix(instrs@, fn_ptr@, captured@, e, c),
            forall|i: int|
                0 <= i < j ==> is_field_address(
                    #[trigger] instrs@[4 + 2 * i],
                    tmp_name(c + 1),
                    (i + 1) as u64,
                    closure_struct_type(captured@, e),
                    tmp_name((c + 3 + i) as nat),
                ) && is_store_to(
                    instrs@[5 + 2 * i],
                    tmp_name((c + 3 + i) as nat),
                    catom_operand(captured@[i]@, e),
                ),
        decreases captured@.len() - j,
    {
        let cap_op = compile_catom(&captured[j], types, env);
        let field_idx: u64 = (j + 1) as u64;
        let field_dest = fresh_name(gensym);
        instrs.push(field_address(&alloca_dest, field_idx, &closure_struct_ty, field_dest.clone(), types));
        instrs.push(store_to(field_dest, cap_op, types));
        j += 1;
    }

    let result = Operand::LocalOperand { name: alloca_dest, ty: types.pointer() };
    (instrs, result)
}

/// The first four instructions of [`make_closure_instrs`].
pub open spec fn make_closure_prefix(
    instrs: Seq<Instruction>,
    fn_ptr: CAtomV,
    captured: Seq<CAtom>,
    env: Seq<(Seq<char>, OperandV)>,
    c: nat,
) -> bool {
    let st = closure_struct_type(captured, env);
    &&& instrs.len() >= 4
    &&& instrs[0] matches Instruction::BitCast(b) && b.operand@ == catom_operand(fn_ptr, env)
        && b.to_type@ == ptr_type() && b.dest@ == tmp_name(c)
    &&& instrs[1] matches Instruction::Alloca(a) && a.allocated_type@ == st && a.num_elements@ == const_int(
        64,
        1,
    ) && a.dest@ == tmp_name(c + 1) && a.alignment == 8
    &&& is_field_address(instrs[2], tmp_name(c + 1), 0, st, tmp_name(c + 2))
    &&& is_store_to(
        instrs[3],
        tmp_name(c + 2),
        OperandV::Local { name: tmp_name(c), ty: ptr_type() },
    )
}

/// `instrs` compute the address of field `idx` of the structure that the
/// operand of `env_val` points to into `tmp$c`, and load the field, of the
/// LLVM type of `field_type`, from there into `tmp$(c+1)`.
pub open spec fn project_instrs(
    instrs: Seq<Instruction>,
    env_val: CAtomV,
    idx: usize,
    field_type: TypeV,
    env: Seq<(Seq<char>, OperandV)>,
    c: nat,
) -> bool {
    &&& instrs.len() == 2
    &&& instrs[0] matches Instruction::GetElementPtr(g) && g.address@ == catom_operand(env_val, env)
        && operands_model(g.indices@) == seq![const_int(32, 0), const_int(32, idx as u64)]
        && g.dest@ == tmp_name(c) && g.in_bounds && g.source_element_type@ == ptr_type()
    &&& instrs[1] matches Instruction::Load(l) && l.address@ == (OperandV::Local {
        name: tmp_name(c),
        ty: ptr_type(),
    }) && l.dest@ == tmp_name(c + 1) && l.loaded_ty@ == llvm_type_spec(field_type) && !l.volatile
        && l.atomicity is None && l.alignment == 8
}

/// Reads field `idx` of a closure's environment: its address, then a load
/// of the field's type.  The result is the loaded value.
pub fn compile_project(
    env_val: &CAtom,
    idx: usize,
    field_type: &SType,
    types: &Types,
    gensym: &mut Gensym,
    env: &Vec<(Ident, Operand)>,
) -> (r: (Vec<Instruction>, Operand))
    requires
        old(gensym)@ + 2 <= u64::MAX,
        catom_compilable(env_val@, env_model(env@)),
        has_llvm_type(field_type@),
    ensures
        final(gensym)@ == old(gensym)@ + 2,
        project_instrs(r.0@, env_val@, idx, field_type@, env_model(env@), old(gensym)@),
        r.1@ == (OperandV::Local { name: tmp_name(old(gensym)@ + 1), ty: llvm_type_spec(field_type@) }),
{
    let mut instrs: Vec<Instruction> = Vec::new();
    let env_op = compile_catom(env_val, types, env);
    let field_llvm_ty = llvm_type(field_type, types);
    let gep_dest = fresh_name(gensym);
    let struct_ty = types.pointer();
    let indices = vec![
        Operand::ConstantOperand(ConstantRef::new(Constant::Int { bits: 32, value: 0 })),
        Operand::ConstantOperand(ConstantRef::new(Constant::Int { bits: 32, value: idx as u64 })),
    ];
    assert(operands_model(indices@) =~= seq![const_int(32, 0), const_int(32, idx as u64)]);
    instrs.push(
        Instruction::GetElementPtr(
            instruction::GetElementPtr {
                address: env_op,
                indices,
                dest: gep_dest.clone(),
                in_bounds: true,
                source_element_type: struct_ty,
            },
        ),
    );
    let load_dest = fresh_name(gensym);
    instrs.push(
        Instruction::Load(
            instruction::Load {
                address: Operand::LocalOperand { name: gep_dest, ty: types.pointer() },
                dest: load_dest.clone(),
                loaded_ty: field_llvm_ty.clone(),
                volatile: false,
                atomicity: None,
                alignment: 8,
            },
        ),
    );
    let result = Operand::LocalOperand { name: load_dest, ty: field_llvm_ty };
    (instrs, result)
}

/// The parameter types of a curried function type, outermost first.
pub open spec fn arrow_params(t: TypeV) -> Seq<TypeV>
    decreases t,
{
    match t {
        TypeV::Arrow(p, r) => seq![*p] + arrow_params(*r),
        _ => Seq::empty(),
    }
}

/// The final result type of a curried function type.
pub open spec fn arrow_result(t: TypeV) -> TypeV
    decreases t,
{
    match t {
        TypeV::Arrow(_, r) => arrow_result(*r),
        _ => t,
    }
}

/// Every parameter and the final result of a function type have LLVM types.
pub open spec fn arrow_has_llvm_types(t: TypeV) -> bool
    decreases t,
{
    match t {
        TypeV::Arrow(p, r) => has_llvm_type(*p) && arrow_has_llvm_types(*r),
        _ => has_llvm_type(t),
    }
}

/// The LLVM types of a list of source types.
pub open spec fn llvm_types_spec(ts: Seq<TypeV>) -> Seq<LType> {
    Seq::new(ts.len(), |i: int| llvm_type_spec(ts[i]))
}

/// Appends the LLVM types of the parameters of `ty` to `params` and returns
/// that of its final result.
fn arrow_parts(ty: &SType, types: &Types, params: &mut Vec<TypeRef>) -> (r: TypeRef)
    requires
        arrow_has_llvm_types(ty@),
    ensures
        type_refs_model(final(params)@) == type_refs_model(old(params)@) + llvm_types_spec(arrow_params(ty@)),
        r@ == llvm_type_spec(arrow_result(ty@)),
    decreases ty,
{
    match ty {
        SType::Arrow(p, res) => {
            let ghost before = type_refs_model(params@);
            let t = llvm_type(p, types);
            params.push(t);
            assert(type_refs_model(params@) =~= before.push(t@));
            let r = arrow_parts(res, types, params);
            assert(llvm_types_spec(arrow_params(ty@)) =~= seq![llvm_type_spec(p@)] + llvm_types_spec(
                arrow_params(res@),
            ));
            assert(type_refs_model(params@) =~= before + llvm_types_spec(arrow_params(ty@)));
            r
        },
        _ => {
            assert(llvm_types_spec(arrow_params(ty@)) =~= Seq::<LType>::empty());
            assert(type_refs_model(params@) =~= type_refs_model(params@) + Seq::<LType>::empty());
            llvm_type(ty, types)
        },
    }
}

/// The LLVM types of the parameters of a curried function type, outermost
/// first, and of its final result.
pub fn extract_arrow_params_and_ret(arrow_ty: &SType, types: &Types) -> (r: (Vec<TypeRef>, TypeRef))
    requires
        arrow_ty@ is Arrow,
        arrow_has_llvm_types(arrow_ty@),
    ensures
        type_refs_model(r.0@) == llvm_types_spec(arrow_params(arrow_ty@)),
        r.1@ == llvm_type_spec(arrow_result(arrow_ty@)),
{
    let mut params: Vec<TypeRef> = Vec::new();
    assert(type_refs_model(params@) =~= Seq::<LType>::empty());
    let ret = arrow_parts(arrow_ty, types, &mut params);
    assert(type_refs_model(params@) =~= llvm_types_spec(arrow_params(arrow_ty@)));
    (params, ret)
}

/// The LLVM function type of a curried function type: all its parameters
/// at once, not variadic.
pub open spec fn flat_function_type(t: TypeV) -> LType {
    LType::FuncType {
        result_type: Box::new(llvm_type_spec(arrow_result(t))),
        param_types: llvm_types_spec(arrow_params(t)),
        is_var_arg: false,
    }
}

/// The LLVM function type of a curried function type.
pub fn flatten_arrow(arrow_ty: &SType, types: &Types) -> (r: TypeRef)
    requires
        arrow_ty@ is Arrow,
        arrow_has_llvm_types(arrow_ty@),
    ensures
        r@ == flat_function_type(arrow_ty@),
{
    let (params, ret) = extract_arrow_params_and_ret(arrow_ty, types);
    types.func_type(ret, params, false)
}

/// Some declaration in `decls` has the name `name`.
pub open spec fn declares(decls: Seq<FunctionDeclaration>, name: Seq<char>) -> bool {
    exists|i: int| 0 <= i < decls.len() && (#[trigger] decls[i]).name@ == name
}

/// `d` declares an external C function `name` of the flattened type of the
/// curried function type `t`, its parameters numbered from 0 and without
/// attributes.
pub open spec fn is_external_declaration(d: FunctionDeclaration, name: Seq<char>, t: TypeV) -> bool {
    &&& d.name@ == name
    &&& parameter_types(d.parameters@) == llvm_types_spec(arrow_params(t))
    &&& forall|i: int| 0 <= i < d.parameters@.len() ==> (#[trigger] d.parameters@[i]).name@ == NameV::Number(
        i as usize,
    ) && d.parameters@[i].attributes@.len() == 0
    &&& !d.is_var_arg
    &&& d.return_type@ == llvm_type_spec(arrow_result(t))
    &&& d.return_attributes@.len() == 0
    &&& d.linkage == Linkage::External
    &&& d.visibility == Visibility::Default
    &&& d.dll_storage_class == DLLStorageClass::Default
    &&& d.calling_convention == CallingConvention::C
    &&& d.alignment == 0
    &&& d.garbage_collector_name is None
}

/// Whether some declaration in `decls` has the name `name`.
fn has_declaration(decls: &Vec<FunctionDeclaration>, name: &str) -> (b: bool)
    ensures
        b == declares(decls@, name@),
{
    let wanted = name.to_string();
    let mut i: usize = 0;
    while i < decls.len()
        invariant
            i <= decls@.len(),
            wanted@ == name@,
            forall|j: int| 0 <= j < i ==> (#[trigger] decls@[j]).name@ != name@,
        decreases decls@.len() - i,
    {
        if decls[i].name == wanted {
            assert(decls@[i as int].name@ == name@);
            return true;
        }
        i += 1;
    }
    false
}

/// Declares the external function `name` of the curried type `arrow_ty`,
/// unless a declaration of that name is there already.
pub fn ensure_func_decl(name: &str, arrow_ty: &SType, types: &Types, func_decls: &mut Vec<FunctionDeclaration>)
    requires
        arrow_ty@ is Arrow,
        arrow_has_llvm_types(arrow_ty@),
    ensures
        declares(old(func_decls)@, name@) ==> final(func_decls)@ == old(func_decls)@,
        !declares(old(func_decls)@, name@) ==> final(func_decls)@.len() == old(func_decls)@.len() + 1
            && final(func_decls)@.subrange(0, old(func_decls)@.len() as int) == old(func_decls)@
            && is_external_declaration(final(func_decls)@.last(), name@, arrow_ty@),
{
    if has_declaration(func_decls, name) {
        return;
    }
    let (param_tys, ret_ty) = extract_arrow_params_and_ret(arrow_ty, types);
    let mut parameters: Vec<Parameter> = Vec::new();
    let mut i: usize = 0;
    while i < param_tys.len()
        invariant
            i <= param_tys@.len(),
            parameters@.len() == i,
            forall|j: int| 0 <= j < i ==> (#[trigger] parameters@[j]).ty@ == param_tys@[j]@
                && parameters@[j].name@ == NameV::Number(j as usize) && parameters@[j].attributes@.len() == 0,
        decreases param_tys@.len() - i,
    {
        parameters.push(Parameter { name: Name::Number(i), ty: param_tys[i].clone(), attributes: Vec::new() });
        i += 1;
    }
    assert(parameter_types(parameters@) =~= type_refs_model(param_tys@));
    let decl = FunctionDeclaration {
        name: name.to_string(),
        parameters,
        is_var_arg: false,
        return_type: ret_ty,
        return_attributes: Vec::new(),
        linkage: Linkage::External,
        visibility: Visibility::Default,
        dll_storage_class: DLLStorageClass::Default,
        calling_convention: CallingConvention::C,
        alignment: 0,
        garbage_collector_name: None,
    };
    let ghost before = func_decls@;
    func_decls.push(decl);
    assert(func_decls@.subrange(0, before.len() as int) =~= before);
}

/// The declarations after `name`, of type `t`, is called: unchanged where
/// the environment holds the name or a declaration of it exists, else with
/// an external declaration of it appended.
pub open spec fn declarations_after(
    before: Seq<FunctionDeclaration>,
    after: Seq<FunctionDeclaration>,
    name: Seq<char>,
    t: TypeV,
    env: Seq<(Seq<char>, OperandV)>,
) -> bool {
    if env_lookup(env, name) is Some || declares(before, name) {
        after == before
    } else {
        after.len() == before.len() + 1 && after.subrange(0, before.len() as int) == before
            && is_external_declaration(after.last(), name, t)
    }
}

/// The operand and the LLVM function type of a called function: the
/// environment's operand for its name, else a reference to the global
/// function of that name.
pub open spec fn function_operand(name: Seq<char>, t: TypeV, env: Seq<(Seq<char>, OperandV)>) -> OperandV {
    match env_lookup(env, name) {
        Some(op) => op,
        None => OperandV::Constant(ConstantV::GlobalReference { name: NameV::Name(name), ty: flat_function_type(t) }),
    }
}

/// The operand and function type of the function an atom names; a function
/// the environment does not hold is declared as external.
pub fn compile_function_operand(
    func: &CAtom,
    types: &Types,
    env: &Vec<(Ident, Operand)>,
    func_decls: &mut Vec<FunctionDeclaration>,
) -> (r: (Operand, TypeRef))
    requires
        func@ matches AExprV::Var(_, t) && t is Arrow && arrow_has_llvm_types(t),
    ensures
        func@ matches AExprV::Var(name, t) && r.0@ == function_operand(name, t, env_model(env@))
            && r.1@ == flat_function_type(t) && declarations_after(
            old(func_decls)@,
            final(func_decls)@,
            name,
            t,
            env_model(env@),
        ),
{
    match func {
        CAtom::Var(name, arrow_ty) => {
            let func_ty = flatten_arrow(arrow_ty, types);
            if let Some(op) = lookup_env(env, name) {
                (op.clone(), func_ty)
            } else {
                ensure_func_decl(name.as_str(), arrow_ty, types, func_decls);
                let global_ref = Operand::ConstantOperand(
                    ConstantRef::new(
                        Constant::GlobalReference { name: Name::Name(Box::new(name.clone())), ty: func_ty.clone() },
                    ),
                );
                (global_ref, func_ty)
            }
        },
        _ => {
            assert(false);
            (Operand::MetadataOperand, types.void())
        },
    }
}

/// A call of `func_op`, of function type `func_ty`, on the operands of
/// `args`, each without attributes, into `dest`, with the C calling
/// convention.
pub fn compile_call(
    func_op: Operand,
    func_ty: TypeRef,
    args: &Vec<CAtom>,
    dest: Option<Name>,
    is_tail_call: bool,
    types: &Types,
    env: &Vec<(Ident, Operand)>,
) -> (r: instruction::Call)
    requires
        forall|i: int| 0 <= i < args@.len() ==> catom_compilable(#[trigger] args@[i]@, env_model(env@)),
    ensures
        r.function matches Either::Right(f) && f@ == func_op@,
        r.function_ty@ == func_ty@,
        r.arguments@.len() == args@.len(),
        forall|i: int|
            0 <= i < args@.len() ==> (#[trigger] r.arguments@[i]).0@ == catom_operand(args@[i]@, env_model(env@))
                && r.arguments@[i].1@.len() == 0,
        r.return_attributes@.len() == 0,
        r.dest == dest,
        r.function_attributes@.len() == 0,
        r.is_tail_call == is_tail_call,
        r.calling_convention == CallingConvention::C,
{
    let mut arguments: Vec<(Operand, Vec<ParameterAttribute>)> = Vec::new();
    let mut i: usize = 0;
    while i < args.len()
        invariant
            i <= args@.len(),
            arguments@.len() == i,
            forall|k: int| 0 <= k < args@.len() ==> catom_compilable(#[trigger] args@[k]@, env_model(env@)),
            forall|k: int|
                0 <= k < i ==> (#[trigger] arguments@[k]).0@ == catom_operand(args@[k]@, env_model(env@))
                    && arguments@[k].1@.len() == 0,
        decreases args@.len() - i,
    {
        let op = compile_catom(&args[i], types, env);
        arguments.push((op, Vec::new()));
        i += 1;
    }
    instruction::Call {
        function: Either::Right(func_op),
        function_ty: func_ty,
        arguments,
        return_attributes: Vec::new(),
        dest,
        function_attributes: Vec::new(),
        is_tail_call,
        calling_convention: CallingConvention::C,
    }
}

/// The type of the result of a binary operator on operands of type `t`.
pub open spec fn binop_result_type(op: BinOp, t: LType) -> LType {
    match op {
        BinOp::Eq | BinOp::Neq | BinOp::Lt | BinOp::Gt | BinOp::Leq | BinOp::Geq => cmp_result_type(t),
        _ => t,
    }
}

/// A unary operator applies to an operand of type `t`: negation to a
/// floating-point or 64-bit integer, logical negation to a boolean.
pub open spec fn unary_operand_ok(op: UnaryOp, t: LType) -> bool {
    match op {
        UnaryOp::Neg => t is FPType || t == (LType::IntegerType { bits: 64 }),
        UnaryOp::Not => t == (LType::IntegerType { bits: 1 }),
    }
}

/// The type of an atom's operand.
pub open spec fn catom_type(a: CAtomV, env: Seq<(Seq<char>, OperandV)>) -> LType {
    operand_v_type(catom_operand(a, env))
}

/// A right-hand side can be compiled: its atoms can, the operands of a
/// binary operator share a type, a unary operator fits its operand, and a
/// call is of a variable of function type.
pub open spec fn cexpr_compilable(e: CExprV, env: Seq<(Seq<char>, OperandV)>) -> bool {
    match e {
        CExprV::Atom(a) => catom_compilable(a, env),
        CExprV::BinOp(_, l, r) => catom_compilable(l, env) && catom_compilable(r, env) && catom_type(l, env)
            == catom_type(r, env),
        CExprV::UnaryOp(op, a) => catom_compilable(a, env) && unary_operand_ok(op, catom_type(a, env)),
        CExprV::Call(f, args) => callee_compilable(f) && catoms_compilable(args, env),
    }
}

/// A called atom is a variable of a function type whose parts have LLVM
/// types.
pub open spec fn callee_compilable(f: CAtomV) -> bool {
    f matches AExprV::Var(_, t) && t is Arrow && arrow_has_llvm_types(t)
}

/// Every atom of `args` can be compiled.
pub open spec fn catoms_compilable(args: Seq<CAtomV>, env: Seq<(Seq<char>, OperandV)>) -> bool {
    forall|i: int| 0 <= i < args.len() ==> catom_compilable(#[trigger] args[i], env)
}

/// `call` calls the function `name` of type `t` on the operands of `args`,
/// each without attributes, into `dest`, with the C calling convention.
pub open spec fn is_call_of(
    call: instruction::Call,
    name: Seq<char>,
    t: TypeV,
    args: Seq<CAtomV>,
    env: Seq<(Seq<char>, OperandV)>,
    dest: Option<NameV>,
    is_tail_call: bool,
) -> bool {
    &&& call.function matches Either::Right(f) && f@ == function_operand(name, t, env)
    &&& call.function_ty@ == flat_function_type(t)
    &&& call.arguments@.len() == args.len()
    &&& forall|i: int|
        0 <= i < args.len() ==> (#[trigger] call.arguments@[i]).0@ == catom_operand(args[i], env)
            && call.arguments@[i].1@.len() == 0
    &&& call.return_attributes@.len() == 0
    &&& match dest {
        Some(d) => call.dest matches Some(n) && n@ == d,
        None => call.dest is None,
    }
    &&& call.function_attributes@.len() == 0
    &&& call.is_tail_call == is_tail_call
    &&& call.calling_convention == CallingConvention::C
}

/// The counter after compiling a right-hand side: an operator or a call
/// draws one temporary.
pub open spec fn cexpr_next(e: CExprV, c: nat) -> nat {
    match e {
        CExprV::Atom(_) => c,
        _ => c + 1,
    }
}

/// The operand a right-hand side compiles to: the atom's operand, or the
/// temporary `tmp$c` of the result's type.
pub open spec fn cexpr_result(e: CExprV, env: Seq<(Seq<char>, OperandV)>, c: nat) -> OperandV {
    match e {
        CExprV::Atom(a) => catom_operand(a, env),
        CExprV::BinOp(op, l, _) => OperandV::Local { name: tmp_name(c), ty: binop_result_type(op, catom_type(l, env)) },
        CExprV::UnaryOp(_, a) => OperandV::Local { name: tmp_name(c), ty: catom_type(a, env) },
        CExprV::Call(f, _) => match f {
            AExprV::Var(_, t) => OperandV::Local { name: tmp_name(c), ty: llvm_type_spec(arrow_result(t)) },
            _ => OperandV::Metadata,
        },
    }
}

/// `instrs` are the instructions of a right-hand side with the counter at
/// `c`, and the declarations go from `d1` to `d2`: none for an atom; for an
/// operator its instruction into `tmp$c`; for a call, the call into `tmp$c`,
/// with the callee declared if it is external.
pub open spec fn cexpr_compiled(
    e: CExprV,
    env: Seq<(Seq<char>, OperandV)>,
    c: nat,
    instrs: Seq<Instruction>,
    d1: Seq<FunctionDeclaration>,
    d2: Seq<FunctionDeclaration>,
) -> bool {
    match e {
        CExprV::Atom(_) => instrs.len() == 0 && d2 == d1,
        CExprV::BinOp(op, l, rt) => instrs.len() == 1 && d2 == d1 && exists|lo: Operand, ro: Operand, d: Name|
            lo@ == catom_operand(l, env) && ro@ == catom_operand(rt, env) && d@ == tmp_name(c) && instrs[0]
                == #[trigger] binop_instruction(op, lo, ro, d, catom_type(l, env) is FPType),
        CExprV::UnaryOp(op, a) => instrs.len() == 1 && d2 == d1 && exists|o: Operand, d: Name|
            o@ == catom_operand(a, env) && d@ == tmp_name(c) && instrs[0] == #[trigger] unaryop_instruction(
                op,
                o,
                d,
                catom_type(a, env) is FPType,
            ),
        CExprV::Call(f, args) => f matches AExprV::Var(name, t) && instrs.len() == 1 && (instrs[0] matches Instruction::Call(
            call,
        ) && is_call_of(call, name, t, args, env, Some(tmp_name(c)), false)) && declarations_after(
            d1,
            d2,
            name,
            t,
            env,
        ),
    }
}

/// Compiles a right-hand side: an atom needs no instruction; an operator
/// or a call is one instruction into `tmp$c`, whose value is the result.
pub fn compile_cexpr(
    cexpr: &CExpr,
    types: &Types,
    gensym: &mut Gensym,
    env: &Vec<(Ident, Operand)>,
    func_decls: &mut Vec<FunctionDeclaration>,
) -> (r: (Vec<Instruction>, Operand))
    requires
        old(gensym)@ < u64::MAX,
        cexpr_compilable(cexpr@, env_model(env@)),
    ensures
        final(gensym)@ == cexpr_next(cexpr@, old(gensym)@),
        r.1@ == cexpr_result(cexpr@, env_model(env@), old(gensym)@),
        cexpr_compiled(cexpr@, env_model(env@), old(gensym)@, r.0@, old(func_decls)@, final(func_decls)@),
{
    let ghost e = env_model(env@);
    match cexpr {
        CExpr::Atom(catom) => (Vec::new(), compile_catom(catom, types, env)),
        CExpr::BinOp(op, left, right) => {
            let left_op = compile_catom(left, types, env);
            let right_op = compile_catom(right, types, env);
            let dest = fresh_name(gensym);
            proof {
                lemma_operand_model(left_op);
                lemma_operand_model(right_op);
                lemma_compilable_typable(left@, e);
                lemma_compilable_typable(right@, e);
            }
            let lc = left_op.clone();
            let dc = dest.clone();
            let ghost (lo, ro, d) = (lc, right_op, dc);
            let instr = compile_binop(op, lc, right_op, dc, types);
            assert(lo@ == catom_operand(left@, e) && ro@ == catom_operand(right@, e) && d@ == tmp_name(
                old(gensym)@,
            ) && instr == binop_instruction(*op, lo, ro, d, catom_type(left@, e) is FPType));
            let result_ty = types.type_of(&instr);
            (vec![instr], Operand::LocalOperand { name: dest, ty: result_ty })
        },
        CExpr::UnaryOp(op, operand) => {
            let opnd = compile_catom(operand, types, env);
            let dest = fresh_name(gensym);
            proof {
                lemma_operand_model(opnd);
                lemma_compilable_typable(operand@, e);
            }
            let dc = dest.clone();
            let ghost (o, d) = (opnd, dc);
            let instr = compile_unaryop(op, opnd, dc, types);
            assert(o@ == catom_operand(operand@, e) && d@ == tmp_name(old(gensym)@) && instr
                == unaryop_instruction(*op, o, d, catom_type(operand@, e) is FPType));
            let result_ty = types.type_of(&instr);
            (vec![instr], Operand::LocalOperand { name: dest, ty: result_ty })
        },
        CExpr::Call(func, args) => {
            let ghost ms = catoms_model(args@);
            assert(cexpr@ == CExprV::Call(func@, ms));
            assert(catoms_compilable(ms, e));
            let (func_op, func_ty) = compile_function_operand(func, types, env, func_decls);
            let ret_ty = match func_ty.as_ref() {
                Type::FuncType { result_type, .. } => result_type.clone(),
                _ => types.void(),
            };
            let dest = fresh_name(gensym);
            assert forall|i: int| 0 <= i < args@.len() implies catom_compilable(#[trigger] args@[i]@, e) by {
                assert(ms[i] == args@[i]@);
            }
            let call = compile_call(func_op, func_ty, args, Some(dest.clone()), false, types, env);
            assert forall|i: int| 0 <= i < args@.len() implies (#[trigger] call.arguments@[i]).0@ == catom_operand(
                catoms_model(args@)[i],
                e,
            ) by {
                assert(catoms_model(args@)[i] == args@[i]@);
            }
            (vec![Instruction::Call(call)], Operand::LocalOperand { name: dest, ty: ret_ty })
        },
    }
}

/// The C entry point: `main` calls the function `program`, of type
/// `program_fn_ty`, into `tmp$c`, and returns the 32-bit integer 0.
pub fn create_c_main(types: &Types, program_fn_ty: &TypeRef, gensym: &mut Gensym) -> (f: Function)
    requires
        old(gensym)@ < u64::MAX,
    ensures
        final(gensym)@ == old(gensym)@ + 1,
        f.name@ == "main"@,
        f.parameters@.len() == 0,
        !f.is_var_arg,
        f.return_type@ == (LType::IntegerType { bits: 32 }),
        f.basic_blocks@.len() == 1,
        f.basic_blocks@[0].name@ == NameV::Name("entry"@),
        f.basic_blocks@[0].instrs@.len() == 1,
        f.basic_blocks@[0].instrs@[0] matches Instruction::Call(call) && (call.function matches Either::Right(
            op,
        ) && op@ == OperandV::Constant(
            ConstantV::GlobalReference { name: NameV::Name("program"@), ty: program_fn_ty@ },
        )) && call.function_ty@ == program_fn_ty@ && call.arguments@.len() == 0
            && call.return_attributes@.len() == 0 && (call.dest matches Some(d) && d@ == tmp_name(
            old(gensym)@,
        )) && call.function_attributes@.len() == 0 && !call.is_tail_call && call.calling_convention
            == CallingConvention::C,
        f.basic_blocks@[0].term matches Terminator::Ret(r) && (r.return_operand matches Some(o) && o@
            == const_int(32, 0)),
        f.function_attributes@.len() == 0,
        f.return_attributes@.len() == 0,
        f.linkage == Linkage::External,
        f.visibility == Visibility::Default,
        f.dll_storage_class == DLLStorageClass::Default,
        f.calling_convention == CallingConvention::C,
        f.section is None,
        f.comdat is None,
        f.alignment == 0,
        f.garbage_collector_name is None,
        f.personality_function is None,
{
    let i32_ty = types.i32();
    let program_op = Operand::ConstantOperand(
        ConstantRef::new(
            Constant::GlobalReference { name: Name::Name(Box::new("program".to_string())), ty: program_fn_ty.clone() },
        ),
    );
    let call_dest = fresh_name(gensym);
    let call = instruction::Call {
        function: Either::Right(program_op),
        function_ty: program_fn_ty.clone(),
        arguments: Vec::new(),
        return_attributes: Vec::new(),
        dest: Some(call_dest),
        function_attributes: Vec::new(),
        is_tail_call: false,
        calling_convention: CallingConvention::C,
    };
    let mut entry = BasicBlock::new(Name::Name(Box::new("entry".to_string())));
    entry.instrs = vec![Instruction::Call(call)];
    entry.term = Terminator::Ret(
        Ret {
            return_operand: Some(
                Operand::ConstantOperand(ConstantRef::new(Constant::Int { bits: 32, value: 0 })),
            ),
        },
    );
    Function {
        name: "main".to_string(),
        parameters: Vec::new(),
        is_var_arg: false,
        return_type: i32_ty,
        basic_blocks: vec![entry],
        function_attributes: Vec::new(),
        return_attributes: Vec::new(),
        linkage: Linkage::External,
        visibility: Visibility::Default,
        dll_storage_class: DLLStorageClass::Default,
        calling_convention: CallingConvention::C,
        section: None,
        comdat: None,
        alignment: 0,
        garbage_collector_name: None,
        personality_function: None,
    }
}

/// `term` returns the operand `o`.
pub open spec fn returns_operand(term: Terminator, o: OperandV) -> bool {
    term matches Terminator::Ret(r) && (r.return_operand matches Some(x) && x@ == o)
}

/// `term` branches on `cond` to `t` where it holds and to `f` where not.
pub open spec fn branches_on(term: Terminator, cond: OperandV, t: NameV, f: NameV) -> bool {
    term matches Terminator::CondBr(br) && br.condition@ == cond && br.true_dest@ == t && br.false_dest@ == f
}

/// `i` is a call as [`is_call_of`] describes it.
pub open spec fn is_call_instr(
    i: Instruction,
    name: Seq<char>,
    t: TypeV,
    args: Seq<CAtomV>,
    env: Seq<(Seq<char>, OperandV)>,
    dest: Option<NameV>,
    is_tail_call: bool,
) -> bool {
    i matches Instruction::Call(call) && is_call_of(call, name, t, args, env, dest, is_tail_call)
}

/// The block label `prefix$k`.
pub open spec fn block_label(prefix: Seq<char>, k: nat) -> NameV {
    NameV::Name(dollar_name(prefix, k))
}

/// A fresh block label `prefix$k` for the counter `k`.
fn block_name(gensym: &mut Gensym, prefix: &str) -> (r: Name)
    requires
        old(gensym)@ < u64::MAX,
    ensures
        r@ == block_label(prefix@, old(gensym)@),
        final(gensym)@ == old(gensym)@ + 1,
{
    Name::Name(Box::new(gensym.fresh_with_prefix(prefix)))
}

/// The environment with `x` bound to `op` in front of the others.
pub open spec fn env_bind(env: Seq<(Seq<char>, OperandV)>, x: Seq<char>, op: OperandV) -> Seq<(Seq<char>, OperandV)> {
    seq![(x, op)] + env
}

/// The counter after compiling a tail from counter `c`.
pub open spec fn tail_next(t: CTailV, c: nat) -> nat
    decreases t,
{
    match t {
        CTailV::Return(e) => cexpr_next(e, c) + 1,
        CTailV::TailCall(..) => c + 2,
        CTailV::Sequence(CStmtV::Assign(_, e, _), k) => tail_next(*k, cexpr_next(e, c)),
        CTailV::If(_, a, b) => tail_next(*b, tail_next(*a, c)) + 1,
    }
}

/// A tail can be compiled from counter `c`: each right-hand side, call and
/// condition can, in the environment that the assignments before it build.
pub open spec fn tail_compilable(t: CTailV, env: Seq<(Seq<char>, OperandV)>, c: nat) -> bool
    decreases t,
{
    match t {
        CTailV::Return(e) => cexpr_compilable(e, env),
        CTailV::TailCall(f, args) => callee_compilable(f) && catoms_compilable(args, env),
        CTailV::Sequence(CStmtV::Assign(x, e, _), k) => cexpr_compilable(e, env) && tail_compilable(
            *k,
            env_bind(env, x, cexpr_result(e, env, c)),
            cexpr_next(e, c),
        ),
        CTailV::If(cond, a, b) => catom_compilable(cond, env) && tail_compilable(*a, env, c)
            && tail_compilable(*b, env, tail_next(*a, c)),
    }
}

/// The choices that show how blocks were compiled from a tail: for an
/// assignment, the instructions of its right-hand side and the declarations
/// after it; for a conditional, where the blocks of the second branch start
/// and the declarations after the first.
pub enum TailWitness {
    Leaf,
    Assign { instrs: Seq<Instruction>, decls: Seq<FunctionDeclaration>, rest: Box<TailWitness> },
    Branch {
        split: int,
        decls: Seq<FunctionDeclaration>,
        then_w: Box<TailWitness>,
        else_w: Box<TailWitness>,
    },
}

/// `bs` are the blocks of tail `t` compiled from counter `c`, with `pre`
/// before the instructions of the first block, the declarations going from
/// `d1` to `d2`, as the choices `w` show:
/// - a return is one block `ret$k` of the right-hand side's instructions,
///   returning its result;
/// - a tail call is one block `tailcall$k` of a tail call into `tmp$c`,
///   returning its result;
/// - an assignment puts its instructions before those of the rest, which is
///   compiled with the variable bound to the result;
/// - a conditional is a block `if.entry$k` holding `pre` that branches on
///   the condition to the first block of each branch, followed by the blocks
///   of the branch taken when it is true and then those of the other.
pub open spec fn tail_compiled_by(
    w: TailWitness,
    bs: Seq<BasicBlock>,
    pre: Seq<Instruction>,
    t: CTailV,
    env: Seq<(Seq<char>, OperandV)>,
    c: nat,
    d1: Seq<FunctionDeclaration>,
    d2: Seq<FunctionDeclaration>,
) -> bool
    decreases t,
{
    match t {
        CTailV::Return(e) => {
            &&& bs.len() == 1
            &&& bs[0].instrs@.len() >= pre.len()
            &&& bs[0].instrs@.subrange(0, pre.len() as int) == pre
            &&& cexpr_compiled(e, env, c, bs[0].instrs@.skip(pre.len() as int), d1, d2)
            &&& bs[0].name@ == block_label("ret"@, cexpr_next(e, c))
            &&& returns_operand(bs[0].term, cexpr_result(e, env, c))
        },
        CTailV::TailCall(f, args) => {
            &&& f matches AExprV::Var(name, ft) && declarations_after(d1, d2, name, ft, env)
                && is_call_instr(bs[0].instrs@[pre.len() as int], name, ft, args, env, Some(tmp_name(c)), true)
                && returns_operand(
                bs[0].term,
                OperandV::Local { name: tmp_name(c), ty: llvm_type_spec(arrow_result(ft)) },
            )
            &&& bs[0].instrs@.len() == pre.len() + 1
            &&& bs.len() == 1
            &&& bs[0].instrs@.subrange(0, pre.len() as int) == pre
            &&& bs[0].name@ == block_label("tailcall"@, c + 1)
        },
        CTailV::Sequence(CStmtV::Assign(x, e, _), k) => w matches TailWitness::Assign { instrs, decls, rest }
            && cexpr_compiled(e, env, c, instrs, d1, decls) && tail_compiled_by(
            *rest,
            bs,
            pre + instrs,
            *k,
            env_bind(env, x, cexpr_result(e, env, c)),
            cexpr_next(e, c),
            decls,
            d2,
        ),
        CTailV::If(cond, a, b) => w matches TailWitness::Branch { split, decls, then_w, else_w } && 2
            <= split < bs.len() && bs[0].instrs@ == pre && tail_compiled_by(
            *then_w,
            bs.subrange(1, split),
            Seq::empty(),
            *a,
            env,
            c,
            d1,
            decls,
        ) && tail_compiled_by(
            *else_w,
            bs.subrange(split, bs.len() as int),
            Seq::empty(),
            *b,
            env,
            tail_next(*a, c),
            decls,
            d2,
        ) && bs[0].name@ == block_label("if.entry"@, tail_next(*b, tail_next(*a, c))) && branches_on(
            bs[0].term,
            catom_operand(cond, env),
            bs[1].name@,
            bs[split].name@,
        ),
    }
}

/// `bs` are the blocks of tail `t` compiled from counter `c`, with `pre`
/// before the instructions of the first block, the declarations going from
/// `d1` to `d2`, as [`tail_compiled_by`] describes it for some choices.
pub open spec fn tail_compiled(
    bs: Seq<BasicBlock>,
    pre: Seq<Instruction>,
    t: CTailV,
    env: Seq<(Seq<char>, OperandV)>,
    c: nat,
    d1: Seq<FunctionDeclaration>,
    d2: Seq<FunctionDeclaration>,
) -> bool {
    exists|w: TailWitness| #[trigger] tail_compiled_by(w, bs, pre, t, env, c, d1, d2)
}

/// `bs2` is `bs` with `p` put before the instructions of its first block.
pub open spec fn with_prefix(bs: Seq<BasicBlock>, bs2: Seq<BasicBlock>, p: Seq<Instruction>) -> bool {
    &&& bs.len() >= 1
    &&& bs2.len() == bs.len()
    &&& forall|i: int| 1 <= i < bs.len() ==> bs2[i] == bs[i]
    &&& bs2[0].name == bs[0].name
    &&& bs2[0].term == bs[0].term
    &&& bs2[0].instrs@ == p + bs[0].instrs@
}

/// Putting instructions before the first block of a compiled tail gives the
/// tail compiled with them in front of its prefix, by the same choices.
proof fn lemma_tail_prefix(
    w: TailWitness,
    bs: Seq<BasicBlock>,
    bs2: Seq<BasicBlock>,
    p: Seq<Instruction>,
    pre: Seq<Instruction>,
    t: CTailV,
    env: Seq<(Seq<char>, OperandV)>,
    c: nat,
    d1: Seq<FunctionDeclaration>,
    d2: Seq<FunctionDeclaration>,
)
    requires
        tail_compiled_by(w, bs, pre, t, env, c, d1, d2),
        with_prefix(bs, bs2, p),
    ensures
        tail_compiled_by(w, bs2, p + pre, t, env, c, d1, d2),
    decreases t,
{
    let q = p + pre;
    match t {
        CTailV::Return(e) => {
            assert(bs2[0].instrs@.subrange(0, q.len() as int) =~= q);
            assert(bs2[0].instrs@.skip(q.len() as int) =~= bs[0].instrs@.skip(pre.len() as int));
        },
        CTailV::TailCall(f, args) => {
            assert(bs2[0].instrs@.subrange(0, q.len() as int) =~= q);
            assert(bs2[0].instrs@[q.len() as int] == bs[0].instrs@[pre.len() as int]);
        },
        CTailV::Sequence(CStmtV::Assign(x, e, _), k) => {
            let instrs = w->Assign_instrs;
            lemma_tail_prefix(
                *w->Assign_rest,
                bs,
                bs2,
                p,
                pre + instrs,
                *k,
                env_bind(env, x, cexpr_result(e, env, c)),
                cexpr_next(e, c),
                w->Assign_decls,
                d2,
            );
            assert(p + (pre + instrs) =~= q + instrs);
        },
        CTailV::If(cond, a, b) => {
            let n = w->Branch_split;
            assert(bs2.subrange(1, n) =~= bs.subrange(1, n));
            assert(bs2.subrange(n, bs2.len() as int) =~= bs.subrange(n, bs.len() as int));
            assert(bs2[1] == bs[1]);
            assert(bs2[n] == bs[n]);
        },
    }
}

/// Compiling a tail moves the counter forward.
proof fn lemma_tail_next_grows(t: CTailV, c: nat)
    ensures
        tail_next(t, c) > c,
    decreases t,
{
    match t {
        CTailV::Sequence(CStmtV::Assign(_, e, _), k) => lemma_tail_next_grows(*k, cexpr_next(e, c)),
        CTailV::If(_, a, b) => {
            lemma_tail_next_grows(*a, c);
            lemma_tail_next_grows(*b, tail_next(*a, c));
        },
        _ => {},
    }
}

/// A copy of an environment.
fn clone_env(env: &Vec<(Ident, Operand)>) -> (r: Vec<(Ident, Operand)>)
    ensures
        env_model(r@) == env_model(env@),
{
    let mut out: Vec<(Ident, Operand)> = Vec::new();
    let mut i: usize = 0;
    while i < env.len()
        invariant
            i <= env@.len(),
            out@.len() == i,
            forall|j: int| 0 <= j < i ==> (#[trigger] out@[j]).0@ == env@[j].0@ && out@[j].1@ == env@[j].1@,
        decreases env@.len() - i,
    {
        out.push((env[i].0.clone(), env[i].1.clone()));
        i += 1;
    }
    assert(env_model(out@) =~= env_model(env@));
    out
}

/// The block of a return.
fn compile_return(
    cexpr: &CExpr,
    types: &Types,
    gensym: &mut Gensym,
    env: &Vec<(Ident, Operand)>,
    func_decls: &mut Vec<FunctionDeclaration>,
) -> (r: Vec<BasicBlock>)
    requires
        cexpr_compilable(cexpr@, env_model(env@)),
        cexpr_next(cexpr@, old(gensym)@) + 1 <= u64::MAX,
    ensures
        final(gensym)@ == tail_next(CTailV::Return(cexpr@), old(gensym)@),
        r@.len() == 1,
        tail_compiled_by(
            TailWitness::Leaf,
            r@,
            Seq::empty(),
            CTailV::Return(cexpr@),
            env_model(env@),
            old(gensym)@,
            old(func_decls)@,
            final(func_decls)@,
        ),
{
    let (instrs, result) = compile_cexpr(cexpr, types, gensym, env, func_decls);
    let mut bb = BasicBlock::new(block_name(gensym, "ret"));
    bb.instrs = instrs;
    bb.term = Terminator::Ret(Ret { return_operand: Some(result) });
    let r = vec![bb];
    assert(r@[0].instrs@.subrange(0, 0) =~= Seq::<Instruction>::empty());
    assert(r@[0].instrs@.skip(0) =~= r@[0].instrs@);
    r
}

/// The block of a tail call.
fn compile_tail_call(
    func: &CAtom,
    args: &Vec<CAtom>,
    types: &Types,
    gensym: &mut Gensym,
    env: &Vec<(Ident, Operand)>,
    func_decls: &mut Vec<FunctionDeclaration>,
) -> (r: Vec<BasicBlock>)
    requires
        callee_compilable(func@),
        catoms_compilable(catoms_model(args@), env_model(env@)),
        old(gensym)@ + 2 <= u64::MAX,
    ensures
        final(gensym)@ == old(gensym)@ + 2,
        r@.len() == 1,
        tail_compiled_by(
            TailWitness::Leaf,
            r@,
            Seq::empty(),
            CTailV::TailCall(func@, catoms_model(args@)),
            env_model(env@),
            old(gensym)@,
            old(func_decls)@,
            final(func_decls)@,
        ),
{
    let ghost e = env_model(env@);
    let ghost ms = catoms_model(args@);
    let (func_op, func_ty) = compile_function_operand(func, types, env, func_decls);
    let call_dest = fresh_name(gensym);
    assert forall|i: int| 0 <= i < args@.len() implies catom_compilable(#[trigger] args@[i]@, e) by {
        assert(ms[i] == args@[i]@);
    }
    let call = compile_call(func_op, func_ty, args, Some(call_dest.clone()), true, types, env);
    assert forall|i: int| 0 <= i < args@.len() implies (#[trigger] call.arguments@[i]).0@ == catom_operand(
        ms[i],
        e,
    ) by {
        assert(ms[i] == args@[i]@);
    }
    let ret_ty = match call.function_ty.as_ref() {
        Type::FuncType { result_type, .. } => result_type.clone(),
        _ => types.void(),
    };
    let mut bb = BasicBlock::new(block_name(gensym, "tailcall"));
    bb.instrs = vec![Instruction::Call(call)];
    bb.term = Terminator::Ret(Ret { return_operand: Some(Operand::LocalOperand { name: call_dest, ty: ret_ty }) });
    let r = vec![bb];
    assert(r@[0].instrs@.subrange(0, 0) =~= Seq::<Instruction>::empty());
    r
}

/// Compiles a tail to basic blocks.
#[verifier::rlimit(50)]
pub fn compile_tail(
    tail: &CTail,
    types: &Types,
    gensym: &mut Gensym,
    env: &Vec<(Ident, Operand)>,
    func_decls: &mut Vec<FunctionDeclaration>,
) -> (r: Vec<BasicBlock>)
    requires
        tail_compilable(tail@, env_model(env@), old(gensym)@),
        tail_next(tail@, old(gensym)@) <= u64::MAX,
    ensures
        final(gensym)@ == tail_next(tail@, old(gensym)@),
        r@.len() >= 1,
        tail_compiled(r@, Seq::empty(), tail@, env_model(env@), old(gensym)@, old(func_decls)@, final(func_decls)@),
    decreases tail,
{
    let ghost e = env_model(env@);
    let ghost c = gensym@;
    match tail {
        CTail::Return(cexpr) => {
            let r = compile_return(cexpr, types, gensym, env, func_decls);
            assert(tail_compiled_by(TailWitness::Leaf, r@, Seq::empty(), tail@, e, c, old(func_decls)@, func_decls@));
            r
        },
        CTail::TailCall(func, args) => {
            let r = compile_tail_call(func, args, types, gensym, env, func_decls);
            assert(tail_compiled_by(TailWitness::Leaf, r@, Seq::empty(), tail@, e, c, old(func_decls)@, func_decls@));
            r
        },
        CTail::Sequence(stmt, cont) => {
            let CStmt::Assign(name, cexpr, _ty) = stmt;
            proof {
                lemma_tail_next_grows(cont@, cexpr_next(cexpr@, c));
            }
            let (instrs, result) = compile_cexpr(cexpr, types, gensym, env, func_decls);
            let ghost dm = func_decls@;
            let ghost cm = gensym@;
            let ghost env2 = env_bind(e, name@, cexpr_result(cexpr@, e, c));
            let mut env_with: Vec<(Ident, Operand)> = vec![(name.clone(), result)];
            let mut rest = clone_env(env);
            env_with.append(&mut rest);
            assert(env_model(env_with@) =~= env2);
            let mut blocks = compile_tail(cont, types, gensym, &env_with, func_decls);
            let ghost old_blocks = blocks@;
            let ghost w1 = choose|w: TailWitness| #[trigger] tail_compiled_by(
                w,
                old_blocks,
                Seq::empty(),
                cont@,
                env2,
                cm,
                dm,
                func_decls@,
            );
            let mut head = blocks.remove(0);
            let mut all = instrs;
            let ghost pre_instrs = all@;
            all.append(&mut head.instrs);
            head.instrs = all;
            blocks.insert(0, head);
            proof {
                assert forall|i: int| 1 <= i < old_blocks.len() implies blocks@[i] == old_blocks[i] by {
                    assert(blocks@[i] == old_blocks.remove(0)[i - 1]);
                }
                assert(with_prefix(old_blocks, blocks@, pre_instrs));
                lemma_tail_prefix(w1, old_blocks, blocks@, pre_instrs, Seq::empty(), cont@, env2, cm, dm, func_decls@);
                assert(pre_instrs + Seq::<Instruction>::empty() =~= pre_instrs);
                assert(Seq::<Instruction>::empty() + pre_instrs =~= pre_instrs);
                let w = TailWitness::Assign { instrs: pre_instrs, decls: dm, rest: Box::new(w1) };
                assert(tail_compiled_by(w, blocks@, Seq::empty(), tail@, e, c, old(func_decls)@, func_decls@));
            }
            blocks
        },
        CTail::If(catom, then_tail, else_tail) => {
            let cond_op = compile_catom(catom, types, env);
            proof {
                lemma_tail_next_grows(then_tail@, c);
                lemma_tail_next_grows(else_tail@, tail_next(then_tail@, c));
            }
            let mut then_blocks = compile_tail(then_tail, types, gensym, env, func_decls);
            let ghost dm = func_decls@;
            let ghost c1 = gensym@;
            let mut else_blocks = compile_tail(else_tail, types, gensym, env, func_decls);
            let ghost tb = then_blocks@;
            let ghost eb = else_blocks@;
            let ghost tw = choose|w: TailWitness| #[trigger] tail_compiled_by(
                w,
                tb,
                Seq::empty(),
                then_tail@,
                e,
                c,
                old(func_decls)@,
                dm,
            );
            let ghost ew = choose|w: TailWitness| #[trigger] tail_compiled_by(
                w,
                eb,
                Seq::empty(),
                else_tail@,
                e,
                c1,
                dm,
                func_decls@,
            );
            let then_label = then_blocks[0].name.clone();
            let else_label = else_blocks[0].name.clone();
            let mut entry = BasicBlock::new(block_name(gensym, "if.entry"));
            entry.term = Terminator::CondBr(CondBr { condition: cond_op, true_dest: then_label, false_dest: else_label });
            let mut blocks = vec![entry];
            blocks.append(&mut then_blocks);
            blocks.append(&mut else_blocks);
            proof {
                let n: int = tb.len() as int + 1;
                assert(blocks@.subrange(1, n) =~= tb);
                assert(blocks@.subrange(n, blocks@.len() as int) =~= eb);
                assert(blocks@[1] == tb[0]);
                assert(blocks@[n] == eb[0]);
                assert(blocks@[0].instrs@ =~= Seq::<Instruction>::empty());
                let w = TailWitness::Branch { split: n, decls: dm, then_w: Box::new(tw), else_w: Box::new(ew) };
                assert(tail_compiled_by(w, blocks@, Seq::empty(), tail@, e, c, old(func_decls)@, func_decls@));
            }
            blocks
        },
    }
}

/// The integer an operand holds: a 64-bit integer constant holds its bits
/// read as a signed number; `val` gives the values of the other operands.
pub open spec fn int_operand(o: Operand, val: spec_fn(Operand) -> i64) -> i64 {
    match o {
        Operand::ConstantOperand(c) => match *c.0 {
            Constant::Int { bits: 64, value } => value as i64,
            _ => val(o),
        },
        _ => val(o),
    }
}

/// The boolean an operand holds: a 1-bit integer constant is true where it
/// is 1; `val` gives the values of the other operands.
pub open spec fn bool_operand(o: Operand, val: spec_fn(Operand) -> bool) -> bool {
    match o {
        Operand::ConstantOperand(c) => match *c.0 {
            Constant::Int { bits: 1, value } => value == 1,
            _ => val(o),
        },
        _ => val(o),
    }
}

/// Whether a signed integer comparison holds of `a` and `b`; unsigned
/// predicates are not read here.
pub open spec fn signed_predicate_holds(p: IntPredicate, a: int, b: int) -> Option<bool> {
    match p {
        IntPredicate::EQ => Some(a == b),
        IntPredicate::NE => Some(a != b),
        IntPredicate::SLT => Some(a < b),
        IntPredicate::SLE => Some(a <= b),
        IntPredicate::SGT => Some(a > b),
        IntPredicate::SGE => Some(a >= b),
        _ => None,
    }
}

/// What an instruction computes on 64-bit integers, where its operands hold
/// the integers `int_operand` gives: the exact sum, difference or product
/// where it fits, the quotient rounded toward zero, or the truth of a
/// comparison; `None` where the result is not read here.
pub open spec fn int_instr_value(i: Instruction, val: spec_fn(Operand) -> i64) -> Option<ValueV> {
    match i {
        Instruction::Add(x) => {
            let s = int_operand(x.operand0, val) + int_operand(x.operand1, val);
            if fits_i64(s) { Some(ValueV::Int(s as i64)) } else { None }
        },
        Instruction::Sub(x) => {
            let s = int_operand(x.operand0, val) - int_operand(x.operand1, val);
            if fits_i64(s) { Some(ValueV::Int(s as i64)) } else { None }
        },
        Instruction::Mul(x) => {
            let s = int_operand(x.operand0, val) * int_operand(x.operand1, val);
            if fits_i64(s) { Some(ValueV::Int(s as i64)) } else { None }
        },
        Instruction::SDiv(x) => {
            let a = int_operand(x.operand0, val) as int;
            let b = int_operand(x.operand1, val) as int;
            if b != 0 && fits_i64(trunc_div(a, b)) { Some(ValueV::Int(trunc_div(a, b) as i64)) } else { None }
        },
        Instruction::ICmp(x) => match signed_predicate_holds(
            x.predicate,
            int_operand(x.operand0, val) as int,
            int_operand(x.operand1, val) as int,
        ) {
            Some(h) => Some(ValueV::Bool(h)),
            None => None,
        },
        _ => None,
    }
}

/// What an instruction computes on booleans (1-bit integers), where its
/// operands hold the booleans `bool_operand` gives.
pub open spec fn bool_instr_value(i: Instruction, val: spec_fn(Operand) -> bool) -> Option<bool> {
    match i {
        Instruction::And(x) => Some(bool_operand(x.operand0, val) && bool_operand(x.operand1, val)),
        Instruction::Or(x) => Some(bool_operand(x.operand0, val) || bool_operand(x.operand1, val)),
        Instruction::Xor(x) => Some(bool_operand(x.operand0, val) != bool_operand(x.operand1, val)),
        Instruction::ICmp(x) => match x.predicate {
            IntPredicate::EQ => Some(bool_operand(x.operand0, val) == bool_operand(x.operand1, val)),
            IntPredicate::NE => Some(bool_operand(x.operand0, val) != bool_operand(x.operand1, val)),
            _ => None,
        },
        _ => None,
    }
}

/// The source operator a floating-point instruction computes, with its
/// first and second operands; `None` for other instructions.
pub open spec fn float_instr_op(i: Instruction) -> Option<(BinOp, Operand, Operand)> {
    match i {
        Instruction::FAdd(x) => Some((BinOp::Add, x.operand0, x.operand1)),
        Instruction::FSub(x) => Some((BinOp::Sub, x.operand0, x.operand1)),
        Instruction::FMul(x) => Some((BinOp::Mul, x.operand0, x.operand1)),
        Instruction::FDiv(x) => Some((BinOp::Div, x.operand0, x.operand1)),
        Instruction::FCmp(x) => match x.predicate {
            FPPredicate::OEQ => Some((BinOp::Eq, x.operand0, x.operand1)),
            FPPredicate::ONE => Some((BinOp::Neq, x.operand0, x.operand1)),
            FPPredicate::OLT => Some((BinOp::Lt, x.operand0, x.operand1)),
            FPPredicate::OGT => Some((BinOp::Gt, x.operand0, x.operand1)),
            FPPredicate::OLE => Some((BinOp::Leq, x.operand0, x.operand1)),
            FPPredicate::OGE => Some((BinOp::Geq, x.operand0, x.operand1)),
            _ => None,
        },
        _ => None,
    }
}

/// The instruction for an operator on integers computes what evaluation of
/// the operator gives on the values its operands hold, left operand first,
/// wherever evaluation gives a value.
pub proof fn lemma_binop_instruction_int(
    op: BinOp,
    left: Operand,
    right: Operand,
    dest: Name,
    val: spec_fn(Operand) -> i64,
    answers: Seq<ValueV>,
    io: IoV,
)
    requires
        binop_spec(
            op,
            ValueV::Int(int_operand(left, val)),
            ValueV::Int(int_operand(right, val)),
            answers,
            io,
        ).0 is Ok,
    ensures
        int_instr_value(binop_instruction(op, left, right, dest, false), val) == Some(
            binop_spec(
                op,
                ValueV::Int(int_operand(left, val)),
                ValueV::Int(int_operand(right, val)),
                answers,
                io,
            ).0->Ok_0,
        ),
{
}

/// The instruction for an operator on booleans computes what evaluation of
/// the operator gives on the booleans its operands hold, wherever
/// evaluation gives a value.
pub proof fn lemma_binop_instruction_bool(
    op: BinOp,
    left: Operand,
    right: Operand,
    dest: Name,
    val: spec_fn(Operand) -> bool,
    answers: Seq<ValueV>,
    io: IoV,
)
    requires
        binop_spec(
            op,
            ValueV::Bool(bool_operand(left, val)),
            ValueV::Bool(bool_operand(right, val)),
            answers,
            io,
        ).0 is Ok,
    ensures
        binop_spec(
            op,
            ValueV::Bool(bool_operand(left, val)),
            ValueV::Bool(bool_operand(right, val)),
            answers,
            io,
        ).0 matches Ok(ValueV::Bool(v)) && bool_instr_value(binop_instruction(op, left, right, dest, false), val)
            == Some(v),
{
}

/// The instruction for an operator on floating-point numbers computes that
/// operator, with the left operand first.
pub proof fn lemma_binop_instruction_float(op: BinOp, left: Operand, right: Operand, dest: Name)
    requires
        op != BinOp::And && op != BinOp::Or,
    ensures
        float_instr_op(binop_instruction(op, left, right, dest, true)) == Some((op, left, right)),
{
}

/// The instruction for a unary operator computes it: the negation of a
/// 64-bit integer where evaluation gives one, the logical negation of a
/// boolean, and the floating-point negation of its operand.
pub proof fn lemma_unaryop_instruction(
    operand: Operand,
    dest: Name,
    val: spec_fn(Operand) -> i64,
    valb: spec_fn(Operand) -> bool,
)
    ensures
        unary_spec(UnaryOp::Neg, ValueV::Int(int_operand(operand, val))) is Ok ==> int_instr_value(
            unaryop_instruction(UnaryOp::Neg, operand, dest, false),
            val,
        ) == Some(unary_spec(UnaryOp::Neg, ValueV::Int(int_operand(operand, val)))->Ok_0),
        bool_instr_value(unaryop_instruction(UnaryOp::Not, operand, dest, false), valb) == Some(
            !bool_operand(operand, valb),
        ),
        unaryop_instruction(UnaryOp::Neg, operand, dest, true) matches Instruction::FNeg(x) && x.operand == operand,
{
    assert(0u64 as i64 == 0) by (bit_vector);
}

/// An integer atom compiles to a 64-bit constant whose bits, read as a
/// signed number, are the integer; a boolean atom to a 1-bit constant that
/// is 1 exactly when the boolean is true; the unit atom to the zero of the
/// empty structure.
pub proof fn lemma_catom_constants(i: i64, p: bool, env: Seq<(Seq<char>, OperandV)>)
    ensures
        catom_operand(AExprV::Int(i), env) matches OperandV::Constant(ConstantV::Int { bits, value }) && bits
            == 64 && value as i64 == i,
        catom_operand(AExprV::Bool(p), env) matches OperandV::Constant(ConstantV::Int { bits, value }) && bits
            == 1 && (value == 1) == p && (value == 0) == !p,
        catom_operand(AExprV::Unit, env) == OperandV::Constant(
            ConstantV::AggregateZero(LType::StructType { element_types: Seq::empty(), is_packed: false }),
        ),
{
    assert((i as u64) as i64 == i) by (bit_vector);
}

} // verus!
