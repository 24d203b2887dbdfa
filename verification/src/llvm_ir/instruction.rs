//! Instructions of LLVM IR and their result types.
use vstd::prelude::*;
use crate::llvm_ir::constant::{constant_type, constant_typable, ConstantRef};
use crate::llvm_ir::function::{CallingConvention, FunctionAttribute, ParameterAttribute};
use crate::llvm_ir::name::Name;
use crate::llvm_ir::operand::{operand_type, operand_typable, Operand};
use crate::llvm_ir::types::{Either, Type, TypeRef, TypeV, Typed, Types};

verus! {

/// An instruction.
#[derive(PartialEq, Clone, Debug, Hash)]
pub enum Instruction {
    Add(Add),
    Sub(Sub),
    Mul(Mul),
    UDiv(UDiv),
    SDiv(SDiv),
    URem(URem),
    SRem(SRem),
    And(And),
    Or(Or),
    Xor(Xor),
    Shl(Shl),
    LShr(LShr),
    AShr(AShr),
    FAdd(FAdd),
    FSub(FSub),
    FMul(FMul),
    FDiv(FDiv),
    FRem(FRem),
    FNeg(FNeg),
    ExtractElement(ExtractElement),
    InsertElement(InsertElement),
    ShuffleVector(ShuffleVector),
    ExtractValue(ExtractValue),
    InsertValue(InsertValue),
    Alloca(Alloca),
    Load(Load),
    Store(Store),
    Fence(Fence),
    CmpXchg(CmpXchg),
    AtomicRMW(AtomicRMW),
    GetElementPtr(GetElementPtr),
    Trunc(Trunc),
    ZExt(ZExt),
    SExt(SExt),
    FPTrunc(FPTrunc),
    FPExt(FPExt),
    FPToUI(FPToUI),
    FPToSI(FPToSI),
    UIToFP(UIToFP),
    SIToFP(SIToFP),
    PtrToInt(PtrToInt),
    IntToPtr(IntToPtr),
    BitCast(BitCast),
    AddrSpaceCast(AddrSpaceCast),
    ICmp(ICmp),
    FCmp(FCmp),
    Phi(Phi),
    Select(Select),
    Freeze(Freeze),
    Call(Call),
    VAArg(VAArg),
    LandingPad(LandingPad),
    CatchPad(CatchPad),
    CleanupPad(CleanupPad),
}

impl Typed for Instruction {
    open spec fn typed_ok(&self) -> bool {
        match self {
            Instruction::Add(i) => i.typed_ok(),
            Instruction::Sub(i) => i.typed_ok(),
            Instruction::Mul(i) => i.typed_ok(),
            Instruction::UDiv(i) => i.typed_ok(),
            Instruction::SDiv(i) => i.typed_ok(),
            Instruction::URem(i) => i.typed_ok(),
            Instruction::SRem(i) => i.typed_ok(),
            Instruction::And(i) => i.typed_ok(),
            Instruction::Or(i) => i.typed_ok(),
            Instruction::Xor(i) => i.typed_ok(),
            Instruction::Shl(i) => i.typed_ok(),
            Instruction::LShr(i) => i.typed_ok(),
            Instruction::AShr(i) => i.typed_ok(),
            Instruction::FAdd(i) => i.typed_ok(),
            Instruction::FSub(i) => i.typed_ok(),
            Instruction::FMul(i) => i.typed_ok(),
            Instruction::FDiv(i) => i.typed_ok(),
            Instruction::FRem(i) => i.typed_ok(),
            Instruction::FNeg(i) => i.typed_ok(),
            Instruction::ExtractElement(i) => i.typed_ok(),
            Instruction::InsertElement(i) => i.typed_ok(),
            Instruction::ShuffleVector(i) => i.typed_ok(),
            Instruction::ExtractValue(i) => i.typed_ok(),
            Instruction::InsertValue(i) => i.typed_ok(),
            Instruction::Alloca(i) => i.typed_ok(),
            Instruction::Load(i) => i.typed_ok(),
            Instruction::Store(i) => i.typed_ok(),
            Instruction::Fence(i) => i.typed_ok(),
            Instruction::CmpXchg(i) => i.typed_ok(),
            Instruction::AtomicRMW(i) => i.typed_ok(),
            Instruction::GetElementPtr(i) => i.typed_ok(),
            Instruction::Trunc(i) => i.typed_ok(),
            Instruction::ZExt(i) => i.typed_ok(),
            Instruction::SExt(i) => i.typed_ok(),
            Instruction::FPTrunc(i) => i.typed_ok(),
            Instruction::FPExt(i) => i.typed_ok(),
            Instruction::FPToUI(i) => i.typed_ok(),
            Instruction::FPToSI(i) => i.typed_ok(),
            Instruction::UIToFP(i) => i.typed_ok(),
            Instruction::SIToFP(i) => i.typed_ok(),
            Instruction::PtrToInt(i) => i.typed_ok(),
            Instruction::IntToPtr(i) => i.typed_ok(),
            Instruction::BitCast(i) => i.typed_ok(),
            Instruction::AddrSpaceCast(i) => i.typed_ok(),
            Instruction::ICmp(i) => i.typed_ok(),
            Instruction::FCmp(i) => i.typed_ok(),
            Instruction::Phi(i) => i.typed_ok(),
            Instruction::Select(i) => i.typed_ok(),
            Instruction::Freeze(i) => i.typed_ok(),
            Instruction::Call(i) => i.typed_ok(),
            Instruction::VAArg(i) => i.typed_ok(),
            Instruction::LandingPad(i) => i.typed_ok(),
            Instruction::CatchPad(i) => i.typed_ok(),
            Instruction::CleanupPad(i) => i.typed_ok(),
        }
    }

    open spec fn typed_view(&self) -> TypeV {
        match self {
            Instruction::Add(i) => i.typed_view(),
            Instruction::Sub(i) => i.typed_view(),
            Instruction::Mul(i) => i.typed_view(),
            Instruction::UDiv(i) => i.typed_view(),
            Instruction::SDiv(i) => i.typed_view(),
            Instruction::URem(i) => i.typed_view(),
            Instruction::SRem(i) => i.typed_view(),
            Instruction::And(i) => i.typed_view(),
            Instruction::Or(i) => i.typed_view(),
            Instruction::Xor(i) => i.typed_view(),
            Instruction::Shl(i) => i.typed_view(),
            Instruction::LShr(i) => i.typed_view(),
            Instruction::AShr(i) => i.typed_view(),
            Instruction::FAdd(i) => i.typed_view(),
            Instruction::FSub(i) => i.typed_view(),
            Instruction::FMul(i) => i.typed_view(),
            Instruction::FDiv(i) => i.typed_view(),
            Instruction::FRem(i) => i.typed_view(),
            Instruction::FNeg(i) => i.typed_view(),
            Instruction::ExtractElement(i) => i.typed_view(),
            Instruction::InsertElement(i) => i.typed_view(),
            Instruction::ShuffleVector(i) => i.typed_view(),
            Instruction::ExtractValue(i) => i.typed_view(),
            Instruction::InsertValue(i) => i.typed_view(),
            Instruction::Alloca(i) => i.typed_view(),
            Instruction::Load(i) => i.typed_view(),
            Instruction::Store(i) => i.typed_view(),
            Instruction::Fence(i) => i.typed_view(),
            Instruction::CmpXchg(i) => i.typed_view(),
            Instruction::AtomicRMW(i) => i.typed_view(),
            Instruction::GetElementPtr(i) => i.typed_view(),
            Instruction::Trunc(i) => i.typed_view(),
            Instruction::ZExt(i) => i.typed_view(),
            Instruction::SExt(i) => i.typed_view(),
            Instruction::FPTrunc(i) => i.typed_view(),
            Instruction::FPExt(i) => i.typed_view(),
            Instruction::FPToUI(i) => i.typed_view(),
            Instruction::FPToSI(i) => i.typed_view(),
            Instruction::UIToFP(i) => i.typed_view(),
            Instruction::SIToFP(i) => i.typed_view(),
            Instruction::PtrToInt(i) => i.typed_view(),
            Instruction::IntToPtr(i) => i.typed_view(),
            Instruction::BitCast(i) => i.typed_view(),
            Instruction::AddrSpaceCast(i) => i.typed_view(),
            Instruction::ICmp(i) => i.typed_view(),
            Instruction::FCmp(i) => i.typed_view(),
            Instruction::Phi(i) => i.typed_view(),
            Instruction::Select(i) => i.typed_view(),
            Instruction::Freeze(i) => i.typed_view(),
            Instruction::Call(i) => i.typed_view(),
            Instruction::VAArg(i) => i.typed_view(),
            Instruction::LandingPad(i) => i.typed_view(),
            Instruction::CatchPad(i) => i.typed_view(),
            Instruction::CleanupPad(i) => i.typed_view(),
        }
    }

    fn get_type(&self, types: &Types) -> (t: TypeRef) {
        match self {
            Instruction::Add(i) => types.type_of(i),
            Instruction::Sub(i) => types.type_of(i),
            Instruction::Mul(i) => types.type_of(i),
            Instruction::UDiv(i) => types.type_of(i),
            Instruction::SDiv(i) => types.type_of(i),
            Instruction::URem(i) => types.type_of(i),
            Instruction::SRem(i) => types.type_of(i),
            Instruction::And(i) => types.type_of(i),
            Instruction::Or(i) => types.type_of(i),
            Instruction::Xor(i) => types.type_of(i),
            Instruction::Shl(i) => types.type_of(i),
            Instruction::LShr(i) => types.type_of(i),
            Instruction::AShr(i) => types.type_of(i),
            Instruction::FAdd(i) => types.type_of(i),
            Instruction::FSub(i) => types.type_of(i),
            Instruction::FMul(i) => types.type_of(i),
            Instruction::FDiv(i) => types.type_of(i),
            Instruction::FRem(i) => types.type_of(i),
            Instruction::FNeg(i) => types.type_of(i),
            Instruction::ExtractElement(i) => types.type_of(i),
            Instruction::InsertElement(i) => types.type_of(i),
            Instruction::ShuffleVector(i) => types.type_of(i),
            Instruction::ExtractValue(i) => types.type_of(i),
            Instruction::InsertValue(i) => types.type_of(i),
            Instruction::Alloca(i) => types.type_of(i),
            Instruction::Load(i) => types.type_of(i),
            Instruction::Store(i) => types.type_of(i),
            Instruction::Fence(i) => types.type_of(i),
            Instruction::CmpXchg(i) => types.type_of(i),
            Instruction::AtomicRMW(i) => types.type_of(i),
            Instruction::GetElementPtr(i) => types.type_of(i),
            Instruction::Trunc(i) => types.type_of(i),
            Instruction::ZExt(i) => types.type_of(i),
            Instruction::SExt(i) => types.type_of(i),
            Instruction::FPTrunc(i) => types.type_of(i),
            Instruction::FPExt(i) => types.type_of(i),
            Instruction::FPToUI(i) => types.type_of(i),
            Instruction::FPToSI(i) => types.type_of(i),
            Instruction::UIToFP(i) => types.type_of(i),
            Instruction::SIToFP(i) => types.type_of(i),
            Instruction::PtrToInt(i) => types.type_of(i),
            Instruction::IntToPtr(i) => types.type_of(i),
            Instruction::BitCast(i) => types.type_of(i),
            Instruction::AddrSpaceCast(i) => types.type_of(i),
            Instruction::ICmp(i) => types.type_of(i),
            Instruction::FCmp(i) => types.type_of(i),
            Instruction::Phi(i) => types.type_of(i),
            Instruction::Select(i) => types.type_of(i),
            Instruction::Freeze(i) => types.type_of(i),
            Instruction::Call(i) => types.type_of(i),
            Instruction::VAArg(i) => types.type_of(i),
            Instruction::LandingPad(i) => types.type_of(i),
            Instruction::CatchPad(i) => types.type_of(i),
            Instruction::CleanupPad(i) => types.type_of(i),
        }
    }
}

impl Instruction {
    /// Whether it is a binary arithmetic, bitwise or shift operation.
    pub fn is_binary_op(&self) -> (b: bool)
        ensures
            b == (self is Add || self is Sub || self is Mul || self is UDiv || self is SDiv || self is URem || self is SRem || self is And || self is Or || self is Xor || self is Shl || self is LShr || self is AShr || self is FAdd || self is FSub || self is FMul || self is FDiv || self is FRem),
    {
        match self {
            Instruction::Add(_) => true,
            Instruction::Sub(_) => true,
            Instruction::Mul(_) => true,
            Instruction::UDiv(_) => true,
            Instruction::SDiv(_) => true,
            Instruction::URem(_) => true,
            Instruction::SRem(_) => true,
            Instruction::And(_) => true,
            Instruction::Or(_) => true,
            Instruction::Xor(_) => true,
            Instruction::Shl(_) => true,
            Instruction::LShr(_) => true,
            Instruction::AShr(_) => true,
            Instruction::FAdd(_) => true,
            Instruction::FSub(_) => true,
            Instruction::FMul(_) => true,
            Instruction::FDiv(_) => true,
            Instruction::FRem(_) => true,
            _ => false,
        }
    }

    /// Whether it is a conversion, a negation or a freeze of one operand.
    pub fn is_unary_op(&self) -> (b: bool)
        ensures
            b == (self is AddrSpaceCast || self is BitCast || self is FNeg || self is FPExt || self is FPToSI || self is FPToUI || self is FPTrunc || self is Freeze || self is IntToPtr || self is PtrToInt || self is SExt || self is SIToFP || self is Trunc || self is UIToFP || self is ZExt),
    {
        match self {
            Instruction::AddrSpaceCast(_) => true,
            Instruction::BitCast(_) => true,
            Instruction::FNeg(_) => true,
            Instruction::FPExt(_) => true,
            Instruction::FPToSI(_) => true,
            Instruction::FPToUI(_) => true,
            Instruction::FPTrunc(_) => true,
            Instruction::Freeze(_) => true,
            Instruction::IntToPtr(_) => true,
            Instruction::PtrToInt(_) => true,
            Instruction::SExt(_) => true,
            Instruction::SIToFP(_) => true,
            Instruction::Trunc(_) => true,
            Instruction::UIToFP(_) => true,
            Instruction::ZExt(_) => true,
            _ => false,
        }
    }
}

/// Two operands whose types can be computed and agree.
pub open spec fn same_typed(a: Operand, b: Operand) -> bool {
    operand_typable(a) && operand_typable(b) && operand_type(a) == operand_type(b)
}

/// `add` of two operands.
#[derive(PartialEq, Clone, Debug, Hash)]
pub struct Add {
    pub operand0: Operand,
    pub operand1: Operand,
    pub dest: Name,
    pub nuw: bool,
    pub nsw: bool,
}

impl Typed for Add {
    open spec fn typed_ok(&self) -> bool {
        same_typed(self.operand0, self.operand1)
    }

    open spec fn typed_view(&self) -> TypeV {
        operand_type(self.operand0)
    }

    fn get_type(&self, types: &Types) -> (t: TypeRef) {
        types.type_of(&self.operand0)
    }
}

/// `sub` of two operands.
#[derive(PartialEq, Clone, Debug, Hash)]
pub struct Sub {
    pub operand0: Operand,
    pub operand1: Operand,
    pub dest: Name,
    pub nuw: bool,
    pub nsw: bool,
}

impl Typed for Sub {
    open spec fn typed_ok(&self) -> bool {
        same_typed(self.operand0, self.operand1)
    }

    open spec fn typed_view(&self) -> TypeV {
        operand_type(self.operand0)
    }

    fn get_type(&self, types: &Types) -> (t: TypeRef) {
        types.type_of(&self.operand0)
    }
}

/// `mul` of two operands.
#[derive(PartialEq, Clone, Debug, Hash)]
pub struct Mul {
    pub operand0: Operand,
    pub operand1: Operand,
    pub dest: Name,
    pub nuw: bool,
    pub nsw: bool,
}

impl Typed for Mul {
    open spec fn typed_ok(&self) -> bool {
        same_typed(self.operand0, self.operand1)
    }

    open spec fn typed_view(&self) -> TypeV {
        operand_type(self.operand0)
    }

    fn get_type(&self, types: &Types) -> (t: TypeRef) {
        types.type_of(&self.operand0)
    }
}

/// `udiv` of two operands.
#[derive(PartialEq, Clone, Debug, Hash)]
pub struct UDiv {
    pub operand0: Operand,
    pub operand1: Operand,
    pub dest: Name,
    pub exact: bool,
}

impl Typed for UDiv {
    open spec fn typed_ok(&self) -> bool {
        same_typed(self.operand0, self.operand1)
    }

    open spec fn typed_view(&self) -> TypeV {
        operand_type(self.operand0)
    }

    fn get_type(&self, types: &Types) -> (t: TypeRef) {
        types.type_of(&self.operand0)
    }
}

/// `sdiv` of two operands.
#[derive(PartialEq, Clone, Debug, Hash)]
pub struct SDiv {
    pub operand0: Operand,
    pub operand1: Operand,
    pub dest: Name,
    pub exact: bool,
}

impl Typed for SDiv {
    open spec fn typed_ok(&self) -> bool {
        same_typed(self.operand0, self.operand1)
    }

    open spec fn typed_view(&self) -> TypeV {
        operand_type(self.operand0)
    }

    fn get_type(&self, types: &Types) -> (t: TypeRef) {
        types.type_of(&self.operand0)
    }
}

/// `urem` of two operands.
#[derive(PartialEq, Clone, Debug, Hash)]
pub struct URem {
    pub operand0: Operand,
    pub operand1: Operand,
    pub dest: Name,
}

impl Typed for URem {
    open spec fn typed_ok(&self) -> bool {
        same_typed(self.operand0, self.operand1)
    }

    open spec fn typed_view(&self) -> TypeV {
        operand_type(self.operand0)
    }

    fn get_type(&self, types: &Types) -> (t: TypeRef) {
        types.type_of(&self.operand0)
    }
}

/// `srem` of two operands.
#[derive(PartialEq, Clone, Debug, Hash)]
pub struct SRem {
    pub operand0: Operand,
    pub operand1: Operand,
    pub dest: Name,
}

impl Typed for SRem {
    open spec fn typed_ok(&self) -> bool {
        same_typed(self.operand0, self.operand1)
    }

    open spec fn typed_view(&self) -> TypeV {
        operand_type(self.operand0)
    }

    fn get_type(&self, types: &Types) -> (t: TypeRef) {
        types.type_of(&self.operand0)
    }
}

/// `and` of two operands.
#[derive(PartialEq, Clone, Debug, Hash)]
pub struct And {
    pub operand0: Operand,
    pub operand1: Operand,
    pub dest: Name,
}

impl Typed for And {
    open spec fn typed_ok(&self) -> bool {
        same_typed(self.operand0, self.operand1)
    }

    open spec fn typed_view(&self) -> TypeV {
        operand_type(self.operand0)
    }

    fn get_type(&self, types: &Types) -> (t: TypeRef) {
        types.type_of(&self.operand0)
    }
}

/// `or` of two operands.
#[derive(PartialEq, Clone, Debug, Hash)]
pub struct Or {
    pub operand0: Operand,
    pub operand1: Operand,
    pub dest: Name,
    pub disjoint: bool,
}

impl Typed for Or {
    open spec fn typed_ok(&self) -> bool {
        same_typed(self.operand0, self.operand1)
    }

    open spec fn typed_view(&self) -> TypeV {
        operand_type(self.operand0)
    }

    fn get_type(&self, types: &Types) -> (t: TypeRef) {
        types.type_of(&self.operand0)
    }
}

/// `xor` of two operands.
#[derive(PartialEq, Clone, Debug, Hash)]
pub struct Xor {
    pub operand0: Operand,
    pub operand1: Operand,
    pub dest: Name,
}

impl Typed for Xor {
    open spec fn typed_ok(&self) -> bool {
        same_typed(self.operand0, self.operand1)
    }

    open spec fn typed_view(&self) -> TypeV {
        operand_type(self.operand0)
    }

    fn get_type(&self, types: &Types) -> (t: TypeRef) {
        types.type_of(&self.operand0)
    }
}

/// `shl` of two operands.
#[derive(PartialEq, Clone, Debug, Hash)]
pub struct Shl {
    pub operand0: Operand,
    pub operand1: Operand,
    pub dest: Name,
    pub nuw: bool,
    pub nsw: bool,
}

impl Typed for Shl {
    open spec fn typed_ok(&self) -> bool {
        operand_typable(self.operand0)
    }

    open spec fn typed_view(&self) -> TypeV {
        operand_type(self.operand0)
    }

    fn get_type(&self, types: &Types) -> (t: TypeRef) {
        types.type_of(&self.operand0)
    }
}

/// `lshr` of two operands.
#[derive(PartialEq, Clone, Debug, Hash)]
pub struct LShr {
    pub operand0: Operand,
    pub operand1: Operand,
    pub dest: Name,
    pub exact: bool,
}

impl Typed for LShr {
    open spec fn typed_ok(&self) -> bool {
        operand_typable(self.operand0)
    }

    open spec fn typed_view(&self) -> TypeV {
        operand_type(self.operand0)
    }

    fn get_type(&self, types: &Types) -> (t: TypeRef) {
        types.type_of(&self.operand0)
    }
}

/// `ashr` of two operands.
#[derive(PartialEq, Clone, Debug, Hash)]
pub struct AShr {
    pub operand0: Operand,
    pub operand1: Operand,
    pub dest: Name,
    pub exact: bool,
}

impl Typed for AShr {
    open spec fn typed_ok(&self) -> bool {
        operand_typable(self.operand0)
    }

    open spec fn typed_view(&self) -> TypeV {
        operand_type(self.operand0)
    }

    fn get_type(&self, types: &Types) -> (t: TypeRef) {
        types.type_of(&self.operand0)
    }
}

/// `fadd` of two operands.
#[derive(PartialEq, Clone, Debug, Hash)]
pub struct FAdd {
    pub operand0: Operand,
    pub operand1: Operand,
    pub dest: Name,
}

impl Typed for FAdd {
    open spec fn typed_ok(&self) -> bool {
        same_typed(self.operand0, self.operand1)
    }

    open spec fn typed_view(&self) -> TypeV {
        operand_type(self.operand0)
    }

    fn get_type(&self, types: &Types) -> (t: TypeRef) {
        types.type_of(&self.operand0)
    }
}

/// `fsub` of two operands.
#[derive(PartialEq, Clone, Debug, Hash)]
pub struct FSub {
    pub operand0: Operand,
    pub operand1: Operand,
    pub dest: Name,
}

impl Typed for FSub {
    open spec fn typed_ok(&self) -> bool {
        same_typed(self.operand0, self.operand1)
    }

    open spec fn typed_view(&self) -> TypeV {
        operand_type(self.operand0)
    }

    fn get_type(&self, types: &Types) -> (t: TypeRef) {
        types.type_of(&self.operand0)
    }
}

/// `fmul` of two operands.
#[derive(PartialEq, Clone, Debug, Hash)]
pub struct FMul {
    pub operand0: Operand,
    pub operand1: Operand,
    pub dest: Name,
}

impl Typed for FMul {
    open spec fn typed_ok(&self) -> bool {
        same_typed(self.operand0, self.operand1)
    }

    open spec fn typed_view(&self) -> TypeV {
        operand_type(self.operand0)
    }

    fn get_type(&self, types: &Types) -> (t: TypeRef) {
        types.type_of(&self.operand0)
    }
}

/// `fdiv` of two operands.
#[derive(PartialEq, Clone, Debug, Hash)]
pub struct FDiv {
    pub operand0: Operand,
    pub operand1: Operand,
    pub dest: Name,
}

impl Typed for FDiv {
    open spec fn typed_ok(&self) -> bool {
        same_typed(self.operand0, self.operand1)
    }

    open spec fn typed_view(&self) -> TypeV {
        operand_type(self.operand0)
    }

    fn get_type(&self, types: &Types) -> (t: TypeRef) {
        types.type_of(&self.operand0)
    }
}

/// `frem` of two operands.
#[derive(PartialEq, Clone, Debug, Hash)]
pub struct FRem {
    pub operand0: Operand,
    pub operand1: Operand,
    pub dest: Name,
}

impl Typed for FRem {
    open spec fn typed_ok(&self) -> bool {
        same_typed(self.operand0, self.operand1)
    }

    open spec fn typed_view(&self) -> TypeV {
        operand_type(self.operand0)
    }

    fn get_type(&self, types: &Types) -> (t: TypeRef) {
        types.type_of(&self.operand0)
    }
}

impl From<SRem> for Instruction {
    fn from(inst: SRem) -> (i: Instruction) {
        Instruction::SRem(inst)
    }
}

impl vstd::std_specs::convert::FromSpecImpl<SRem> for Instruction {
    open spec fn obeys_from_spec() -> bool {
        true
    }

    open spec fn from_spec(inst: SRem) -> Instruction {
        Instruction::SRem(inst)
    }
}

impl From<Xor> for Instruction {
    fn from(inst: Xor) -> (i: Instruction) {
        Instruction::Xor(inst)
    }
}

impl vstd::std_specs::convert::FromSpecImpl<Xor> for Instruction {
    open spec fn obeys_from_spec() -> bool {
        true
    }

    open spec fn from_spec(inst: Xor) -> Instruction {
        Instruction::Xor(inst)
    }
}

impl From<FSub> for Instruction {
    fn from(inst: FSub) -> (i: Instruction) {
        Instruction::FSub(inst)
    }
}

impl vstd::std_specs::convert::FromSpecImpl<FSub> for Instruction {
    open spec fn obeys_from_spec() -> bool {
        true
    }

    open spec fn from_spec(inst: FSub) -> Instruction {
        Instruction::FSub(inst)
    }
}

/// `fneg` of an operand.
#[derive(PartialEq, Clone, Debug, Hash)]
pub struct FNeg {
    pub operand: Operand,
    pub dest: Name,
}

impl Typed for FNeg {
    open spec fn typed_ok(&self) -> bool {
        operand_typable(self.operand)
    }

    open spec fn typed_view(&self) -> TypeV {
        operand_type(self.operand)
    }

    fn get_type(&self, types: &Types) -> (t: TypeRef) {
        types.type_of(&self.operand)
    }
}

/// `extractelement`: the element of a vector at an index.
#[derive(PartialEq, Clone, Debug, Hash)]
pub struct ExtractElement {
    pub vector: Operand,
    pub index: Operand,
    pub dest: Name,
}

impl Typed for ExtractElement {
    open spec fn typed_ok(&self) -> bool {
        operand_typable(self.vector) && operand_type(self.vector) is VectorType
    }

    open spec fn typed_view(&self) -> TypeV {
        match operand_type(self.vector) {
            TypeV::VectorType { element_type, .. } => *element_type,
            _ => TypeV::VoidType,
        }
    }

    fn get_type(&self, types: &Types) -> (t: TypeRef) {
        let t = types.type_of(&self.vector);
        match t.as_ref() {
            Type::VectorType { element_type, .. } => element_type.clone(),
            _ => {
                proof {
                    assert(false);
                }
                t
            },
        }
    }
}

/// `insertelement`: a vector with the element at an index replaced.
#[derive(PartialEq, Clone, Debug, Hash)]
pub struct InsertElement {
    pub vector: Operand,
    pub element: Operand,
    pub index: Operand,
    pub dest: Name,
}

impl Typed for InsertElement {
    open spec fn typed_ok(&self) -> bool {
        operand_typable(self.vector)
    }

    open spec fn typed_view(&self) -> TypeV {
        operand_type(self.vector)
    }

    fn get_type(&self, types: &Types) -> (t: TypeRef) {
        types.type_of(&self.vector)
    }
}

/// `shufflevector`: the elements of two vectors picked by a constant mask.
#[derive(PartialEq, Clone, Debug, Hash)]
pub struct ShuffleVector {
    pub operand0: Operand,
    pub operand1: Operand,
    pub dest: Name,
    pub mask: ConstantRef,
}

impl Typed for ShuffleVector {
    open spec fn typed_ok(&self) -> bool {
        same_typed(self.operand0, self.operand1) && operand_type(self.operand0) is VectorType
            && constant_typable(self.mask@) && constant_type(self.mask@) is VectorType
    }

    open spec fn typed_view(&self) -> TypeV {
        match (operand_type(self.operand0), constant_type(self.mask@)) {
            (TypeV::VectorType { element_type, .. }, TypeV::VectorType { num_elements, scalable, .. }) =>
                TypeV::VectorType { element_type, num_elements, scalable },
            _ => TypeV::VoidType,
        }
    }

    fn get_type(&self, types: &Types) -> (t: TypeRef) {
        let ty = types.type_of(&self.operand0);
        match ty.as_ref() {
            Type::VectorType { element_type, .. } => {
                let m = types.type_of(&self.mask);
                match m.as_ref() {
                    Type::VectorType { num_elements, scalable, .. } => types.vector_of(
                        element_type.clone(),
                        *num_elements,
                        *scalable,
                    ),
                    _ => {
                        proof {
                            assert(false);
                        }
                        m
                    },
                }
            },
            _ => {
                proof {
                    assert(false);
                }
                ty
            },
        }
    }
}

/// `extractvalue`: the member of an aggregate at a path of indices.
#[derive(PartialEq, Clone, Debug, Hash)]
pub struct ExtractValue {
    pub aggregate: Operand,
    pub indices: Vec<u32>,
    pub dest: Name,
}

/// Whether the path of indices leads through arrays and structures, each
/// structure index in range.
pub open spec fn ev_ok(t: TypeV, indices: Seq<u32>) -> bool
    decreases indices.len(),
{
    if indices.len() == 0 {
        true
    } else {
        match t {
            TypeV::ArrayType { element_type, .. } => ev_ok(*element_type, indices.drop_first()),
            TypeV::StructType { element_types, .. } => indices[0] < element_types.len() && ev_ok(
                element_types[indices[0] as int],
                indices.drop_first(),
            ),
            _ => false,
        }
    }
}

/// The type of the member of an aggregate of type `t` at a path of indices:
/// an array index goes to the element type whatever its value.
pub open spec fn ev_type_spec(t: TypeV, indices: Seq<u32>) -> TypeV
    decreases indices.len(),
{
    if indices.len() == 0 {
        t
    } else {
        match t {
            TypeV::ArrayType { element_type, .. } => ev_type_spec(*element_type, indices.drop_first()),
            TypeV::StructType { element_types, .. } => ev_type_spec(
                element_types[indices[0] as int],
                indices.drop_first(),
            ),
            _ => TypeV::VoidType,
        }
    }
}

/// The type of the member at the path `indices`, from position `k` on, of
/// an aggregate of type `cur_type`.
fn ev_type(cur_type: TypeRef, indices: &Vec<u32>, k: usize) -> (t: TypeRef)
    requires
        k <= indices.len(),
        ev_ok(cur_type@, indices@.skip(k as int)),
    ensures
        t@ == ev_type_spec(cur_type@, indices@.skip(k as int)),
    decreases indices.len() - k,
{
    if k == indices.len() {
        return cur_type;
    }
    let index = indices[k];
    assert(indices@.skip(k as int)[0] == index);
    assert(indices@.skip(k as int).drop_first() =~= indices@.skip(k + 1));
    match cur_type.as_ref() {
        Type::ArrayType { element_type, .. } => ev_type(element_type.clone(), indices, k + 1),
        Type::StructType { element_types, .. } => {
            let i = index as usize;
            let next = element_types[i].clone();
            ev_type(next, indices, k + 1)
        },
        _ => {
            proof {
                assert(false);
            }
            cur_type
        },
    }
}

impl Typed for ExtractValue {
    open spec fn typed_ok(&self) -> bool {
        operand_typable(self.aggregate) && ev_ok(operand_type(self.aggregate), self.indices@)
    }

    open spec fn typed_view(&self) -> TypeV {
        ev_type_spec(operand_type(self.aggregate), self.indices@)
    }

    fn get_type(&self, types: &Types) -> (t: TypeRef) {
        assert(self.indices@.skip(0) =~= self.indices@);
        ev_type(types.type_of(&self.aggregate), &self.indices, 0)
    }
}

/// `insertvalue`: an aggregate with the member at a path replaced.
#[derive(PartialEq, Clone, Debug, Hash)]
pub struct InsertValue {
    pub aggregate: Operand,
    pub element: Operand,
    pub indices: Vec<u32>,
    pub dest: Name,
}

impl Typed for InsertValue {
    open spec fn typed_ok(&self) -> bool {
        operand_typable(self.aggregate)
    }

    open spec fn typed_view(&self) -> TypeV {
        operand_type(self.aggregate)
    }

    fn get_type(&self, types: &Types) -> (t: TypeRef) {
        types.type_of(&self.aggregate)
    }
}

/// `alloca`: stack memory for `num_elements` values of `allocated_type`.
#[derive(PartialEq, Clone, Debug, Hash)]
pub struct Alloca {
    pub allocated_type: TypeRef,
    pub num_elements: Operand,
    pub dest: Name,
    pub alignment: u32,
}

impl Typed for Alloca {
    open spec fn typed_ok(&self) -> bool {
        true
    }

    open spec fn typed_view(&self) -> TypeV {
        TypeV::PointerType { addr_space: 0 }
    }

    fn get_type(&self, types: &Types) -> (t: TypeRef) {
        types.pointer()
    }
}

/// `load`: a value of `loaded_ty` read from an address.
#[derive(PartialEq, Clone, Debug, Hash)]
pub struct Load {
    pub address: Operand,
    pub dest: Name,
    pub loaded_ty: TypeRef,
    pub volatile: bool,
    pub atomicity: Option<Atomicity>,
    pub alignment: u32,
}

impl Typed for Load {
    open spec fn typed_ok(&self) -> bool {
        true
    }

    open spec fn typed_view(&self) -> TypeV {
        self.loaded_ty@
    }

    fn get_type(&self, _types: &Types) -> (t: TypeRef) {
        self.loaded_ty.clone()
    }
}

/// `store`: a value written to an address; it has no result.
#[derive(PartialEq, Clone, Debug, Hash)]
pub struct Store {
    pub address: Operand,
    pub value: Operand,
    pub volatile: bool,
    pub atomicity: Option<Atomicity>,
    pub alignment: u32,
}

impl Typed for Store {
    open spec fn typed_ok(&self) -> bool {
        true
    }

    open spec fn typed_view(&self) -> TypeV {
        TypeV::VoidType
    }

    fn get_type(&self, types: &Types) -> (t: TypeRef) {
        types.void()
    }
}

/// `fence`: orders memory operations; it has no result.
#[derive(PartialEq, Clone, Debug, Hash)]
pub struct Fence {
    pub atomicity: Atomicity,
}

impl Typed for Fence {
    open spec fn typed_ok(&self) -> bool {
        true
    }

    open spec fn typed_view(&self) -> TypeV {
        TypeV::VoidType
    }

    fn get_type(&self, types: &Types) -> (t: TypeRef) {
        types.void()
    }
}

/// `cmpxchg`: an atomic compare and exchange; its result is the old value
/// and whether the exchange happened.
#[derive(PartialEq, Clone, Debug, Hash)]
pub struct CmpXchg {
    pub address: Operand,
    pub expected: Operand,
    pub replacement: Operand,
    pub dest: Name,
    pub volatile: bool,
    pub atomicity: Atomicity,
    pub failure_memory_ordering: MemoryOrdering,
    pub weak: bool,
}

impl Typed for CmpXchg {
    open spec fn typed_ok(&self) -> bool {
        same_typed(self.expected, self.replacement)
    }

    open spec fn typed_view(&self) -> TypeV {
        TypeV::StructType { element_types: seq![operand_type(self.expected), TypeV::IntegerType { bits: 1 }], is_packed: false }
    }

    fn get_type(&self, types: &Types) -> (t: TypeRef) {
        let ty = types.type_of(&self.expected);
        let b = types.bool();
        let r = types.struct_of(vec![ty, b], false);
        assert(r@->StructType_element_types =~= seq![operand_type(self.expected), TypeV::IntegerType { bits: 1 }]);
        r
    }
}

/// `atomicrmw`: an atomic read-modify-write; its result is the old value.
#[derive(PartialEq, Clone, Debug, Hash)]
pub struct AtomicRMW {
    pub operation: RMWBinOp,
    pub address: Operand,
    pub value: Operand,
    pub dest: Name,
    pub volatile: bool,
    pub atomicity: Atomicity,
}

impl Typed for AtomicRMW {
    open spec fn typed_ok(&self) -> bool {
        operand_typable(self.value)
    }

    open spec fn typed_view(&self) -> TypeV {
        operand_type(self.value)
    }

    fn get_type(&self, types: &Types) -> (t: TypeRef) {
        self.value.get_type(types)
    }
}

/// `getelementptr`: the address of an element, by indices.
#[derive(PartialEq, Clone, Debug, Hash)]
pub struct GetElementPtr {
    pub address: Operand,
    pub indices: Vec<Operand>,
    pub dest: Name,
    pub in_bounds: bool,
    pub source_element_type: TypeRef,
}

impl Typed for GetElementPtr {
    open spec fn typed_ok(&self) -> bool {
        true
    }

    open spec fn typed_view(&self) -> TypeV {
        TypeV::PointerType { addr_space: 0 }
    }

    fn get_type(&self, types: &Types) -> (t: TypeRef) {
        types.pointer()
    }
}

/// `trunc`: an operand converted to `to_type`.
#[derive(PartialEq, Clone, Debug, Hash)]
pub struct Trunc {
    pub operand: Operand,
    pub to_type: TypeRef,
    pub dest: Name,
}

impl Typed for Trunc {
    open spec fn typed_ok(&self) -> bool {
        true
    }

    open spec fn typed_view(&self) -> TypeV {
        self.to_type@
    }

    fn get_type(&self, _types: &Types) -> (t: TypeRef) {
        self.to_type.clone()
    }
}

/// `zext`: an operand converted to `to_type`.
#[derive(PartialEq, Clone, Debug, Hash)]
pub struct ZExt {
    pub operand: Operand,
    pub to_type: TypeRef,
    pub dest: Name,
    pub nneg: bool,
}

impl Typed for ZExt {
    open spec fn typed_ok(&self) -> bool {
        true
    }

    open spec fn typed_view(&self) -> TypeV {
        self.to_type@
    }

    fn get_type(&self, _types: &Types) -> (t: TypeRef) {
        self.to_type.clone()
    }
}

/// `sext`: an operand converted to `to_type`.
#[derive(PartialEq, Clone, Debug, Hash)]
pub struct SExt {
    pub operand: Operand,
    pub to_type: TypeRef,
    pub dest: Name,
}

impl Typed for SExt {
    open spec fn typed_ok(&self) -> bool {
        true
    }

    open spec fn typed_view(&self) -> TypeV {
        self.to_type@
    }

    fn get_type(&self, _types: &Types) -> (t: TypeRef) {
        self.to_type.clone()
    }
}

/// `fptrunc`: an operand converted to `to_type`.
#[derive(PartialEq, Clone, Debug, Hash)]
pub struct FPTrunc {
    pub operand: Operand,
    pub to_type: TypeRef,
    pub dest: Name,
}

impl Typed for FPTrunc {
    open spec fn typed_ok(&self) -> bool {
        true
    }

    open spec fn typed_view(&self) -> TypeV {
        self.to_type@
    }

    fn get_type(&self, _types: &Types) -> (t: TypeRef) {
        self.to_type.clone()
    }
}

/// `fpext`: an operand converted to `to_type`.
#[derive(PartialEq, Clone, Debug, Hash)]
pub struct FPExt {
    pub operand: Operand,
    pub to_type: TypeRef,
    pub dest: Name,
}

impl Typed for FPExt {
    open spec fn typed_ok(&self) -> bool {
        true
    }

    open spec fn typed_view(&self) -> TypeV {
        self.to_type@
    }

    fn get_type(&self, _types: &Types) -> (t: TypeRef) {
        self.to_type.clone()
    }
}

/// `fptoui`: an operand converted to `to_type`.
#[derive(PartialEq, Clone, Debug, Hash)]
pub struct FPToUI {
    pub operand: Operand,
    pub to_type: TypeRef,
    pub dest: Name,
}

impl Typed for FPToUI {
    open spec fn typed_ok(&self) -> bool {
        true
    }

    open spec fn typed_view(&self) -> TypeV {
        self.to_type@
    }

    fn get_type(&self, _types: &Types) -> (t: TypeRef) {
        self.to_type.clone()
    }
}

/// `fptosi`: an operand converted to `to_type`.
#[derive(PartialEq, Clone, Debug, Hash)]
pub struct FPToSI {
    pub operand: Operand,
    pub to_type: TypeRef,
    pub dest: Name,
}

impl Typed for FPToSI {
    open spec fn typed_ok(&self) -> bool {
        true
    }

    open spec fn typed_view(&self) -> TypeV {
        self.to_type@
    }

    fn get_type(&self, _types: &Types) -> (t: TypeRef) {
        self.to_type.clone()
    }
}

/// `uitofp`: an operand converted to `to_type`.
#[derive(PartialEq, Clone, Debug, Hash)]
pub struct UIToFP {
    pub operand: Operand,
    pub to_type: TypeRef,
    pub dest: Name,
}

impl Typed for UIToFP {
    open spec fn typed_ok(&self) -> bool {
        true
    }

    open spec fn typed_view(&self) -> TypeV {
        self.to_type@
    }

    fn get_type(&self, _types: &Types) -> (t: TypeRef) {
        self.to_type.clone()
    }
}

/// `sitofp`: an operand converted to `to_type`.
#[derive(PartialEq, Clone, Debug, Hash)]
pub struct SIToFP {
    pub operand: Operand,
    pub to_type: TypeRef,
    pub dest: Name,
}

impl Typed for SIToFP {
    open spec fn typed_ok(&self) -> bool {
        true
    }

    open spec fn typed_view(&self) -> TypeV {
        self.to_type@
    }

    fn get_type(&self, _types: &Types) -> (t: TypeRef) {
        self.to_type.clone()
    }
}

/// `ptrtoint`: an operand converted to `to_type`.
#[derive(PartialEq, Clone, Debug, Hash)]
pub struct PtrToInt {
    pub operand: Operand,
    pub to_type: TypeRef,
    pub dest: Name,
}

impl Typed for PtrToInt {
    open spec fn typed_ok(&self) -> bool {
        true
    }

    open spec fn typed_view(&self) -> TypeV {
        self.to_type@
    }

    fn get_type(&self, _types: &Types) -> (t: TypeRef) {
        self.to_type.clone()
    }
}

/// `inttoptr`: an operand converted to `to_type`.
#[derive(PartialEq, Clone, Debug, Hash)]
pub struct IntToPtr {
    pub operand: Operand,
    pub to_type: TypeRef,
    pub dest: Name,
}

impl Typed for IntToPtr {
    open spec fn typed_ok(&self) -> bool {
        true
    }

    open spec fn typed_view(&self) -> TypeV {
        self.to_type@
    }

    fn get_type(&self, _types: &Types) -> (t: TypeRef) {
        self.to_type.clone()
    }
}

/// `bitcast`: an operand converted to `to_type`.
#[derive(PartialEq, Clone, Debug, Hash)]
pub struct BitCast {
    pub operand: Operand,
    pub to_type: TypeRef,
    pub dest: Name,
}

impl Typed for BitCast {
    open spec fn typed_ok(&self) -> bool {
        true
    }

    open spec fn typed_view(&self) -> TypeV {
        self.to_type@
    }

    fn get_type(&self, _types: &Types) -> (t: TypeRef) {
        self.to_type.clone()
    }
}

/// `addrspacecast`: an operand converted to `to_type`.
#[derive(PartialEq, Clone, Debug, Hash)]
pub struct AddrSpaceCast {
    pub operand: Operand,
    pub to_type: TypeRef,
    pub dest: Name,
}

impl Typed for AddrSpaceCast {
    open spec fn typed_ok(&self) -> bool {
        true
    }

    open spec fn typed_view(&self) -> TypeV {
        self.to_type@
    }

    fn get_type(&self, _types: &Types) -> (t: TypeRef) {
        self.to_type.clone()
    }
}

/// The result type of a comparison of operands of type `t`: a boolean, or
/// a vector of booleans as long as a vector operand.
pub open spec fn cmp_result_type(t: TypeV) -> TypeV {
    match t {
        TypeV::VectorType { num_elements, scalable, .. } => TypeV::VectorType {
            element_type: Box::new(TypeV::IntegerType { bits: 1 }),
            num_elements,
            scalable,
        },
        _ => TypeV::IntegerType { bits: 1 },
    }
}

/// The result type of comparing two operands of the type `ty`.
fn cmp_result(ty: TypeRef, types: &Types) -> (t: TypeRef)
    ensures
        t@ == cmp_result_type(ty@),
{
    match ty.as_ref() {
        Type::VectorType { num_elements, scalable, .. } => types.vector_of(
            types.bool(),
            *num_elements,
            *scalable,
        ),
        _ => types.bool(),
    }
}

/// `icmp`: an integer or pointer comparison.
#[derive(PartialEq, Clone, Debug, Hash)]
pub struct ICmp {
    pub predicate: IntPredicate,
    pub operand0: Operand,
    pub operand1: Operand,
    pub dest: Name,
}

impl Typed for ICmp {
    open spec fn typed_ok(&self) -> bool {
        same_typed(self.operand0, self.operand1)
    }

    open spec fn typed_view(&self) -> TypeV {
        cmp_result_type(operand_type(self.operand0))
    }

    fn get_type(&self, types: &Types) -> (t: TypeRef) {
        cmp_result(types.type_of(&self.operand0), types)
    }
}

/// `fcmp`: a floating-point comparison.
#[derive(PartialEq, Clone, Debug, Hash)]
pub struct FCmp {
    pub predicate: FPPredicate,
    pub operand0: Operand,
    pub operand1: Operand,
    pub dest: Name,
}

impl Typed for FCmp {
    open spec fn typed_ok(&self) -> bool {
        same_typed(self.operand0, self.operand1)
    }

    open spec fn typed_view(&self) -> TypeV {
        cmp_result_type(operand_type(self.operand0))
    }

    fn get_type(&self, types: &Types) -> (t: TypeRef) {
        cmp_result(types.type_of(&self.operand0), types)
    }
}

/// `phi`: the value coming from whichever predecessor block was left.
#[derive(PartialEq, Clone, Debug, Hash)]
pub struct Phi {
    pub incoming_values: Vec<(Operand, Name)>,
    pub dest: Name,
    pub to_type: TypeRef,
}

impl Typed for Phi {
    open spec fn typed_ok(&self) -> bool {
        true
    }

    open spec fn typed_view(&self) -> TypeV {
        self.to_type@
    }

    fn get_type(&self, _types: &Types) -> (t: TypeRef) {
        self.to_type.clone()
    }
}

/// `select`: one of two values, by a condition.
#[derive(PartialEq, Clone, Debug, Hash)]
pub struct Select {
    pub condition: Operand,
    pub true_value: Operand,
    pub false_value: Operand,
    pub dest: Name,
}

impl Typed for Select {
    open spec fn typed_ok(&self) -> bool {
        same_typed(self.true_value, self.false_value)
    }

    open spec fn typed_view(&self) -> TypeV {
        operand_type(self.true_value)
    }

    fn get_type(&self, types: &Types) -> (t: TypeRef) {
        types.type_of(&self.true_value)
    }
}

/// `freeze`: an operand with any undefined bits fixed.
#[derive(PartialEq, Clone, Debug, Hash)]
pub struct Freeze {
    pub operand: Operand,
    pub dest: Name,
}

impl Typed for Freeze {
    open spec fn typed_ok(&self) -> bool {
        operand_typable(self.operand)
    }

    open spec fn typed_view(&self) -> TypeV {
        operand_type(self.operand)
    }

    fn get_type(&self, types: &Types) -> (t: TypeRef) {
        types.type_of(&self.operand)
    }
}

/// `call`: a call of inline assembly or of a function value.
#[derive(PartialEq, Clone, Debug, Hash)]
pub struct Call {
    pub function: Either<InlineAssembly, Operand>,
    pub function_ty: TypeRef,
    pub arguments: Vec<(Operand, Vec<ParameterAttribute>)>,
    pub return_attributes: Vec<ParameterAttribute>,
    /// `None` where the callee returns `void`.
    pub dest: Option<Name>,
    pub function_attributes: Vec<FunctionAttribute>,
    pub is_tail_call: bool,
    pub calling_convention: CallingConvention,
}

impl Typed for Call {
    open spec fn typed_ok(&self) -> bool {
        self.function_ty@ is FuncType
    }

    open spec fn typed_view(&self) -> TypeV {
        *self.function_ty@->FuncType_result_type
    }

    fn get_type(&self, _types: &Types) -> (t: TypeRef) {
        match self.function_ty.as_ref() {
            Type::FuncType { result_type, .. } => result_type.clone(),
            _ => {
                proof {
                    assert(false);
                }
                self.function_ty.clone()
            },
        }
    }
}

/// `va_arg`: the next variadic argument, of `cur_type`.
#[derive(PartialEq, Clone, Debug, Hash)]
pub struct VAArg {
    pub arg_list: Operand,
    pub cur_type: TypeRef,
    pub dest: Name,
}

impl Typed for VAArg {
    open spec fn typed_ok(&self) -> bool {
        true
    }

    open spec fn typed_view(&self) -> TypeV {
        self.cur_type@
    }

    fn get_type(&self, _types: &Types) -> (t: TypeRef) {
        self.cur_type.clone()
    }
}

/// `landingpad`: where an exception lands; its result has `result_type`.
#[derive(PartialEq, Clone, Debug, Hash)]
pub struct LandingPad {
    pub result_type: TypeRef,
    pub clauses: Vec<LandingPadClause>,
    pub dest: Name,
    pub cleanup: bool,
}

impl Typed for LandingPad {
    open spec fn typed_ok(&self) -> bool {
        true
    }

    open spec fn typed_view(&self) -> TypeV {
        self.result_type@
    }

    fn get_type(&self, _types: &Types) -> (t: TypeRef) {
        self.result_type.clone()
    }
}

/// `catchpad`: the start of a catch handler; its result is a token.
#[derive(PartialEq, Clone, Debug, Hash)]
pub struct CatchPad {
    pub catch_switch: Operand,
    pub args: Vec<Operand>,
    pub dest: Name,
}

impl Typed for CatchPad {
    open spec fn typed_ok(&self) -> bool {
        true
    }

    open spec fn typed_view(&self) -> TypeV {
        TypeV::TokenType
    }

    fn get_type(&self, types: &Types) -> (t: TypeRef) {
        types.token_type()
    }
}

/// `cleanuppad`: the start of a cleanup; its result is a token.
#[derive(PartialEq, Clone, Debug, Hash)]
pub struct CleanupPad {
    pub parent_pad: Operand,
    pub args: Vec<Operand>,
    pub dest: Name,
}

impl Typed for CleanupPad {
    open spec fn typed_ok(&self) -> bool {
        true
    }

    open spec fn typed_view(&self) -> TypeV {
        TypeV::TokenType
    }

    fn get_type(&self, types: &Types) -> (t: TypeRef) {
        types.token_type()
    }
}

/// The comparisons of `icmp`.
#[derive(PartialEq, Eq, Clone, Copy, Debug, Hash, Structural)]
pub enum IntPredicate {
    EQ,
    NE,
    UGT,
    UGE,
    ULT,
    ULE,
    SGT,
    SGE,
    SLT,
    SLE,
}

/// The comparisons of `fcmp`: ordered, unordered, or constant.
#[derive(PartialEq, Eq, Clone, Copy, Debug, Hash, Structural)]
pub enum FPPredicate {
    False,
    OEQ,
    OGT,
    OGE,
    OLT,
    OLE,
    ONE,
    ORD,
    UNO,
    UEQ,
    UGT,
    UGE,
    ULT,
    ULE,
    UNE,
    True,
}

/// The fast-math flags of a floating-point instruction.
#[derive(PartialEq, Eq, Clone, Debug, Hash)]
#[allow(non_snake_case)]
pub struct FastMathFlags {
    pub allow_reassoc: bool,
    pub no_NaNs: bool,
    pub no_Infs: bool,
    pub no_signed_zeros: bool,
    pub allow_reciprocal: bool,
    pub allow_contract: bool,
    pub approx_func: bool,
}

/// The atomicity of an atomic instruction.
#[derive(PartialEq, Eq, Clone, Debug, Hash)]
pub struct Atomicity {
    pub synch_scope: SynchronizationScope,
    pub mem_ordering: MemoryOrdering,
}

/// The threads an atomic instruction synchronises with.
#[derive(PartialEq, Eq, Clone, Copy, Debug, Hash, Structural)]
pub enum SynchronizationScope {
    SingleThread,
    System,
}

/// The memory ordering of an atomic instruction.
#[derive(PartialEq, Eq, Clone, Copy, Debug, Hash, Structural)]
pub enum MemoryOrdering {
    Unordered,
    Monotonic,
    Acquire,
    Release,
    AcquireRelease,
    SequentiallyConsistent,
    NotAtomic,
}

/// Inline assembly called as a function.
#[derive(PartialEq, Eq, Clone, Debug, Hash)]
pub struct InlineAssembly {
    pub assembly: String,
    pub ty: TypeRef,
    pub constraints: String,
    pub has_side_effects: bool,
    pub align_stack: bool,
    pub dialect: AssemblyDialect,
}

impl Typed for InlineAssembly {
    open spec fn typed_ok(&self) -> bool {
        true
    }

    open spec fn typed_view(&self) -> TypeV {
        self.ty@
    }

    fn get_type(&self, _types: &Types) -> (t: TypeRef) {
        self.ty.clone()
    }
}

/// The syntax of inline assembly.
#[derive(PartialEq, Eq, Clone, Copy, Debug, Hash, Structural)]
pub enum AssemblyDialect {
    ATT,
    Intel,
}

/// The operations of `atomicrmw`.
#[derive(PartialEq, Eq, Clone, Copy, Debug, Hash, Structural)]
pub enum RMWBinOp {
    Xchg,
    Add,
    Sub,
    And,
    Nand,
    Or,
    Xor,
    Max,
    Min,
    UMax,
    UMin,
    FAdd,
    FSub,
    FMax,
    FMin,
    UIncWrap,
    UDecWrap,
}

/// A clause of a landing pad; clauses carry nothing yet.
#[derive(PartialEq, Eq, Clone, Copy, Debug, Hash, Structural)]
pub struct LandingPadClause {}

} // verus!
