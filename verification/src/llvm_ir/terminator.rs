//! Terminators of LLVM IR basic blocks and their result types.
use vstd::prelude::*;
use crate::llvm_ir::constant::ConstantRef;
use crate::llvm_ir::function::{CallingConvention, FunctionAttribute, ParameterAttribute};
use crate::llvm_ir::instruction::InlineAssembly;
use crate::llvm_ir::name::Name;
use crate::llvm_ir::operand::Operand;
use crate::llvm_ir::types::{Either, Type, TypeRef, TypeV, Typed, Types};

verus! {

/// The instruction that ends a basic block.
#[derive(PartialEq, Clone, Debug, Hash)]
pub enum Terminator {
    Ret(Ret),
    Br(Br),
    CondBr(CondBr),
    Switch(Switch),
    IndirectBr(IndirectBr),
    Invoke(Invoke),
    Resume(Resume),
    Unreachable(Unreachable),
    CleanupRet(CleanupRet),
    CatchRet(CatchRet),
    CatchSwitch(CatchSwitch),
    CallBr(CallBr),
}

impl Typed for Terminator {
    open spec fn typed_ok(&self) -> bool {
        match self {
            Terminator::Ret(t) => t.typed_ok(),
            Terminator::Br(t) => t.typed_ok(),
            Terminator::CondBr(t) => t.typed_ok(),
            Terminator::Switch(t) => t.typed_ok(),
            Terminator::IndirectBr(t) => t.typed_ok(),
            Terminator::Invoke(t) => t.typed_ok(),
            Terminator::Resume(t) => t.typed_ok(),
            Terminator::Unreachable(t) => t.typed_ok(),
            Terminator::CleanupRet(t) => t.typed_ok(),
            Terminator::CatchRet(t) => t.typed_ok(),
            Terminator::CatchSwitch(t) => t.typed_ok(),
            Terminator::CallBr(t) => t.typed_ok(),
        }
    }

    open spec fn typed_view(&self) -> TypeV {
        match self {
            Terminator::Ret(t) => t.typed_view(),
            Terminator::Br(t) => t.typed_view(),
            Terminator::CondBr(t) => t.typed_view(),
            Terminator::Switch(t) => t.typed_view(),
            Terminator::IndirectBr(t) => t.typed_view(),
            Terminator::Invoke(t) => t.typed_view(),
            Terminator::Resume(t) => t.typed_view(),
            Terminator::Unreachable(t) => t.typed_view(),
            Terminator::CleanupRet(t) => t.typed_view(),
            Terminator::CatchRet(t) => t.typed_view(),
            Terminator::CatchSwitch(t) => t.typed_view(),
            Terminator::CallBr(t) => t.typed_view(),
        }
    }

    fn get_type(&self, types: &Types) -> (t: TypeRef) {
        match self {
            Terminator::Ret(t) => types.type_of(t),
            Terminator::Br(t) => types.type_of(t),
            Terminator::CondBr(t) => types.type_of(t),
            Terminator::Switch(t) => types.type_of(t),
            Terminator::IndirectBr(t) => types.type_of(t),
            Terminator::Invoke(t) => types.type_of(t),
            Terminator::Resume(t) => types.type_of(t),
            Terminator::Unreachable(t) => types.type_of(t),
            Terminator::CleanupRet(t) => types.type_of(t),
            Terminator::CatchRet(t) => types.type_of(t),
            Terminator::CatchSwitch(t) => types.type_of(t),
            Terminator::CallBr(t) => types.type_of(t),
        }
    }
}

impl Terminator {
    /// The name of its result, for the terminators that have one: `invoke`,
    /// `catchswitch` and `callbr`.
    pub fn try_get_result(&self) -> (r: Option<&Name>)
        ensures
            r == match self {
                Terminator::Invoke(t) => Some(&t.result),
                Terminator::CatchSwitch(t) => Some(&t.result),
                Terminator::CallBr(t) => Some(&t.result),
                _ => None,
            },
    {
        match self {
            Terminator::Ret(_) => None,
            Terminator::Br(_) => None,
            Terminator::CondBr(_) => None,
            Terminator::Switch(_) => None,
            Terminator::IndirectBr(_) => None,
            Terminator::Invoke(t) => Some(&t.result),
            Terminator::Resume(_) => None,
            Terminator::Unreachable(_) => None,
            Terminator::CleanupRet(_) => None,
            Terminator::CatchRet(_) => None,
            Terminator::CatchSwitch(t) => Some(&t.result),
            Terminator::CallBr(t) => Some(&t.result),
        }
    }
}

/// `ret`: returns from the function, with a value or none.
#[derive(PartialEq, Clone, Debug, Hash)]
pub struct Ret {
    pub return_operand: Option<Operand>,
}

impl Typed for Ret {
    open spec fn typed_ok(&self) -> bool {
        true
    }

    open spec fn typed_view(&self) -> TypeV {
        TypeV::VoidType
    }

    fn get_type(&self, types: &Types) -> (t: TypeRef) {
        types.void()
    }
}

/// `br`: jumps to the block `dest`.
#[derive(PartialEq, Clone, Debug, Hash)]
pub struct Br {
    pub dest: Name,
}

impl Typed for Br {
    open spec fn typed_ok(&self) -> bool {
        true
    }

    open spec fn typed_view(&self) -> TypeV {
        TypeV::VoidType
    }

    fn get_type(&self, types: &Types) -> (t: TypeRef) {
        types.void()
    }
}

/// `br` on a condition: jumps to one of two blocks.
#[derive(PartialEq, Clone, Debug, Hash)]
pub struct CondBr {
    pub condition: Operand,
    pub true_dest: Name,
    pub false_dest: Name,
}

impl From<CondBr> for Terminator {
    fn from(term: CondBr) -> (t: Terminator) {
        Terminator::CondBr(term)
    }
}

impl vstd::std_specs::convert::FromSpecImpl<CondBr> for Terminator {
    open spec fn obeys_from_spec() -> bool {
        true
    }

    open spec fn from_spec(term: CondBr) -> Terminator {
        Terminator::CondBr(term)
    }
}

impl Typed for CondBr {
    open spec fn typed_ok(&self) -> bool {
        true
    }

    open spec fn typed_view(&self) -> TypeV {
        TypeV::VoidType
    }

    fn get_type(&self, types: &Types) -> (t: TypeRef) {
        types.void()
    }
}

/// `switch`: jumps to the block of the value an operand equals, or to the
/// default block.
#[derive(PartialEq, Clone, Debug, Hash)]
pub struct Switch {
    pub operand: Operand,
    pub dests: Vec<(ConstantRef, Name)>,
    pub default_dest: Name,
}

impl Typed for Switch {
    open spec fn typed_ok(&self) -> bool {
        true
    }

    open spec fn typed_view(&self) -> TypeV {
        TypeV::VoidType
    }

    fn get_type(&self, types: &Types) -> (t: TypeRef) {
        types.void()
    }
}

/// `indirectbr`: jumps to the block at an address.
#[derive(PartialEq, Clone, Debug, Hash)]
pub struct IndirectBr {
    pub operand: Operand,
    pub possible_dests: Vec<Name>,
}

impl Typed for IndirectBr {
    open spec fn typed_ok(&self) -> bool {
        true
    }

    open spec fn typed_view(&self) -> TypeV {
        TypeV::VoidType
    }

    fn get_type(&self, types: &Types) -> (t: TypeRef) {
        types.void()
    }
}

/// `invoke`: a call that continues at one of two blocks, as it returns or
/// unwinds; its result has the callee's result type.
#[derive(PartialEq, Clone, Debug, Hash)]
pub struct Invoke {
    pub function: Either<InlineAssembly, Operand>,
    pub function_ty: TypeRef,
    pub arguments: Vec<(Operand, Vec<ParameterAttribute>)>,
    pub return_attributes: Vec<ParameterAttribute>,
    pub result: Name,
    pub return_label: Name,
    pub exception_label: Name,
    pub function_attributes: Vec<FunctionAttribute>,
    pub calling_convention: CallingConvention,
}

impl Typed for Invoke {
    open spec fn typed_ok(&self) -> bool {
        self.function_ty@ is FuncType
    }

    open spec fn typed_view(&self) -> TypeV {
        *self.function_ty@->FuncType_result_type
    }

    fn get_type(&self, _types: &Types) -> (t: TypeRef) {
        match self.function_ty.as_ref() {
            Type::FuncType { result_type, .. } => result_type.clone(),
            _ => {
                proof {
                    assert(false);
                }
                self.function_ty.clone()
            },
        }
    }
}

/// `resume`: goes on unwinding with an exception.
#[derive(PartialEq, Clone, Debug, Hash)]
pub struct Resume {
    pub operand: Operand,
}

impl Typed for Resume {
    open spec fn typed_ok(&self) -> bool {
        true
    }

    open spec fn typed_view(&self) -> TypeV {
        TypeV::VoidType
    }

    fn get_type(&self, types: &Types) -> (t: TypeRef) {
        types.void()
    }
}

/// `unreachable`: control never gets here.
#[derive(PartialEq, Clone, Debug, Hash)]
pub struct Unreachable {}

impl From<Unreachable> for Terminator {
    fn from(term: Unreachable) -> (t: Terminator) {
        Terminator::Unreachable(term)
    }
}

impl vstd::std_specs::convert::FromSpecImpl<Unreachable> for Terminator {
    open spec fn obeys_from_spec() -> bool {
        true
    }

    open spec fn from_spec(term: Unreachable) -> Terminator {
        Terminator::Unreachable(term)
    }
}

impl Typed for Unreachable {
    open spec fn typed_ok(&self) -> bool {
        true
    }

    open spec fn typed_view(&self) -> TypeV {
        TypeV::VoidType
    }

    fn get_type(&self, types: &Types) -> (t: TypeRef) {
        types.void()
    }
}

/// `cleanupret`: ends a cleanup, unwinding on to a block or the caller.
#[derive(PartialEq, Clone, Debug, Hash)]
pub struct CleanupRet {
    pub cleanup_pad: Operand,
    pub unwind_dest: Option<Name>,
}

impl Typed for CleanupRet {
    open spec fn typed_ok(&self) -> bool {
        true
    }

    open spec fn typed_view(&self) -> TypeV {
        TypeV::VoidType
    }

    fn get_type(&self, types: &Types) -> (t: TypeRef) {
        types.void()
    }
}

/// `catchret`: ends a catch handler, going on at `successor`.
#[derive(PartialEq, Clone, Debug, Hash)]
pub struct CatchRet {
    pub catch_pad: Operand,
    pub successor: Name,
}

impl Typed for CatchRet {
    open spec fn typed_ok(&self) -> bool {
        true
    }

    open spec fn typed_view(&self) -> TypeV {
        TypeV::VoidType
    }

    fn get_type(&self, types: &Types) -> (t: TypeRef) {
        types.void()
    }
}

/// `catchswitch`: chooses among catch handlers.  Its type is not
/// implemented: computing it always panics, so `typed_ok` is false.
#[derive(PartialEq, Clone, Debug, Hash)]
pub struct CatchSwitch {
    pub parent_pad: Operand,
    pub catch_handlers: Vec<Name>,
    pub default_unwind_dest: Option<Name>,
    pub result: Name,
}

impl Typed for CatchSwitch {
    open spec fn typed_ok(&self) -> bool {
        false
    }

    open spec fn typed_view(&self) -> TypeV {
        TypeV::TokenType
    }

    fn get_type(&self, types: &Types) -> (t: TypeRef) {
        proof {
            assert(false);
        }
        types.token_type()
    }
}

/// `callbr`: a call of inline assembly that may jump elsewhere; its result
/// has the callee's result type.
#[derive(PartialEq, Debug, Hash)]
pub struct CallBr {
    pub function: Either<InlineAssembly, Operand>,
    pub arguments: Vec<(Operand, Vec<ParameterAttribute>)>,
    pub return_attributes: Vec<ParameterAttribute>,
    pub result: Name,
    pub return_label: Name,
    pub other_labels: (),
    pub function_attributes: Vec<FunctionAttribute>,
    pub calling_convention: CallingConvention,
}

impl Clone for CallBr {
    fn clone(&self) -> (r: Self) {
        CallBr {
            function: self.function.clone(),
            arguments: self.arguments.clone(),
            return_attributes: self.return_attributes.clone(),
            result: self.result.clone(),
            return_label: self.return_label.clone(),
            other_labels: (),
            function_attributes: self.function_attributes.clone(),
            calling_convention: self.calling_convention,
        }
    }
}

impl Typed for CallBr {
    open spec fn typed_ok(&self) -> bool {
        self.function.typed_ok() && self.function.typed_view() is FuncType
    }

    open spec fn typed_view(&self) -> TypeV {
        *self.function.typed_view()->FuncType_result_type
    }

    fn get_type(&self, types: &Types) -> (t: TypeRef) {
        let ft = types.type_of(&self.function);
        match ft.as_ref() {
            Type::FuncType { result_type, .. } => result_type.clone(),
            _ => {
                proof {
                    assert(false);
                }
                ft
            },
        }
    }
}

} // verus!
