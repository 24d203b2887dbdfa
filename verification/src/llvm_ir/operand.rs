//! Operands of LLVM IR instructions and their types.
use vstd::prelude::*;
use crate::llvm_ir::constant::{constant_type, constant_typable, Constant, ConstantRef, ConstantV};
use crate::llvm_ir::name::{Name, NameV};
use crate::llvm_ir::types::{TypeRef, TypeV, Typed, Types};

verus! {

/// An operand: a local value of a given type, a constant, or metadata.
#[derive(PartialEq, Debug, Hash)]
pub enum Operand {
    LocalOperand { name: Name, ty: TypeRef },
    ConstantOperand(ConstantRef),
    MetadataOperand,
}

/// Mathematical model of [`Operand`].
pub enum OperandV {
    Local { name: NameV, ty: TypeV },
    Constant(ConstantV),
    Metadata,
}

impl View for Operand {
    type V = OperandV;

    open spec fn view(&self) -> OperandV {
        match self {
            Operand::LocalOperand { name, ty } => OperandV::Local { name: name@, ty: ty@ },
            Operand::ConstantOperand(c) => OperandV::Constant(c@),
            Operand::MetadataOperand => OperandV::Metadata,
        }
    }
}

impl Clone for Operand {
    fn clone(&self) -> (r: Self)
        ensures
            r@ == self@,
    {
        match self {
            Operand::LocalOperand { name, ty } => Operand::LocalOperand { name: name.clone(), ty: ty.clone() },
            Operand::ConstantOperand(c) => Operand::ConstantOperand(c.clone()),
            Operand::MetadataOperand => Operand::MetadataOperand,
        }
    }
}

/// Whether the type of an operand, given by its model, can be computed.
pub open spec fn operand_v_typable(o: OperandV) -> bool {
    match o {
        OperandV::Constant(c) => constant_typable(c),
        _ => true,
    }
}

/// The type of an operand, given by its model.
pub open spec fn operand_v_type(o: OperandV) -> TypeV {
    match o {
        OperandV::Local { ty, .. } => ty,
        OperandV::Constant(c) => constant_type(c),
        OperandV::Metadata => TypeV::MetadataType,
    }
}

/// Whether an operand is typed, and its type, read off its model.
pub proof fn lemma_operand_model(o: Operand)
    ensures
        operand_typable(o) == operand_v_typable(o@),
        operand_type(o) == operand_v_type(o@),
{
}

/// The models of a list of operands.
pub open spec fn operands_model(s: Seq<Operand>) -> Seq<OperandV> {
    Seq::new(s.len(), |i: int| s[i]@)
}

/// Whether the type of an operand can be computed.
pub open spec fn operand_typable(o: Operand) -> bool {
    match o {
        Operand::ConstantOperand(c) => constant_typable(c@),
        _ => true,
    }
}

/// The type of an operand.
pub open spec fn operand_type(o: Operand) -> TypeV {
    match o {
        Operand::LocalOperand { ty, .. } => ty@,
        Operand::ConstantOperand(c) => constant_type(c@),
        Operand::MetadataOperand => TypeV::MetadataType,
    }
}

impl Typed for Operand {
    open spec fn typed_ok(&self) -> bool {
        operand_typable(*self)
    }

    open spec fn typed_view(&self) -> TypeV {
        operand_type(*self)
    }

    fn get_type(&self, types: &Types) -> (t: TypeRef) {
        match self {
            Operand::LocalOperand { ty, .. } => ty.clone(),
            Operand::ConstantOperand(c) => types.type_of(c),
            Operand::MetadataOperand => types.metadata_type(),
        }
    }
}

impl Operand {
    /// The constant, where the operand is one.
    pub fn as_constant(&self) -> (r: Option<&Constant>)
        ensures
            r is Some <==> self is ConstantOperand,
            r is Some ==> r->0@ == self->ConstantOperand_0@,
    {
        match self {
            Operand::ConstantOperand(cref) => Some(cref.as_ref()),
            _ => None,
        }
    }
}

} // verus!
