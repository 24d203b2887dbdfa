//! Basic blocks of LLVM IR.
use vstd::prelude::*;
use crate::llvm_ir::instruction::Instruction;
use crate::llvm_ir::name::Name;
use crate::llvm_ir::terminator::{Terminator, Unreachable};

verus! {

/// A basic block: its name, its instructions and its terminator.
#[derive(PartialEq, Clone, Debug, Hash)]
pub struct BasicBlock {
    pub name: Name,
    pub instrs: Vec<Instruction>,
    pub term: Terminator,
}

impl BasicBlock {
    /// A block named `name` without instructions, ended by `unreachable`.
    pub fn new(name: Name) -> (b: Self)
        ensures
            b.name == name,
            b.instrs@.len() == 0,
            b.term == Terminator::Unreachable(Unreachable {}),
    {
        Self { name, instrs: Vec::new(), term: Terminator::Unreachable(Unreachable {}) }
    }
}

} // verus!
