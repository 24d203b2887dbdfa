//! Basic blocks of instructions over locations.
use vstd::prelude::*;
use crate::riscv_var::instruction::RvVarInstr;
use crate::riscv_var::label::Label;

verus! {

/// A labelled straight-line sequence of instructions.
#[derive(Clone, PartialEq)]
pub struct RvVarBasicBlock {
    pub name: Label,
    pub instrs: Vec<RvVarInstr>,
}

impl RvVarBasicBlock {
    /// An empty block with the given name.
    pub fn new(name: Label) -> (b: Self)
        ensures
            b.name == name,
            b.instrs@.len() == 0,
    {
        RvVarBasicBlock { name, instrs: Vec::new() }
    }
}

} // verus!
