//! Programs: sequences of basic blocks over locations.
use vstd::prelude::*;
use crate::riscv_var::basicblock::RvVarBasicBlock;

verus! {

/// A program: its basic blocks, in order.
pub struct RvVarProgram {
    pub blocks: Vec<RvVarBasicBlock>,
}

impl RvVarProgram {
    /// A program without blocks.
    pub fn new() -> (p: Self)
        ensures
            p.blocks@.len() == 0,
    {
        RvVarProgram { blocks: Vec::new() }
    }

    /// Appends a block after the others.
    pub fn append_basic_block(&mut self, block: RvVarBasicBlock)
        ensures
            final(self).blocks@ == old(self).blocks@.push(block),
    {
        self.blocks.push(block);
    }
}

} // verus!
