//! Instructions and blocks annotated with the locations live after them.
use vstd::prelude::*;
use crate::riscv_var::instruction::RvVarInstr;
use crate::riscv_var::label::Label;
use crate::riscv_var::location::{LocationV, RvVarLocation};

verus! {

/// The models of a sequence of locations.
pub open spec fn locations_model(s: Seq<RvVarLocation>) -> Seq<LocationV> {
    Seq::new(s.len(), |i: int| s[i]@)
}

/// An instruction with the locations live right after it.
pub struct RvVarInstrLiveness {
    pub instr: RvVarInstr,
    pub live: Vec<RvVarLocation>,
}

/// A basic block whose instructions carry their live locations, with the
/// locations live at its end.
pub struct RvVarBasicBlockLiveness {
    pub name: Label,
    pub instrs: Vec<RvVarInstrLiveness>,
    pub live_out: Vec<RvVarLocation>,
}

} // verus!
