pub mod riscv;
pub mod syntax;
pub mod typechecker;
pub mod gensym;
pub mod uniquify;
pub mod riscv_var;
pub mod a_normal_form;
pub mod explicate_control;
pub mod remove_complex;
pub mod numfmt;
pub mod ungraph;
pub mod bitfield;
pub mod liveness_rv_var;
pub mod allocate_registers_rv_var;
pub mod shrink;
pub mod llvm_ir;
pub mod eval;
pub mod assign_homes;
pub mod expose_allocation;
pub mod emit_llvm;
