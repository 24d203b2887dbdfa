use intu::llvm_ir::function::{MemoryEffect, Parameter, ParameterAttribute};
use intu::llvm_ir::instruction::{
    AssemblyDialect, Atomicity, Fence, InlineAssembly, LandingPad, MemoryOrdering,
    SynchronizationScope,
};
use intu::llvm_ir::name::Name;
use intu::llvm_ir::terminator::{Br, Unreachable};
use intu::llvm_ir::types::{Typed, Types};

#[test]
fn memory_effect_from_bits() {
    assert_eq!(MemoryEffect::from_llvm_bits(0), MemoryEffect::NoEffect);
    assert_eq!(MemoryEffect::from_llvm_bits(1), MemoryEffect::Read);
    assert_eq!(MemoryEffect::from_llvm_bits(2), MemoryEffect::Write);
    assert_eq!(MemoryEffect::from_llvm_bits(3), MemoryEffect::ReadWrite);
}

#[test]
fn parameter_has_its_declared_type() {
    let types = Types::new();
    let p = Parameter {
        name: Name::Number(0),
        ty: types.i32(),
        attributes: vec![ParameterAttribute::NoUndef],
    };
    assert_eq!(p.get_type(&types).to_string(), "i32");
    assert_eq!(types.type_of(&p).to_string(), "i32");
}

#[test]
fn terminators_and_fences_are_void() {
    let types = Types::new();
    let br = Br { dest: Name::Number(3) };
    assert_eq!(br.get_type(&types).to_string(), "void");
    assert_eq!(Unreachable {}.get_type(&types).to_string(), "void");
    let fence = Fence {
        atomicity: Atomicity {
            synch_scope: SynchronizationScope::System,
            mem_ordering: MemoryOrdering::SequentiallyConsistent,
        },
    };
    assert_eq!(fence.get_type(&types).to_string(), "void");
}

#[test]
fn landing_pad_and_inline_assembly_types() {
    let types = Types::new();
    let lp = LandingPad {
        result_type: types.i64(),
        clauses: vec![],
        dest: Name::Number(1),
        cleanup: true,
    };
    assert_eq!(lp.get_type(&types).to_string(), "i64");
    let inline = InlineAssembly {
        assembly: "nop".to_string(),
        ty: types.pointer(),
        constraints: String::new(),
        has_side_effects: true,
        align_stack: false,
        dialect: AssemblyDialect::ATT,
    };
    assert_eq!(inline.get_type(&types).to_string(), "ptr");
}
