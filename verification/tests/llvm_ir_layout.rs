use intu::llvm_ir::module::{
    Alignment, Alignments, DataLayout, Endianness, FunctionPtrAlignment, PointerLayout,
};
use intu::llvm_ir::types::{FPType, Type, TypeRef, Types};
use std::collections::HashSet;

fn al(abi: u32, pref: u32) -> Alignment {
    Alignment { abi, pref }
}

fn sample() -> Alignments {
    Alignments::new(
        vec![(1, al(8, 8)), (8, al(8, 8)), (32, al(32, 32)), (64, al(32, 64))],
        vec![(64, al(64, 64)), (128, al(128, 128))],
        vec![(32, al(32, 32)), (64, al(64, 64))],
        al(0, 64),
        FunctionPtrAlignment { independent: true, abi: 8 },
        vec![
            (0, PointerLayout { size: 64, alignment: al(64, 64), index_size: 64 }),
            (3, PointerLayout { size: 32, alignment: al(32, 32), index_size: 32 }),
        ],
    )
}

#[test]
fn int_alignment_exact_next_larger_or_largest() {
    let a = sample();
    assert_eq!(*a.int_alignment(32), al(32, 32));
    assert_eq!(*a.int_alignment(16), al(32, 32));
    assert_eq!(*a.int_alignment(2), al(8, 8));
    assert_eq!(*a.int_alignment(128), al(32, 64));
}

#[test]
fn vec_alignment_exact_or_smallest() {
    let a = sample();
    assert_eq!(*a.vec_alignment(128), al(128, 128));
    assert_eq!(*a.vec_alignment(256), al(64, 64));
    assert_eq!(*a.vec_alignment(32), al(64, 64));
}

#[test]
fn fp_pointer_and_aggregate_alignments() {
    let a = sample();
    assert_eq!(*a.fp_alignment(FPType::Double), al(64, 64));
    assert_eq!(*a.fp_alignment(FPType::Single), al(32, 32));
    assert_eq!(a.ptr_alignment(3).size, 32);
    assert_eq!(a.ptr_alignment(7).size, 64);
    assert_eq!(*a.agg_alignment(), al(0, 64));
    assert_eq!(a.fptr_alignment().abi, 8);
    assert_eq!(Alignments::fpt_size(FPType::X86_FP80), 80);
    assert_eq!(Alignments::fpt_size(FPType::Half), 16);
}

#[test]
fn type_alignment_by_kind() {
    let a = sample();
    let types = Types::new();
    assert_eq!(*a.type_alignment(&Type::IntegerType { bits: 8 }), al(8, 8));
    let v = Type::VectorType { element_type: types.i32(), num_elements: 4, scalable: false };
    assert_eq!(*a.type_alignment(&v), al(128, 128));
    let fv = Type::VectorType { element_type: types.double(), num_elements: 2, scalable: false };
    assert_eq!(*a.type_alignment(&fv), al(128, 128));
    assert_eq!(*a.type_alignment(&Type::FPType(FPType::Single)), al(32, 32));
    let st = Type::StructType { element_types: vec![types.i64()], is_packed: false };
    assert_eq!(*a.type_alignment(&st), al(0, 64));
    let arr = Type::ArrayType { element_type: TypeRef::new(Type::VoidType), num_elements: 2 };
    assert_eq!(*a.type_alignment(&arr), al(0, 64));
    assert_eq!(*a.type_alignment(&Type::PointerType { addr_space: 3 }), al(32, 32));
}

fn layout(s: &str, endianness: Endianness) -> DataLayout {
    DataLayout {
        layout_str: s.to_string(),
        endianness,
        stack_alignment: None,
        program_address_space: 0,
        alloca_address_space: 0,
        alignments: sample(),
        mangling: None,
        native_int_widths: None,
        non_integral_ptr_types: HashSet::new(),
    }
}

#[test]
fn data_layouts_compare_by_string() {
    assert!(layout("e-m:e", Endianness::LittleEndian) == layout("e-m:e", Endianness::BigEndian));
    assert!(layout("e-m:e", Endianness::LittleEndian) != layout("E-m:e", Endianness::LittleEndian));
}
