use intu::llvm_ir::name::Name;
use intu::llvm_ir::types::{FPType, NamedStructDef, Type, TypeRef, Types};

#[test]
fn basic_types_print() {
    let types = Types::new();
    assert_eq!(types.void().to_string(), "void");
    assert_eq!(types.bool().to_string(), "i1");
    assert_eq!(types.i8().to_string(), "i8");
    assert_eq!(types.i16().to_string(), "i16");
    assert_eq!(types.i32().to_string(), "i32");
    assert_eq!(types.i64().to_string(), "i64");
    assert_eq!(types.int_type(7).to_string(), "i7");
    assert_eq!(types.pointer().to_string(), "ptr");
    assert_eq!(types.pointer_in_addr_space(3).to_string(), "ptr");
    assert_eq!(types.single().to_string(), "float");
    assert_eq!(types.double().to_string(), "double");
    assert_eq!(types.fp(FPType::X86_FP80).to_string(), "x86_fp80");
    assert_eq!(types.x86_mmx().to_string(), "x86_mmx");
    assert_eq!(types.x86_amx().to_string(), "x86_amx");
    assert_eq!(types.metadata_type().to_string(), "metadata");
    assert_eq!(types.label_type().to_string(), "label");
    assert_eq!(types.token_type().to_string(), "token");
    assert_eq!(types.target_ext_type().to_string(), "target()");
    assert_eq!(types.named_struct("pair").to_string(), "%pair");
}

#[test]
fn aggregate_types_print() {
    let types = Types::new();
    let f = types.func_type(types.i64(), vec![types.i32(), types.pointer()], false);
    assert_eq!(f.to_string(), "i64 (i32, ptr)");
    let g = types.func_type(types.void(), vec![types.i8()], true);
    assert_eq!(g.to_string(), "void (i8, ...)");
    let h = types.func_type(types.void(), vec![], false);
    assert_eq!(h.to_string(), "void ()");
    assert_eq!(types.vector_of(types.i32(), 4, false).to_string(), "<4 x i32>");
    assert_eq!(types.vector_of(types.double(), 2, true).to_string(), "<vscale x 2 x double>");
    assert_eq!(types.array_of(types.i8(), 16).to_string(), "[16 x i8]");
    assert_eq!(types.struct_of(vec![types.i64(), types.bool()], false).to_string(), "{ i64, i1 }");
    assert_eq!(types.struct_of(vec![types.i64()], true).to_string(), "<{ i64 }>");
    assert_eq!(types.struct_of(vec![], false).to_string(), "{  }");
}

#[test]
fn get_for_type_gives_equal_type() {
    let types = Types::new();
    let t = Type::StructType {
        element_types: vec![types.i64(), types.array_of(types.double(), 3)],
        is_packed: false,
    };
    let r = types.get_for_type(&t);
    assert_eq!(*r.as_ref(), t);
    assert_eq!(types.type_of(&t), r);
    assert_eq!(types.type_of(&FPType::Half), types.fp(FPType::Half));
    assert_eq!(types.type_of(&r), r);
    assert_eq!(Type::from(FPType::Double), Type::FPType(FPType::Double));
}

#[test]
fn named_struct_definitions() {
    let mut types = Types::new();
    assert!(types.named_struct_def("node").is_none());
    types.add_named_struct_def("node".to_string(), NamedStructDef::Opaque);
    let body = TypeRef::new(Type::StructType { element_types: vec![types.i64()], is_packed: false });
    types.add_named_struct_def("cell".to_string(), NamedStructDef::Defined(body));
    assert!(matches!(types.named_struct_def("node"), Some(NamedStructDef::Opaque)));
    match types.named_struct_def("cell") {
        Some(NamedStructDef::Defined(t)) => assert_eq!(t.to_string(), "{ i64 }"),
        _ => panic!("cell should be defined"),
    }
    let mut names = types.all_struct_names();
    names.sort();
    assert_eq!(names, vec!["cell".to_string(), "node".to_string()]);
    assert!(types.remove_named_struct_def("node"));
    assert!(!types.remove_named_struct_def("node"));
    assert!(types.named_struct_def("node").is_none());
    assert_eq!(types.all_struct_names(), vec!["cell".to_string()]);
}

#[test]
fn names_print_and_number() {
    assert_eq!(Name::Name(Box::new("x".to_string())).to_string(), "%x");
    assert_eq!(Name::Number(12).to_string(), "%12");
    let mut ctr = 5usize;
    assert_eq!(Name::name_or_num(String::new(), &mut ctr), Name::Number(5));
    assert_eq!(ctr, 6);
    assert_eq!(Name::name_or_num("v".to_string(), &mut ctr), Name::Name(Box::new("v".to_string())));
    assert_eq!(ctr, 6);
}
