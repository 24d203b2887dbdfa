//! LLVM types, their textual form, and the table of named structures.
use vstd::prelude::*;
use crate::gensym::{decimal, decimal_string};
use crate::llvm_ir::module::AddrSpace;

verus! {

broadcast use vstd::string::group_string_axioms;

/// A floating-point format.
#[allow(non_camel_case_types)]
#[derive(PartialEq, Eq, Clone, Copy, Debug, Hash, Structural)]
pub enum FPType {
    Half,
    BFloat,
    Single,
    Double,
    FP128,
    X86_FP80,
    PPC_FP128,
}

/// An LLVM type.
#[allow(non_camel_case_types)]
#[derive(PartialEq, Eq, Debug, Hash)]
pub enum Type {
    VoidType,
    IntegerType { bits: u32 },
    PointerType { addr_space: AddrSpace },
    FPType(FPType),
    FuncType { result_type: TypeRef, param_types: Vec<TypeRef>, is_var_arg: bool },
    VectorType { element_type: TypeRef, num_elements: usize, scalable: bool },
    ArrayType { element_type: TypeRef, num_elements: usize },
    StructType { element_types: Vec<TypeRef>, is_packed: bool },
    NamedStructType { name: String },
    X86_MMXType,
    X86_AMXType,
    MetadataType,
    LabelType,
    TokenType,
    TargetExtType,
}

/// A reference to a type.
#[derive(PartialEq, Eq, Debug, Hash)]
pub struct TypeRef(pub Box<Type>);

/// Mathematical model of [`Type`].
#[allow(non_camel_case_types)]
pub enum TypeV {
    VoidType,
    IntegerType { bits: u32 },
    PointerType { addr_space: AddrSpace },
    FPType(FPType),
    FuncType { result_type: Box<TypeV>, param_types: Seq<TypeV>, is_var_arg: bool },
    VectorType { element_type: Box<TypeV>, num_elements: usize, scalable: bool },
    ArrayType { element_type: Box<TypeV>, num_elements: usize },
    StructType { element_types: Seq<TypeV>, is_packed: bool },
    NamedStructType { name: Seq<char> },
    X86_MMXType,
    X86_AMXType,
    MetadataType,
    LabelType,
    TokenType,
    TargetExtType,
}

impl Type {
    pub open spec fn model(self) -> TypeV
        decreases self,
    {
        match self {
            Type::VoidType => TypeV::VoidType,
            Type::IntegerType { bits } => TypeV::IntegerType { bits },
            Type::PointerType { addr_space } => TypeV::PointerType { addr_space },
            Type::FPType(f) => TypeV::FPType(f),
            Type::FuncType { result_type, param_types, is_var_arg } => TypeV::FuncType {
                result_type: Box::new((*result_type.0).model()),
                param_types: Seq::new(
                    param_types.len() as nat,
                    |i: int|
                        if 0 <= i < param_types.len() {
                            (*param_types[i].0).model()
                        } else {
                            TypeV::VoidType
                        },
                ),
                is_var_arg,
            },
            Type::VectorType { element_type, num_elements, scalable } => TypeV::VectorType {
                element_type: Box::new((*element_type.0).model()),
                num_elements,
                scalable,
            },
            Type::ArrayType { element_type, num_elements } => TypeV::ArrayType {
                element_type: Box::new((*element_type.0).model()),
                num_elements,
            },
            Type::StructType { element_types, is_packed } => TypeV::StructType {
                element_types: Seq::new(
                    element_types.len() as nat,
                    |i: int|
                        if 0 <= i < element_types.len() {
                            (*element_types[i].0).model()
                        } else {
                            TypeV::VoidType
                        },
                ),
                is_packed,
            },
            Type::NamedStructType { name } => TypeV::NamedStructType { name: name@ },
            Type::X86_MMXType => TypeV::X86_MMXType,
            Type::X86_AMXType => TypeV::X86_AMXType,
            Type::MetadataType => TypeV::MetadataType,
            Type::LabelType => TypeV::LabelType,
            Type::TokenType => TypeV::TokenType,
            Type::TargetExtType => TypeV::TargetExtType,
        }
    }
}

impl View for Type {
    type V = TypeV;

    open spec fn view(&self) -> TypeV {
        self.model()
    }
}

impl View for TypeRef {
    type V = TypeV;

    open spec fn view(&self) -> TypeV {
        (*self.0).model()
    }
}

/// The models of a sequence of type references.
pub open spec fn type_refs_model(ts: Seq<TypeRef>) -> Seq<TypeV> {
    Seq::new(ts.len(), |i: int| ts[i]@)
}

impl TypeRef {
    /// A reference to `ty`.
    pub fn new(ty: Type) -> (r: Self)
        ensures
            r@ == ty@,
    {
        TypeRef(Box::new(ty))
    }

    /// The type referred to.
    pub fn as_ref(&self) -> (t: &Type)
        ensures
            t@ == self@,
    {
        &*self.0
    }

    /// The textual form of the type referred to.
    pub fn to_string(&self) -> (s: String)
        ensures
            s@ == show_type(self@),
        decreases self,
    {
        self.0.to_string()
    }
}

/// Copies of a list of type references.
fn clone_type_refs(ts: &Vec<TypeRef>) -> (r: Vec<TypeRef>)
    ensures
        type_refs_model(r@) == type_refs_model(ts@),
    decreases ts@,
{
    let mut out: Vec<TypeRef> = Vec::new();
    let mut i: usize = 0;
    while i < ts.len()
        invariant
            i <= ts.len(),
            out.len() == i,
            forall|j: int| 0 <= j < i ==> #[trigger] out@[j]@ == ts@[j]@,
        decreases ts.len() - i,
    {
        assert(decreases_to!(ts@ => ts@[i as int]));
        out.push(ts[i].clone());
        i += 1;
    }
    assert(type_refs_model(out@) =~= type_refs_model(ts@));
    out
}

impl Clone for TypeRef {
    fn clone(&self) -> (r: Self)
        ensures
            r@ == self@,
        decreases self,
    {
        TypeRef(Box::new((*self.0).clone()))
    }
}

impl Clone for Type {
    fn clone(&self) -> (r: Self)
        ensures
            r@ == self@,
        decreases self,
    {
        match self {
            Type::VoidType => Type::VoidType,
            Type::IntegerType { bits } => Type::IntegerType { bits: *bits },
            Type::PointerType { addr_space } => Type::PointerType { addr_space: *addr_space },
            Type::FPType(f) => Type::FPType(*f),
            Type::FuncType { result_type, param_types, is_var_arg } => {
                let ps = clone_type_refs(param_types);
                assert(type_refs_model(ps@) =~= self@->FuncType_param_types);
                let r = Type::FuncType {
                    result_type: result_type.clone(),
                    param_types: ps,
                    is_var_arg: *is_var_arg,
                };
                assert(r@->FuncType_param_types =~= self@->FuncType_param_types);
                r
            },
            Type::VectorType { element_type, num_elements, scalable } => Type::VectorType {
                element_type: element_type.clone(),
                num_elements: *num_elements,
                scalable: *scalable,
            },
            Type::ArrayType { element_type, num_elements } => Type::ArrayType {
                element_type: element_type.clone(),
                num_elements: *num_elements,
            },
            Type::StructType { element_types, is_packed } => {
                let es = clone_type_refs(element_types);
                assert(type_refs_model(es@) =~= self@->StructType_element_types);
                let r = Type::StructType { element_types: es, is_packed: *is_packed };
                assert(r@->StructType_element_types =~= self@->StructType_element_types);
                r
            },
            Type::NamedStructType { name } => Type::NamedStructType { name: name.clone() },
            Type::X86_MMXType => Type::X86_MMXType,
            Type::X86_AMXType => Type::X86_AMXType,
            Type::MetadataType => Type::MetadataType,
            Type::LabelType => Type::LabelType,
            Type::TokenType => Type::TokenType,
            Type::TargetExtType => Type::TargetExtType,
        }
    }
}

/// The textual form of a floating-point format.
pub open spec fn show_fp_type(f: FPType) -> Seq<char> {
    match f {
        FPType::Half => "half"@,
        FPType::BFloat => "bfloat"@,
        FPType::Single => "float"@,
        FPType::Double => "double"@,
        FPType::FP128 => "fp128"@,
        FPType::X86_FP80 => "x86_fp80"@,
        FPType::PPC_FP128 => "ppc_fp128"@,
    }
}

/// The textual form of a type, as LLVM assembly writes it.
pub open spec fn show_type(t: TypeV) -> Seq<char>
    decreases t,
{
    match t {
        TypeV::VoidType => "void"@,
        TypeV::IntegerType { bits } => "i"@ + decimal(bits as nat),
        TypeV::PointerType { .. } => "ptr"@,
        TypeV::FPType(f) => show_fp_type(f),
        TypeV::FuncType { result_type, param_types, is_var_arg } => show_type(*result_type) + " ("@
            + show_type_list(param_types) + (if is_var_arg {
            ", ..."@
        } else {
            ""@
        }) + ")"@,
        TypeV::VectorType { element_type, num_elements, scalable } => if scalable {
            "<vscale x "@ + decimal(num_elements as nat) + " x "@ + show_type(*element_type) + ">"@
        } else {
            "<"@ + decimal(num_elements as nat) + " x "@ + show_type(*element_type) + ">"@
        },
        TypeV::ArrayType { element_type, num_elements } => "["@ + decimal(num_elements as nat)
            + " x "@ + show_type(*element_type) + "]"@,
        TypeV::StructType { element_types, is_packed } => (if is_packed {
            "<"@
        } else {
            ""@
        }) + "{ "@ + show_type_list(element_types) + " }"@ + (if is_packed {
            ">"@
        } else {
            ""@
        }),
        TypeV::NamedStructType { name } => "%"@ + name,
        TypeV::X86_MMXType => "x86_mmx"@,
        TypeV::X86_AMXType => "x86_amx"@,
        TypeV::MetadataType => "metadata"@,
        TypeV::LabelType => "label"@,
        TypeV::TokenType => "token"@,
        TypeV::TargetExtType => "target()"@,
    }
}

/// The textual forms of the types, separated by `, `.
pub open spec fn show_type_list(ts: Seq<TypeV>) -> Seq<char>
    decreases ts,
{
    if ts.len() == 0 {
        ""@
    } else if ts.len() == 1 {
        show_type(ts[0])
    } else {
        show_type(ts[0]) + ", "@ + show_type_list(ts.subrange(1, ts.len() as int))
    }
}

impl FPType {
    /// The textual form of the format.
    pub fn to_string(&self) -> (s: String)
        ensures
            s@ == show_fp_type(*self),
    {
        match self {
            FPType::Half => "half".to_string(),
            FPType::BFloat => "bfloat".to_string(),
            FPType::Single => "float".to_string(),
            FPType::Double => "double".to_string(),
            FPType::FP128 => "fp128".to_string(),
            FPType::X86_FP80 => "x86_fp80".to_string(),
            FPType::PPC_FP128 => "ppc_fp128".to_string(),
        }
    }
}

/// Appends the textual forms of the types, separated by `, `.
fn append_type_list(s: &mut String, ts: &Vec<TypeRef>)
    ensures
        final(s)@ == old(s)@ + show_type_list(type_refs_model(ts@)),
    decreases ts@,
{
    proof {
        reveal_strlit("");
    }
    let ghost tv = type_refs_model(ts@);
    let ghost s0 = s@;
    let mut i: usize = 0;
    assert(tv.subrange(0, tv.len() as int) =~= tv);
    assert(s0 + show_type_list(tv) =~= s@ + show_type_list(tv));
    while i < ts.len()
        invariant
            i <= ts.len(),
            tv == type_refs_model(ts@),
            tv.len() == ts.len(),
            s0 + show_type_list(tv) == s@ + show_type_list(tv.subrange(i as int, tv.len() as int)),
        decreases ts.len() - i,
    {
        let ghost rest = tv.subrange(i as int, tv.len() as int);
        let ghost rest1 = tv.subrange(i + 1, tv.len() as int);
        assert(rest[0] == ts@[i as int]@);
        assert(rest.subrange(1, rest.len() as int) =~= rest1);
        assert(decreases_to!(ts@ => ts@[i as int]));
        let item = ts[i].to_string();
        let ghost before = s@;
        s.append(item.as_str());
        if i + 1 < ts.len() {
            s.append(", ");
            assert(show_type_list(rest) == show_type_list(seq![rest[0]]) + ", "@ + show_type_list(
                rest1,
            ));
            assert(before + show_type_list(rest) =~= s@ + show_type_list(rest1));
        } else {
            assert(rest.len() == 1);
            assert(rest1 =~= Seq::<TypeV>::empty());
            assert(show_type_list(rest) == show_type(rest[0]));
            assert(show_type_list(rest1) == ""@);
            proof { reveal_strlit(""); }
            assert(""@ =~= Seq::<char>::empty());
            assert(s@ =~= before + show_type(rest[0]));
            assert(before + show_type_list(rest) =~= s@ + show_type_list(rest1));
        }
        i += 1;
    }
    assert(tv.subrange(tv.len() as int, tv.len() as int) =~= Seq::<TypeV>::empty());
    assert(s@ + show_type_list(Seq::<TypeV>::empty()) =~= s@);
}

impl Type {
    /// The textual form of the type, as LLVM assembly writes it.
    pub fn to_string(&self) -> (s: String)
        ensures
            s@ == show_type(self@),
        decreases self,
    {
        proof {
            reveal_strlit("");
        }
        match self {
            Type::VoidType => "void".to_string(),
            Type::IntegerType { bits } => {
                let mut s = "i".to_string();
                s.append(decimal_string(*bits as u64).as_str());
                s
            },
            Type::PointerType { .. } => "ptr".to_string(),
            Type::FPType(f) => f.to_string(),
            Type::FuncType { result_type, param_types, is_var_arg } => {
                let mut s = result_type.to_string();
                s.append(" (");
                append_type_list(&mut s, param_types);
                if *is_var_arg {
                    s.append(", ...");
                }
                s.append(")");
                proof {
                    assert(self@->FuncType_param_types =~= type_refs_model(param_types@));
                }
                s
            },
            Type::VectorType { element_type, num_elements, scalable } => {
                let mut s = if *scalable {
                    "<vscale x ".to_string()
                } else {
                    "<".to_string()
                };
                s.append(decimal_string(*num_elements as u64).as_str());
                s.append(" x ");
                s.append(element_type.to_string().as_str());
                s.append(">");
                s
            },
            Type::ArrayType { element_type, num_elements } => {
                let mut s = "[".to_string();
                s.append(decimal_string(*num_elements as u64).as_str());
                s.append(" x ");
                s.append(element_type.to_string().as_str());
                s.append("]");
                s
            },
            Type::StructType { element_types, is_packed } => {
                let mut s = String::new();
                if *is_packed {
                    s.append("<");
                }
                s.append("{ ");
                append_type_list(&mut s, element_types);
                s.append(" }");
                if *is_packed {
                    s.append(">");
                }
                proof {
                    assert(self@->StructType_element_types =~= type_refs_model(element_types@));
                }
                s
            },
            Type::NamedStructType { name } => {
                let mut s = "%".to_string();
                s.append(name.as_str());
                s
            },
            Type::X86_MMXType => "x86_mmx".to_string(),
            Type::X86_AMXType => "x86_amx".to_string(),
            Type::MetadataType => "metadata".to_string(),
            Type::LabelType => "label".to_string(),
            Type::TokenType => "token".to_string(),
            Type::TargetExtType => "target()".to_string(),
        }
    }
}

/// Something that has an LLVM type.
pub trait Typed {
    /// Whether its type can be computed: where it cannot, computing it
    /// panics.
    spec fn typed_ok(&self) -> bool;

    /// The type it has.
    spec fn typed_view(&self) -> TypeV;

    /// A reference to its type.
    fn get_type(&self, types: &Types) -> (t: TypeRef)
        requires
            self.typed_ok(),
        ensures
            t@ == self.typed_view(),
    ;
}

impl Typed for TypeRef {
    open spec fn typed_ok(&self) -> bool {
        true
    }

    open spec fn typed_view(&self) -> TypeV {
        self@
    }

    fn get_type(&self, _types: &Types) -> (t: TypeRef) {
        self.clone()
    }
}

impl Typed for Type {
    open spec fn typed_ok(&self) -> bool {
        true
    }

    open spec fn typed_view(&self) -> TypeV {
        self@
    }

    fn get_type(&self, types: &Types) -> (t: TypeRef) {
        types.get_for_type(self)
    }
}

impl Typed for FPType {
    open spec fn typed_ok(&self) -> bool {
        true
    }

    open spec fn typed_view(&self) -> TypeV {
        TypeV::FPType(*self)
    }

    fn get_type(&self, types: &Types) -> (t: TypeRef) {
        types.fp(*self)
    }
}

/// A value of one of two types, such as the callee of a call: inline
/// assembly or a function value.
#[derive(PartialEq, Eq, Clone, Debug, Hash)]
pub enum Either<L, R> {
    Left(L),
    Right(R),
}

impl<A: Typed, B: Typed> Typed for Either<A, B> {
    open spec fn typed_ok(&self) -> bool {
        match self {
            Either::Left(x) => x.typed_ok(),
            Either::Right(y) => y.typed_ok(),
        }
    }

    open spec fn typed_view(&self) -> TypeV {
        match self {
            Either::Left(x) => x.typed_view(),
            Either::Right(y) => y.typed_view(),
        }
    }

    fn get_type(&self, types: &Types) -> (t: TypeRef) {
        match self {
            Either::Left(x) => types.type_of(x),
            Either::Right(y) => types.type_of(y),
        }
    }
}

/// The definition of a named structure: opaque, or a type.
#[derive(Debug, Hash)]
pub enum NamedStructDef {
    Opaque,
    Defined(TypeRef),
}

/// Mathematical model of [`NamedStructDef`].
pub enum NamedStructDefV {
    Opaque,
    Defined(TypeV),
}

impl View for NamedStructDef {
    type V = NamedStructDefV;

    open spec fn view(&self) -> NamedStructDefV {
        match self {
            NamedStructDef::Opaque => NamedStructDefV::Opaque,
            NamedStructDef::Defined(t) => NamedStructDefV::Defined(t@),
        }
    }
}

impl Clone for NamedStructDef {
    fn clone(&self) -> (r: Self)
        ensures
            r@ == self@,
    {
        match self {
            NamedStructDef::Opaque => NamedStructDef::Opaque,
            NamedStructDef::Defined(t) => NamedStructDef::Defined(t.clone()),
        }
    }
}

/// The map that a list of (name, definition) entries denotes.
pub open spec fn defs_map(s: Seq<(String, NamedStructDef)>) -> Map<Seq<char>, NamedStructDefV>
    decreases s.len(),
{
    if s.len() == 0 {
        Map::empty()
    } else {
        defs_map(s.drop_last()).insert(s.last().0@, s.last().1@)
    }
}

/// No name occurs in two entries.
pub open spec fn names_distinct(s: Seq<(String, NamedStructDef)>) -> bool {
    forall|i: int, j: int| 0 <= i < j < s.len() ==> s[i].0@ != s[j].0@
}

proof fn lemma_defs_map(s: Seq<(String, NamedStructDef)>)
    requires
        names_distinct(s),
    ensures
        forall|k: Seq<char>|
            #[trigger] defs_map(s).contains_key(k) <==> exists|i: int| 0 <= i < s.len() && s[i].0@ == k,
        forall|i: int| 0 <= i < s.len() ==> #[trigger] defs_map(s)[s[i].0@] == s[i].1@,
    decreases s.len(),
{
    if s.len() > 0 {
        let p = s.drop_last();
        lemma_defs_map(p);
        assert forall|k: Seq<char>|
            #[trigger] defs_map(s).contains_key(k) <==> exists|i: int| 0 <= i < s.len() && s[i].0@ == k by {
            if exists|i: int| 0 <= i < s.len() && s[i].0@ == k {
                let i = choose|i: int| 0 <= i < s.len() && s[i].0@ == k;
                if i < s.len() - 1 {
                    assert(p[i].0@ == k);
                }
            }
            if defs_map(p).contains_key(k) {
                let i = choose|i: int| 0 <= i < p.len() && p[i].0@ == k;
                assert(s[i].0@ == k);
            }
        }
        assert forall|i: int| 0 <= i < s.len() implies #[trigger] defs_map(s)[s[i].0@] == s[i].1@ by {
            if i < s.len() - 1 {
                assert(p[i] == s[i]);
                assert(s[i].0@ != s.last().0@);
                assert(defs_map(p)[p[i].0@] == p[i].1@);
            } else {
                assert(s[i] == s.last());
            }
        }
    }
}

/// The table of types: the definitions of the named structures.
pub struct Types {
    named_struct_defs: Vec<(String, NamedStructDef)>,
}

impl View for Types {
    type V = Map<Seq<char>, NamedStructDefV>;

    closed spec fn view(&self) -> Map<Seq<char>, NamedStructDefV> {
        defs_map(self.named_struct_defs@)
    }
}

impl Types {
    #[verifier::type_invariant]
    closed spec fn names_unique(self) -> bool {
        names_distinct(self.named_struct_defs@)
    }

    /// A table without named structures.
    pub fn new() -> (t: Self)
        ensures
            t@ == Map::<Seq<char>, NamedStructDefV>::empty(),
    {
        Types { named_struct_defs: Vec::new() }
    }

    /// The type of `t`.
    pub fn type_of<T: Typed>(&self, t: &T) -> (r: TypeRef)
        requires
            t.typed_ok(),
        ensures
            r@ == t.typed_view(),
    {
        t.get_type(self)
    }

    pub fn void(&self) -> (t: TypeRef)
        ensures
            t@ == TypeV::VoidType,
    {
        TypeRef::new(Type::VoidType)
    }

    /// The integer type of `bits` bits.
    pub fn int_type(&self, bits: u32) -> (t: TypeRef)
        ensures
            t@ == (TypeV::IntegerType { bits }),
    {
        TypeRef::new(Type::IntegerType { bits })
    }

    pub fn bool(&self) -> (t: TypeRef)
        ensures
            t@ == (TypeV::IntegerType { bits: 1 }),
    {
        self.int_type(1)
    }

    pub fn i8(&self) -> (t: TypeRef)
        ensures
            t@ == (TypeV::IntegerType { bits: 8 }),
    {
        self.int_type(8)
    }

    pub fn i16(&self) -> (t: TypeRef)
        ensures
            t@ == (TypeV::IntegerType { bits: 16 }),
    {
        self.int_type(16)
    }

    pub fn i32(&self) -> (t: TypeRef)
        ensures
            t@ == (TypeV::IntegerType { bits: 32 }),
    {
        self.int_type(32)
    }

    pub fn i64(&self) -> (t: TypeRef)
        ensures
            t@ == (TypeV::IntegerType { bits: 64 }),
    {
        self.int_type(64)
    }

    /// The pointer type of address space 0.
    pub fn pointer(&self) -> (t: TypeRef)
        ensures
            t@ == (TypeV::PointerType { addr_space: 0 }),
    {
        self.pointer_in_addr_space(0)
    }

    pub fn pointer_in_addr_space(&self, addr_space: AddrSpace) -> (t: TypeRef)
        ensures
            t@ == (TypeV::PointerType { addr_space }),
    {
        TypeRef::new(Type::PointerType { addr_space })
    }

    pub fn fp(&self, fpt: FPType) -> (t: TypeRef)
        ensures
            t@ == TypeV::FPType(fpt),
    {
        TypeRef::new(Type::FPType(fpt))
    }

    pub fn single(&self) -> (t: TypeRef)
        ensures
            t@ == TypeV::FPType(FPType::Single),
    {
        self.fp(FPType::Single)
    }

    pub fn double(&self) -> (t: TypeRef)
        ensures
            t@ == TypeV::FPType(FPType::Double),
    {
        self.fp(FPType::Double)
    }

    /// The type of functions from `param_types` to `result_type`.
    pub fn func_type(&self, result_type: TypeRef, param_types: Vec<TypeRef>, is_var_arg: bool) -> (t:
        TypeRef)
        ensures
            t@ == (TypeV::FuncType {
                result_type: Box::new(result_type@),
                param_types: type_refs_model(param_types@),
                is_var_arg,
            }),
    {
        let ghost ps = type_refs_model(param_types@);
        let t = TypeRef::new(Type::FuncType { result_type, param_types, is_var_arg });
        assert(t@->FuncType_param_types =~= ps);
        t
    }

    pub fn vector_of(&self, element_type: TypeRef, num_elements: usize, scalable: bool) -> (t: TypeRef)
        ensures
            t@ == (TypeV::VectorType {
                element_type: Box::new(element_type@),
                num_elements,
                scalable,
            }),
    {
        TypeRef::new(Type::VectorType { element_type, num_elements, scalable })
    }

    pub fn array_of(&self, element_type: TypeRef, num_elements: usize) -> (t: TypeRef)
        ensures
            t@ == (TypeV::ArrayType { element_type: Box::new(element_type@), num_elements }),
    {
        TypeRef::new(Type::ArrayType { element_type, num_elements })
    }

    pub fn struct_of(&self, element_types: Vec<TypeRef>, is_packed: bool) -> (t: TypeRef)
        ensures
            t@ == (TypeV::StructType { element_types: type_refs_model(element_types@), is_packed }),
    {
        let ghost es = type_refs_model(element_types@);
        let t = TypeRef::new(Type::StructType { element_types, is_packed });
        assert(t@->StructType_element_types =~= es);
        t
    }

    /// The named structure type `%name`.
    pub fn named_struct(&self, name: &str) -> (t: TypeRef)
        ensures
            t@ == (TypeV::NamedStructType { name: name@ }),
    {
        TypeRef::new(Type::NamedStructType { name: name.to_string() })
    }

    /// The definition of the named structure `name`, if it has one.
    pub fn named_struct_def(&self, name: &str) -> (r: Option<&NamedStructDef>)
        ensures
            r is Some <==> self@.contains_key(name@),
            r matches Some(d) ==> d@ == self@[name@],
    {
        proof {
            use_type_invariant(self);
            lemma_defs_map(self.named_struct_defs@);
        }
        let key = name.to_string();
        let mut i: usize = 0;
        while i < self.named_struct_defs.len()
            invariant
                i <= self.named_struct_defs.len(),
                key@ == name@,
                names_distinct(self.named_struct_defs@),
                forall|j: int| 0 <= j < i ==> self.named_struct_defs@[j].0@ != name@,
            decreases self.named_struct_defs.len() - i,
        {
            if self.named_struct_defs[i].0.eq(&key) {
                proof {
                    lemma_defs_map(self.named_struct_defs@);
                }
                return Some(&self.named_struct_defs[i].1);
            }
            i += 1;
        }
        None
    }

    /// The names of all named structures, each once.
    pub fn all_struct_names(&self) -> (r: Vec<String>)
        ensures
            forall|k: Seq<char>|
                self@.contains_key(k) <==> exists|i: int| 0 <= i < r@.len() && #[trigger] r@[i]@ == k,
            forall|i: int, j: int| 0 <= i < j < r@.len() ==> r@[i]@ != r@[j]@,
    {
        proof {
            use_type_invariant(self);
            lemma_defs_map(self.named_struct_defs@);
        }
        let mut out: Vec<String> = Vec::new();
        let mut i: usize = 0;
        while i < self.named_struct_defs.len()
            invariant
                names_distinct(self.named_struct_defs@),
                i <= self.named_struct_defs.len(),
                out.len() == i,
                forall|j: int| 0 <= j < i ==> #[trigger] out@[j]@ == self.named_struct_defs@[j].0@,
            decreases self.named_struct_defs.len() - i,
        {
            out.push(self.named_struct_defs[i].0.clone());
            i += 1;
        }
        proof {
            assert forall|k: Seq<char>|
                self@.contains_key(k) <==> exists|i: int| 0 <= i < out@.len() && #[trigger] out@[i]@ == k by {
                if self@.contains_key(k) {
                    let i = choose|i: int|
                        0 <= i < self.named_struct_defs@.len() && self.named_struct_defs@[i].0@ == k;
                    assert(out@[i]@ == k);
                }
                if exists|i: int| 0 <= i < out@.len() && #[trigger] out@[i]@ == k {
                    let i = choose|i: int| 0 <= i < out@.len() && #[trigger] out@[i]@ == k;
                    assert(self.named_struct_defs@[i].0@ == k);
                }
            }
        }
        out
    }

    /// Defines the named structure `name`.  Defining a name twice is an
    /// error that `requires` rules out.
    pub fn add_named_struct_def(&mut self, name: String, def: NamedStructDef)
        requires
            !old(self)@.contains_key(name@),
        ensures
            final(self)@ == old(self)@.insert(name@, def@),
    {
        proof {
            use_type_invariant(&*self);
            lemma_defs_map(self.named_struct_defs@);
        }
        let ghost before = self.named_struct_defs@;
        let ghost entry = (name, def);
        proof {
            assert forall|i: int| 0 <= i < before.len() implies before[i].0@ != name@ by {
                if before[i].0@ == name@ {
                    assert(defs_map(before).contains_key(name@));
                }
            }
        }
        let mut defs = Vec::new();
        std::mem::swap(&mut defs, &mut self.named_struct_defs);
        defs.push((name, def));
        assert(defs@.drop_last() == before);
        self.named_struct_defs = defs;
    }

    /// Removes the definition of the named structure `name`; whether there
    /// was one.
    pub fn remove_named_struct_def(&mut self, name: &str) -> (r: bool)
        ensures
            r == old(self)@.contains_key(name@),
            final(self)@ == old(self)@.remove(name@),
    {
        proof {
            use_type_invariant(&*self);
            lemma_defs_map(self.named_struct_defs@);
        }
        let ghost before = self.named_struct_defs@;
        let key = name.to_string();
        let mut i: usize = 0;
        while i < self.named_struct_defs.len()
            invariant
                i <= self.named_struct_defs.len(),
                self.named_struct_defs@ == before,
                before == old(self).named_struct_defs@,
                names_distinct(before),
                forall|k: Seq<char>|
                    #[trigger] defs_map(before).contains_key(k) <==> exists|j: int|
                        0 <= j < before.len() && before[j].0@ == k,
                forall|j: int| 0 <= j < before.len() ==> #[trigger] defs_map(before)[before[j].0@] == before[j].1@,
                key@ == name@,
                forall|j: int| 0 <= j < i ==> self.named_struct_defs@[j].0@ != name@,
            decreases self.named_struct_defs.len() - i,
        {
            if self.named_struct_defs[i].0.eq(&key) {
                let mut defs = Vec::new();
                std::mem::swap(&mut defs, &mut self.named_struct_defs);
                defs.remove(i);
                let ghost after = defs@;
                proof {
                    assert(after =~= before.remove(i as int));
                    assert(names_distinct(after)) by {
                        assert forall|a: int, b: int| 0 <= a < b < after.len() implies after[a].0@
                            != after[b].0@ by {
                            let a1 = if a < i { a } else { a + 1 };
                            let b1 = if b < i { b } else { b + 1 };
                            assert(after[a] == before[a1] && after[b] == before[b1]);
                        }
                    }
                    lemma_defs_map(after);
                    assert(defs_map(after) =~= defs_map(before).remove(name@)) by {
                        assert forall|k: Seq<char>| #[trigger]
                            defs_map(after).contains_key(k) <==> defs_map(before).remove(
                                name@,
                            ).contains_key(k) by {
                            if defs_map(after).contains_key(k) {
                                let a = choose|a: int| 0 <= a < after.len() && after[a].0@ == k;
                                let a1 = if a < i { a } else { a + 1 };
                                assert(before[a1].0@ == k);
                                assert(k != name@);
                            }
                            if defs_map(before).remove(name@).contains_key(k) {
                                let b = choose|b: int| 0 <= b < before.len() && before[b].0@ == k;
                                assert(b != i);
                                let a = if b < i { b } else { b - 1 };
                                assert(after[a].0@ == k);
                            }
                        }
                        assert forall|k: Seq<char>| #[trigger]
                            defs_map(after).contains_key(k) implies defs_map(after)[k] == defs_map(
                            before,
                        )[k] by {
                            let a = choose|a: int| 0 <= a < after.len() && after[a].0@ == k;
                            let a1 = if a < i { a } else { a + 1 };
                            assert(after[a] == before[a1]);
                        }
                    }
                }
                self.named_struct_defs = defs;
                assert(before[i as int].0@ == name@);
                assert(defs_map(before).contains_key(name@));
                return true;
            }
            i += 1;
        }
        proof {
            assert(!defs_map(before).contains_key(name@));
            assert(defs_map(before).remove(name@) =~= defs_map(before));
        }
        false
    }

    pub fn x86_mmx(&self) -> (t: TypeRef)
        ensures
            t@ == TypeV::X86_MMXType,
    {
        TypeRef::new(Type::X86_MMXType)
    }

    pub fn x86_amx(&self) -> (t: TypeRef)
        ensures
            t@ == TypeV::X86_AMXType,
    {
        TypeRef::new(Type::X86_AMXType)
    }

    pub fn metadata_type(&self) -> (t: TypeRef)
        ensures
            t@ == TypeV::MetadataType,
    {
        TypeRef::new(Type::MetadataType)
    }

    pub fn label_type(&self) -> (t: TypeRef)
        ensures
            t@ == TypeV::LabelType,
    {
        TypeRef::new(Type::LabelType)
    }

    pub fn token_type(&self) -> (t: TypeRef)
        ensures
            t@ == TypeV::TokenType,
    {
        TypeRef::new(Type::TokenType)
    }

    pub fn target_ext_type(&self) -> (t: TypeRef)
        ensures
            t@ == TypeV::TargetExtType,
    {
        TypeRef::new(Type::TargetExtType)
    }

    /// A reference to a type equal to `ty`.
    pub fn get_for_type(&self, ty: &Type) -> (t: TypeRef)
        ensures
            t@ == ty@,
    {
        match ty {
            Type::VoidType => self.void(),
            Type::IntegerType { bits } => self.int_type(*bits),
            Type::PointerType { addr_space } => self.pointer_in_addr_space(*addr_space),
            Type::FPType(fpt) => self.fp(*fpt),
            Type::FuncType { result_type, param_types, is_var_arg } => {
                let ps = clone_type_refs(param_types);
                let t = self.func_type(result_type.clone(), ps, *is_var_arg);
                assert(t@->FuncType_param_types =~= ty@->FuncType_param_types);
                t
            },
            Type::VectorType { element_type, num_elements, scalable } => {
                self.vector_of(element_type.clone(), *num_elements, *scalable)
            },
            Type::ArrayType { element_type, num_elements } => {
                self.array_of(element_type.clone(), *num_elements)
            },
            Type::StructType { element_types, is_packed } => {
                let es = clone_type_refs(element_types);
                let t = self.struct_of(es, *is_packed);
                assert(t@->StructType_element_types =~= ty@->StructType_element_types);
                t
            },
            Type::NamedStructType { name } => self.named_struct(name.as_str()),
            Type::X86_MMXType => self.x86_mmx(),
            Type::X86_AMXType => self.x86_amx(),
            Type::MetadataType => self.metadata_type(),
            Type::LabelType => self.label_type(),
            Type::TokenType => self.token_type(),
            Type::TargetExtType => self.target_ext_type(),
        }
    }
}

impl From<FPType> for Type {
    fn from(fpt: FPType) -> (t: Type) {
        Type::FPType(fpt)
    }
}

impl vstd::std_specs::convert::FromSpecImpl<FPType> for Type {
    open spec fn obeys_from_spec() -> bool {
        true
    }

    open spec fn from_spec(fpt: FPType) -> Type {
        Type::FPType(fpt)
    }
}

} // verus!
