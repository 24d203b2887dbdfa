//! Constants of LLVM IR and their types.
use vstd::prelude::*;
use crate::llvm_ir::name::{Name, NameV};
use crate::llvm_ir::types::{type_refs_model, FPType, Type, TypeRef, TypeV, Typed, Types};

verus! {

/// A floating-point constant.  Single and double values are held by their
/// IEEE 754 bits; the other formats carry no value.
#[allow(non_camel_case_types)]
#[derive(PartialEq, Eq, Clone, Copy, Debug, Hash, Structural)]
pub enum Float {
    Half,
    BFloat,
    Single(u32),
    Double(u64),
    Quadruple,
    X86_FP80,
    PPC_FP128,
}

/// The format of a floating-point constant.
pub open spec fn float_fp_type(f: Float) -> FPType {
    match f {
        Float::Half => FPType::Half,
        Float::BFloat => FPType::BFloat,
        Float::Single(_) => FPType::Single,
        Float::Double(_) => FPType::Double,
        Float::Quadruple => FPType::FP128,
        Float::X86_FP80 => FPType::X86_FP80,
        Float::PPC_FP128 => FPType::PPC_FP128,
    }
}

impl Typed for Float {
    open spec fn typed_ok(&self) -> bool {
        true
    }

    open spec fn typed_view(&self) -> TypeV {
        TypeV::FPType(float_fp_type(*self))
    }

    fn get_type(&self, types: &Types) -> (t: TypeRef) {
        types.fp(
            match self {
                Float::Half => FPType::Half,
                Float::BFloat => FPType::BFloat,
                Float::Single(_) => FPType::Single,
                Float::Double(_) => FPType::Double,
                Float::Quadruple => FPType::FP128,
                Float::X86_FP80 => FPType::X86_FP80,
                Float::PPC_FP128 => FPType::PPC_FP128,
            },
        )
    }
}

/// A constant.
#[derive(PartialEq, Debug, Hash)]
pub enum Constant {
    Int { bits: u32, value: u64 },
    Float(Float),
    Null(TypeRef),
    AggregateZero(TypeRef),
    Struct { name: Option<String>, values: Vec<ConstantRef>, is_packed: bool },
    Array { element_type: TypeRef, elements: Vec<ConstantRef> },
    Vector(Vec<ConstantRef>),
    Undef(TypeRef),
    Poison(TypeRef),
    BlockAddress,
    GlobalReference { name: Name, ty: TypeRef },
    TokenNone,
    PtrAuth { ptr: ConstantRef, key: ConstantRef, disc: ConstantRef, addr_disc: ConstantRef },
    Add(Add),
    Sub(Sub),
    Mul(Mul),
    Xor(Xor),
    ExtractElement(ExtractElement),
    InsertElement(InsertElement),
    ShuffleVector(ShuffleVector),
    GetElementPtr(GetElementPtr),
    Trunc(Trunc),
    PtrToInt(PtrToInt),
    IntToPtr(IntToPtr),
    BitCast(BitCast),
    AddrSpaceCast(AddrSpaceCast),
}

/// A reference to a constant.
#[derive(PartialEq, Debug, Hash)]
pub struct ConstantRef(pub Box<Constant>);

/// The constant expression `add` of two constants.
#[derive(PartialEq, Debug, Hash)]
pub struct Add {
    pub operand0: ConstantRef,
    pub operand1: ConstantRef,
}

/// The constant expression `sub` of two constants.
#[derive(PartialEq, Debug, Hash)]
pub struct Sub {
    pub operand0: ConstantRef,
    pub operand1: ConstantRef,
}

/// The constant expression `mul` of two constants.
#[derive(PartialEq, Debug, Hash)]
pub struct Mul {
    pub operand0: ConstantRef,
    pub operand1: ConstantRef,
}

/// The constant expression `xor` of two constants.
#[derive(PartialEq, Debug, Hash)]
pub struct Xor {
    pub operand0: ConstantRef,
    pub operand1: ConstantRef,
}

/// The operands of a floating-point remainder.
pub struct FRem {
    pub operand0: ConstantRef,
    pub operand1: ConstantRef,
}

/// The element of a constant vector at a constant index.
#[derive(PartialEq, Debug, Hash)]
pub struct ExtractElement {
    pub vector: ConstantRef,
    pub index: ConstantRef,
}

/// A constant vector with the element at a constant index replaced.
#[derive(PartialEq, Debug, Hash)]
pub struct InsertElement {
    pub vector: ConstantRef,
    pub element: ConstantRef,
    pub index: ConstantRef,
}

/// The elements of two constant vectors picked by a constant mask.
#[derive(PartialEq, Debug, Hash)]
pub struct ShuffleVector {
    pub operand0: ConstantRef,
    pub operand1: ConstantRef,
    pub mask: ConstantRef,
}

/// The address of an element of an aggregate, by constant indices.
#[derive(PartialEq, Debug, Hash)]
pub struct GetElementPtr {
    pub address: ConstantRef,
    pub indices: Vec<ConstantRef>,
    pub in_bounds: bool,
}

/// The constant expression `trunc`: a constant converted to `to_type`.
#[derive(PartialEq, Debug, Hash)]
pub struct Trunc {
    pub operand: ConstantRef,
    pub to_type: TypeRef,
}

/// The constant expression `ptrtoint`: a constant converted to `to_type`.
#[derive(PartialEq, Debug, Hash)]
pub struct PtrToInt {
    pub operand: ConstantRef,
    pub to_type: TypeRef,
}

/// The constant expression `inttoptr`: a constant converted to `to_type`.
#[derive(PartialEq, Debug, Hash)]
pub struct IntToPtr {
    pub operand: ConstantRef,
    pub to_type: TypeRef,
}

/// The constant expression `bitcast`: a constant converted to `to_type`.
#[derive(PartialEq, Debug, Hash)]
pub struct BitCast {
    pub operand: ConstantRef,
    pub to_type: TypeRef,
}

/// The constant expression `addrspacecast`: a constant converted to `to_type`.
#[derive(PartialEq, Debug, Hash)]
pub struct AddrSpaceCast {
    pub operand: ConstantRef,
    pub to_type: TypeRef,
}

/// Mathematical model of [`Constant`].
pub enum ConstantV {
    Int { bits: u32, value: u64 },
    Float(Float),
    Null(TypeV),
    AggregateZero(TypeV),
    Struct { name: Option<Seq<char>>, values: Seq<ConstantV>, is_packed: bool },
    Array { element_type: TypeV, elements: Seq<ConstantV> },
    Vector(Seq<ConstantV>),
    Undef(TypeV),
    Poison(TypeV),
    BlockAddress,
    GlobalReference { name: NameV, ty: TypeV },
    TokenNone,
    PtrAuth { ptr: Box<ConstantV>, key: Box<ConstantV>, disc: Box<ConstantV>, addr_disc: Box<ConstantV> },
    Add(Box<ConstantV>, Box<ConstantV>),
    Sub(Box<ConstantV>, Box<ConstantV>),
    Mul(Box<ConstantV>, Box<ConstantV>),
    Xor(Box<ConstantV>, Box<ConstantV>),
    ExtractElement(Box<ConstantV>, Box<ConstantV>),
    InsertElement(Box<ConstantV>, Box<ConstantV>, Box<ConstantV>),
    ShuffleVector(Box<ConstantV>, Box<ConstantV>, Box<ConstantV>),
    GetElementPtr { address: Box<ConstantV>, indices: Seq<ConstantV>, in_bounds: bool },
    Trunc(Box<ConstantV>, TypeV),
    PtrToInt(Box<ConstantV>, TypeV),
    IntToPtr(Box<ConstantV>, TypeV),
    BitCast(Box<ConstantV>, TypeV),
    AddrSpaceCast(Box<ConstantV>, TypeV),
}

/// The models of a list of constant references.
pub open spec fn refs_model(v: Vec<ConstantRef>) -> Seq<ConstantV> {
    Seq::new(
        v.len() as nat,
        |i: int|
            if 0 <= i < v.len() {
                (*v[i].0).model()
            } else {
                ConstantV::TokenNone
            },
    )
}

impl Constant {
    pub open spec fn model(self) -> ConstantV
        decreases self,
    {
        match self {
            Constant::Int { bits, value } => ConstantV::Int { bits, value },
            Constant::Float(f) => ConstantV::Float(f),
            Constant::Null(t) => ConstantV::Null(t@),
            Constant::AggregateZero(t) => ConstantV::AggregateZero(t@),
            Constant::Struct { name, values, is_packed } => ConstantV::Struct {
                name: match name {
                    Some(n) => Some(n@),
                    None => None,
                },
                values: Seq::new(
                    values.len() as nat,
                    |i: int|
                        if 0 <= i < values.len() {
                            (*values[i].0).model()
                        } else {
                            ConstantV::TokenNone
                        },
                ),
                is_packed,
            },
            Constant::Array { element_type, elements } => ConstantV::Array {
                element_type: element_type@,
                elements: Seq::new(
                    elements.len() as nat,
                    |i: int|
                        if 0 <= i < elements.len() {
                            (*elements[i].0).model()
                        } else {
                            ConstantV::TokenNone
                        },
                ),
            },
            Constant::Vector(v) => ConstantV::Vector(
                Seq::new(
                    v.len() as nat,
                    |i: int|
                        if 0 <= i < v.len() {
                            (*v[i].0).model()
                        } else {
                            ConstantV::TokenNone
                        },
                ),
            ),
            Constant::Undef(t) => ConstantV::Undef(t@),
            Constant::Poison(t) => ConstantV::Poison(t@),
            Constant::BlockAddress => ConstantV::BlockAddress,
            Constant::GlobalReference { name, ty } => ConstantV::GlobalReference { name: name@, ty: ty@ },
            Constant::TokenNone => ConstantV::TokenNone,
            Constant::PtrAuth { ptr, key, disc, addr_disc } => ConstantV::PtrAuth {
                ptr: Box::new((*ptr.0).model()),
                key: Box::new((*key.0).model()),
                disc: Box::new((*disc.0).model()),
                addr_disc: Box::new((*addr_disc.0).model()),
            },
            Constant::Add(e) => ConstantV::Add(
                Box::new((*e.operand0.0).model()),
                Box::new((*e.operand1.0).model()),
            ),
            Constant::Sub(e) => ConstantV::Sub(
                Box::new((*e.operand0.0).model()),
                Box::new((*e.operand1.0).model()),
            ),
            Constant::Mul(e) => ConstantV::Mul(
                Box::new((*e.operand0.0).model()),
                Box::new((*e.operand1.0).model()),
            ),
            Constant::Xor(e) => ConstantV::Xor(
                Box::new((*e.operand0.0).model()),
                Box::new((*e.operand1.0).model()),
            ),
            Constant::ExtractElement(e) => ConstantV::ExtractElement(
                Box::new((*e.vector.0).model()),
                Box::new((*e.index.0).model()),
            ),
            Constant::InsertElement(e) => ConstantV::InsertElement(
                Box::new((*e.vector.0).model()),
                Box::new((*e.element.0).model()),
                Box::new((*e.index.0).model()),
            ),
            Constant::ShuffleVector(e) => ConstantV::ShuffleVector(
                Box::new((*e.operand0.0).model()),
                Box::new((*e.operand1.0).model()),
                Box::new((*e.mask.0).model()),
            ),
            Constant::GetElementPtr(e) => ConstantV::GetElementPtr {
                address: Box::new((*e.address.0).model()),
                indices: Seq::new(
                    e.indices.len() as nat,
                    |i: int|
                        if 0 <= i < e.indices.len() {
                            (*e.indices[i].0).model()
                        } else {
                            ConstantV::TokenNone
                        },
                ),
                in_bounds: e.in_bounds,
            },
            Constant::Trunc(e) => ConstantV::Trunc(Box::new((*e.operand.0).model()), e.to_type@),
            Constant::PtrToInt(e) => ConstantV::PtrToInt(Box::new((*e.operand.0).model()), e.to_type@),
            Constant::IntToPtr(e) => ConstantV::IntToPtr(Box::new((*e.operand.0).model()), e.to_type@),
            Constant::BitCast(e) => ConstantV::BitCast(Box::new((*e.operand.0).model()), e.to_type@),
            Constant::AddrSpaceCast(e) => ConstantV::AddrSpaceCast(Box::new((*e.operand.0).model()), e.to_type@),
        }
    }
}

impl View for Constant {
    type V = ConstantV;

    open spec fn view(&self) -> ConstantV {
        self.model()
    }
}

impl View for ConstantRef {
    type V = ConstantV;

    open spec fn view(&self) -> ConstantV {
        (*self.0).model()
    }
}

/// The type of a constant.
pub open spec fn constant_type(c: ConstantV) -> TypeV
    decreases c,
{
    match c {
        ConstantV::Int { bits, .. } => TypeV::IntegerType { bits },
        ConstantV::Float(f) => TypeV::FPType(float_fp_type(f)),
        ConstantV::Null(t) => t,
        ConstantV::AggregateZero(t) => t,
        ConstantV::Struct { values, is_packed, .. } => TypeV::StructType {
            element_types: Seq::new(
                values.len(),
                |i: int|
                    if 0 <= i < values.len() {
                        constant_type(values[i])
                    } else {
                        TypeV::VoidType
                    },
            ),
            is_packed,
        },
        ConstantV::Array { element_type, elements } => TypeV::ArrayType {
            element_type: Box::new(element_type),
            num_elements: elements.len() as usize,
        },
        ConstantV::Vector(v) => TypeV::VectorType {
            element_type: Box::new(
                if v.len() > 0 {
                    constant_type(v[0])
                } else {
                    TypeV::VoidType
                },
            ),
            num_elements: v.len() as usize,
            scalable: false,
        },
        ConstantV::Undef(t) => t,
        ConstantV::Poison(t) => t,
        ConstantV::BlockAddress => TypeV::LabelType,
        ConstantV::GlobalReference { .. } => TypeV::PointerType { addr_space: 0 },
        ConstantV::TokenNone => TypeV::TokenType,
        ConstantV::PtrAuth { .. } => TypeV::PointerType { addr_space: 0 },
        ConstantV::Add(a, _) => constant_type(*a),
        ConstantV::Sub(a, _) => constant_type(*a),
        ConstantV::Mul(a, _) => constant_type(*a),
        ConstantV::Xor(a, _) => constant_type(*a),
        ConstantV::ExtractElement(v, _) => match constant_type(*v) {
            TypeV::VectorType { element_type, .. } => *element_type,
            _ => TypeV::VoidType,
        },
        ConstantV::InsertElement(v, _, _) => constant_type(*v),
        ConstantV::ShuffleVector(a, _, m) => match (constant_type(*a), constant_type(*m)) {
            (TypeV::VectorType { element_type, .. }, TypeV::VectorType { num_elements, scalable, .. }) =>
                TypeV::VectorType { element_type, num_elements, scalable },
            _ => TypeV::VoidType,
        },
        ConstantV::GetElementPtr { .. } => TypeV::PointerType { addr_space: 0 },
        ConstantV::Trunc(_, t) => t,
        ConstantV::PtrToInt(_, t) => t,
        ConstantV::IntToPtr(_, t) => t,
        ConstantV::BitCast(_, t) => t,
        ConstantV::AddrSpaceCast(_, t) => t,
    }
}

/// Whether the type of a constant can be computed: every vector constant
/// used has an element, the operands of `add`, `sub`, `mul`, `xor` and of a
/// shuffle have one type, and what is extracted from or shuffled is of a
/// vector type, throughout the parts whose types are computed.
pub open spec fn constant_typable(c: ConstantV) -> bool
    decreases c,
{
    match c {
        ConstantV::Struct { values, .. } => forall|i: int|
            0 <= i < values.len() ==> constant_typable(#[trigger] values[i]),
        ConstantV::Vector(v) => v.len() > 0 && constant_typable(v[0]),
        ConstantV::Add(a, b) => constant_typable(*a) && constant_typable(*b) && constant_type(*a) == constant_type(*b),
        ConstantV::Sub(a, b) => constant_typable(*a) && constant_typable(*b) && constant_type(*a) == constant_type(*b),
        ConstantV::Mul(a, b) => constant_typable(*a) && constant_typable(*b) && constant_type(*a) == constant_type(*b),
        ConstantV::Xor(a, b) => constant_typable(*a) && constant_typable(*b) && constant_type(*a) == constant_type(*b),
        ConstantV::ExtractElement(v, _) => constant_typable(*v) && constant_type(*v) is VectorType,
        ConstantV::InsertElement(v, _, _) => constant_typable(*v),
        ConstantV::ShuffleVector(a, b, m) => constant_typable(*a) && constant_typable(*b)
            && constant_typable(*m) && constant_type(*a) == constant_type(*b)
            && constant_type(*a) is VectorType && constant_type(*m) is VectorType,
        _ => true,
    }
}

/// Copies of a list of constant references.
fn clone_refs(v: &Vec<ConstantRef>) -> (r: Vec<ConstantRef>)
    ensures
        refs_model(r) == refs_model(*v),
    decreases v@,
{
    let mut out: Vec<ConstantRef> = Vec::new();
    let mut i: usize = 0;
    while i < v.len()
        invariant
            i <= v.len(),
            out.len() == i,
            forall|j: int| 0 <= j < i ==> #[trigger] out@[j]@ == v@[j]@,
        decreases v.len() - i,
    {
        assert(decreases_to!(v@ => v@[i as int]));
        out.push(v[i].clone());
        i += 1;
    }
    assert forall|j: int| 0 <= j < out.len() implies refs_model(out)[j] == refs_model(*v)[j] by {
        assert(out@[j]@ == v@[j]@);
    }
    assert(refs_model(out) =~= refs_model(*v));
    out
}

impl Clone for ConstantRef {
    fn clone(&self) -> (r: Self)
        ensures
            r@ == self@,
        decreases self,
    {
        ConstantRef(Box::new((*self.0).clone()))
    }
}

impl Clone for Constant {
    fn clone(&self) -> (r: Self)
        ensures
            r@ == self@,
        decreases self,
    {
        match self {
            Constant::Int { bits, value } => Constant::Int { bits: *bits, value: *value },
            Constant::Float(f) => Constant::Float(*f),
            Constant::Null(t) => Constant::Null(t.clone()),
            Constant::AggregateZero(t) => Constant::AggregateZero(t.clone()),
            Constant::Struct { name, values, is_packed } => {
                let vs = clone_refs(values);
                let r = Constant::Struct {
                    name: match name {
                        Some(n) => Some(n.clone()),
                        None => None,
                    },
                    values: vs,
                    is_packed: *is_packed,
                };
                assert(r@->Struct_values =~= refs_model(vs));
                assert(self@->Struct_values =~= refs_model(*values));
                r
            },
            Constant::Array { element_type, elements } => {
                let es = clone_refs(elements);
                let r = Constant::Array { element_type: element_type.clone(), elements: es };
                assert(r@->Array_elements =~= refs_model(es));
                assert(self@->Array_elements =~= refs_model(*elements));
                r
            },
            Constant::Vector(v) => {
                let es = clone_refs(v);
                let r = Constant::Vector(es);
                assert(r@->Vector_0 =~= refs_model(es));
                assert(self@->Vector_0 =~= refs_model(*v));
                r
            },
            Constant::Undef(t) => Constant::Undef(t.clone()),
            Constant::Poison(t) => Constant::Poison(t.clone()),
            Constant::BlockAddress => Constant::BlockAddress,
            Constant::GlobalReference { name, ty } => Constant::GlobalReference {
                name: name.clone(),
                ty: ty.clone(),
            },
            Constant::TokenNone => Constant::TokenNone,
            Constant::PtrAuth { ptr, key, disc, addr_disc } => Constant::PtrAuth {
                ptr: ptr.clone(),
                key: key.clone(),
                disc: disc.clone(),
                addr_disc: addr_disc.clone(),
            },
            Constant::Add(e) => Constant::Add(
                Add { operand0: e.operand0.clone(), operand1: e.operand1.clone() },
            ),
            Constant::Sub(e) => Constant::Sub(
                Sub { operand0: e.operand0.clone(), operand1: e.operand1.clone() },
            ),
            Constant::Mul(e) => Constant::Mul(
                Mul { operand0: e.operand0.clone(), operand1: e.operand1.clone() },
            ),
            Constant::Xor(e) => Constant::Xor(
                Xor { operand0: e.operand0.clone(), operand1: e.operand1.clone() },
            ),
            Constant::ExtractElement(e) => Constant::ExtractElement(
                ExtractElement { vector: e.vector.clone(), index: e.index.clone() },
            ),
            Constant::InsertElement(e) => Constant::InsertElement(
                InsertElement {
                    vector: e.vector.clone(),
                    element: e.element.clone(),
                    index: e.index.clone(),
                },
            ),
            Constant::ShuffleVector(e) => Constant::ShuffleVector(
                ShuffleVector {
                    operand0: e.operand0.clone(),
                    operand1: e.operand1.clone(),
                    mask: e.mask.clone(),
                },
            ),
            Constant::GetElementPtr(e) => {
                let is = clone_refs(&e.indices);
                let r = Constant::GetElementPtr(
                    GetElementPtr { address: e.address.clone(), indices: is, in_bounds: e.in_bounds },
                );
                assert(r@->GetElementPtr_indices =~= refs_model(is));
                assert(self@->GetElementPtr_indices =~= refs_model(e.indices));
                r
            },
            Constant::Trunc(e) => Constant::Trunc(
                Trunc { operand: e.operand.clone(), to_type: e.to_type.clone() },
            ),
            Constant::PtrToInt(e) => Constant::PtrToInt(
                PtrToInt { operand: e.operand.clone(), to_type: e.to_type.clone() },
            ),
            Constant::IntToPtr(e) => Constant::IntToPtr(
                IntToPtr { operand: e.operand.clone(), to_type: e.to_type.clone() },
            ),
            Constant::BitCast(e) => Constant::BitCast(
                BitCast { operand: e.operand.clone(), to_type: e.to_type.clone() },
            ),
            Constant::AddrSpaceCast(e) => Constant::AddrSpaceCast(
                AddrSpaceCast { operand: e.operand.clone(), to_type: e.to_type.clone() },
            ),
        }
    }
}

impl ConstantRef {
    /// A reference to `c`.
    pub fn new(c: Constant) -> (r: Self)
        ensures
            r == ConstantRef(Box::new(c)),
            r@ == c@,
    {
        ConstantRef(Box::new(c))
    }

    /// The constant referred to.
    pub fn as_ref(&self) -> (c: &Constant)
        ensures
            c@ == self@,
    {
        &*self.0
    }
}

/// The types of a list of constants.
fn constant_refs_types(v: &Vec<ConstantRef>, types: &Types) -> (r: Vec<TypeRef>)
    requires
        forall|i: int| 0 <= i < v.len() ==> constant_typable(#[trigger] refs_model(*v)[i]),
    ensures
        r.len() == v.len(),
        forall|i: int| 0 <= i < v.len() ==> #[trigger] r@[i]@ == constant_type(refs_model(*v)[i]),
    decreases v@,
{
    let mut out: Vec<TypeRef> = Vec::new();
    let mut i: usize = 0;
    while i < v.len()
        invariant
            i <= v.len(),
            out.len() == i,
            forall|j: int| 0 <= j < v.len() ==> constant_typable(#[trigger] refs_model(*v)[j]),
            forall|j: int| 0 <= j < i ==> #[trigger] out@[j]@ == constant_type(refs_model(*v)[j]),
        decreases v.len() - i,
    {
        assert(decreases_to!(v@ => v@[i as int]));
        assert(refs_model(*v)[i as int] == v@[i as int]@);
        out.push(constant_get_type(&*v[i].0, types));
        i += 1;
    }
    out
}

/// The type of a constant whose type can be computed.
pub fn constant_get_type(c: &Constant, types: &Types) -> (t: TypeRef)
    requires
        constant_typable(c@),
    ensures
        t@ == constant_type(c@),
    decreases c,
{
    match c {
        Constant::Int { bits, .. } => types.int_type(*bits),
        Constant::Float(f) => types.type_of(f),
        Constant::Null(t) => t.clone(),
        Constant::AggregateZero(t) => t.clone(),
        Constant::Struct { values, is_packed, .. } => {
            assert(c@->Struct_values =~= refs_model(*values));
            let tys = constant_refs_types(values, types);
            let r = types.struct_of(tys, *is_packed);
            proof {
                let want = constant_type(c@)->StructType_element_types;
                assert(type_refs_model(tys@) =~= want);
            }
            r
        },
        Constant::Array { element_type, elements } => types.array_of(element_type.clone(), elements.len()),
        Constant::Vector(v) => {
            assert(c@->Vector_0 =~= refs_model(*v));
            assert(refs_model(*v)[0] == v@[0]@);
            assert(decreases_to!(v@ => v@[0]));
            let t0 = constant_get_type(&*v[0].0, types);
            types.vector_of(t0, v.len(), false)
        },
        Constant::Undef(t) => t.clone(),
        Constant::Poison(t) => t.clone(),
        Constant::BlockAddress => types.label_type(),
        Constant::GlobalReference { .. } => types.pointer(),
        Constant::TokenNone => types.token_type(),
        Constant::Add(e) => constant_get_type(&*e.operand0.0, types),
        Constant::Sub(e) => constant_get_type(&*e.operand0.0, types),
        Constant::Mul(e) => constant_get_type(&*e.operand0.0, types),
        Constant::Xor(e) => constant_get_type(&*e.operand0.0, types),
        Constant::ExtractElement(e) => {
            let t = constant_get_type(&*e.vector.0, types);
            match t.as_ref() {
                Type::VectorType { element_type, .. } => element_type.clone(),
                _ => {
                    proof {
                        assert(false);
                    }
                    t
                },
            }
        },
        Constant::InsertElement(e) => constant_get_type(&*e.vector.0, types),
        Constant::ShuffleVector(e) => {
            let t = constant_get_type(&*e.operand0.0, types);
            match t.as_ref() {
                Type::VectorType { element_type, .. } => {
                    let m = constant_get_type(&*e.mask.0, types);
                    match m.as_ref() {
                        Type::VectorType { num_elements, scalable, .. } => types.vector_of(
                            element_type.clone(),
                            *num_elements,
                            *scalable,
                        ),
                        _ => {
                            proof {
                                assert(false);
                            }
                            m
                        },
                    }
                },
                _ => {
                    proof {
                        assert(false);
                    }
                    t
                },
            }
        },
        Constant::GetElementPtr(_) => types.pointer(),
        Constant::Trunc(e) => e.to_type.clone(),
        Constant::PtrToInt(e) => e.to_type.clone(),
        Constant::IntToPtr(e) => e.to_type.clone(),
        Constant::BitCast(e) => e.to_type.clone(),
        Constant::AddrSpaceCast(e) => e.to_type.clone(),
        Constant::PtrAuth { .. } => types.pointer(),
    }
}

impl Typed for Constant {
    open spec fn typed_ok(&self) -> bool {
        constant_typable(self@)
    }

    open spec fn typed_view(&self) -> TypeV {
        constant_type(self@)
    }

    fn get_type(&self, types: &Types) -> (t: TypeRef) {
        constant_get_type(self, types)
    }
}

impl Typed for ConstantRef {
    open spec fn typed_ok(&self) -> bool {
        constant_typable(self@)
    }

    open spec fn typed_view(&self) -> TypeV {
        constant_type(self@)
    }

    fn get_type(&self, types: &Types) -> (t: TypeRef) {
        constant_get_type(self.as_ref(), types)
    }
}

/// A constant expression with one operand.
pub trait ConstUnaryOp {
    /// The operand's model.
    spec fn operand_view(&self) -> ConstantV;

    /// A copy of the operand.
    fn get_operand(&self) -> (r: ConstantRef)
        ensures
            r@ == self.operand_view(),
    ;
}

/// A constant expression with two operands.
pub trait ConstBinaryOp {
    /// The first operand's model.
    spec fn operand0_view(&self) -> ConstantV;

    /// The second operand's model.
    spec fn operand1_view(&self) -> ConstantV;

    /// A copy of the first operand.
    fn get_operand0(&self) -> (r: ConstantRef)
        ensures
            r@ == self.operand0_view(),
    ;

    /// A copy of the second operand.
    fn get_operand1(&self) -> (r: ConstantRef)
        ensures
            r@ == self.operand1_view(),
    ;
}

impl From<Add> for Constant {
    fn from(expr: Add) -> (c: Constant) {
        Constant::Add(expr)
    }
}

impl vstd::std_specs::convert::FromSpecImpl<Add> for Constant {
    open spec fn obeys_from_spec() -> bool {
        true
    }

    open spec fn from_spec(expr: Add) -> Constant {
        Constant::Add(expr)
    }
}

impl TryFrom<Constant> for Add {
    type Error = &'static str;

    fn try_from(constant: Constant) -> (r: Result<Self, Self::Error>) {
        match constant {
            Constant::Add(expr) => Ok(expr),
            _ => Err("Constant is not of requested kind"),
        }
    }
}

impl vstd::std_specs::convert::TryFromSpecImpl<Constant> for Add {
    open spec fn obeys_try_from_spec() -> bool {
        true
    }

    open spec fn try_from_spec(constant: Constant) -> Result<Self, Self::Error> {
        match constant {
            Constant::Add(expr) => Ok(expr),
            _ => Err("Constant is not of requested kind"),
        }
    }
}

impl ConstBinaryOp for Add {
    open spec fn operand0_view(&self) -> ConstantV {
        self.operand0@
    }

    open spec fn operand1_view(&self) -> ConstantV {
        self.operand1@
    }

    fn get_operand0(&self) -> (r: ConstantRef) {
        self.operand0.clone()
    }

    fn get_operand1(&self) -> (r: ConstantRef) {
        self.operand1.clone()
    }
}

impl Typed for Add {
    open spec fn typed_ok(&self) -> bool {
        constant_typable(ConstantV::Add(Box::new(self.operand0@), Box::new(self.operand1@)))
    }

    open spec fn typed_view(&self) -> TypeV {
        constant_type(self.operand0@)
    }

    fn get_type(&self, types: &Types) -> (t: TypeRef) {
        types.type_of(&self.get_operand0())
    }
}

impl From<Sub> for Constant {
    fn from(expr: Sub) -> (c: Constant) {
        Constant::Sub(expr)
    }
}

impl vstd::std_specs::convert::FromSpecImpl<Sub> for Constant {
    open spec fn obeys_from_spec() -> bool {
        true
    }

    open spec fn from_spec(expr: Sub) -> Constant {
        Constant::Sub(expr)
    }
}

impl TryFrom<Constant> for Sub {
    type Error = &'static str;

    fn try_from(constant: Constant) -> (r: Result<Self, Self::Error>) {
        match constant {
            Constant::Sub(expr) => Ok(expr),
            _ => Err("Constant is not of requested kind"),
        }
    }
}

impl vstd::std_specs::convert::TryFromSpecImpl<Constant> for Sub {
    open spec fn obeys_try_from_spec() -> bool {
        true
    }

    open spec fn try_from_spec(constant: Constant) -> Result<Self, Self::Error> {
        match constant {
            Constant::Sub(expr) => Ok(expr),
            _ => Err("Constant is not of requested kind"),
        }
    }
}

impl ConstBinaryOp for Sub {
    open spec fn operand0_view(&self) -> ConstantV {
        self.operand0@
    }

    open spec fn operand1_view(&self) -> ConstantV {
        self.operand1@
    }

    fn get_operand0(&self) -> (r: ConstantRef) {
        self.operand0.clone()
    }

    fn get_operand1(&self) -> (r: ConstantRef) {
        self.operand1.clone()
    }
}

impl Typed for Sub {
    open spec fn typed_ok(&self) -> bool {
        constant_typable(ConstantV::Sub(Box::new(self.operand0@), Box::new(self.operand1@)))
    }

    open spec fn typed_view(&self) -> TypeV {
        constant_type(self.operand0@)
    }

    fn get_type(&self, types: &Types) -> (t: TypeRef) {
        types.type_of(&self.get_operand0())
    }
}

impl From<Mul> for Constant {
    fn from(expr: Mul) -> (c: Constant) {
        Constant::Mul(expr)
    }
}

impl vstd::std_specs::convert::FromSpecImpl<Mul> for Constant {
    open spec fn obeys_from_spec() -> bool {
        true
    }

    open spec fn from_spec(expr: Mul) -> Constant {
        Constant::Mul(expr)
    }
}

impl TryFrom<Constant> for Mul {
    type Error = &'static str;

    fn try_from(constant: Constant) -> (r: Result<Self, Self::Error>) {
        match constant {
            Constant::Mul(expr) => Ok(expr),
            _ => Err("Constant is not of requested kind"),
        }
    }
}

impl vstd::std_specs::convert::TryFromSpecImpl<Constant> for Mul {
    open spec fn obeys_try_from_spec() -> bool {
        true
    }

    open spec fn try_from_spec(constant: Constant) -> Result<Self, Self::Error> {
        match constant {
            Constant::Mul(expr) => Ok(expr),
            _ => Err("Constant is not of requested kind"),
        }
    }
}

impl ConstBinaryOp for Mul {
    open spec fn operand0_view(&self) -> ConstantV {
        self.operand0@
    }

    open spec fn operand1_view(&self) -> ConstantV {
        self.operand1@
    }

    fn get_operand0(&self) -> (r: ConstantRef) {
        self.operand0.clone()
    }

    fn get_operand1(&self) -> (r: ConstantRef) {
        self.operand1.clone()
    }
}

impl Typed for Mul {
    open spec fn typed_ok(&self) -> bool {
        constant_typable(ConstantV::Mul(Box::new(self.operand0@), Box::new(self.operand1@)))
    }

    open spec fn typed_view(&self) -> TypeV {
        constant_type(self.operand0@)
    }

    fn get_type(&self, types: &Types) -> (t: TypeRef) {
        types.type_of(&self.get_operand0())
    }
}

impl From<Xor> for Constant {
    fn from(expr: Xor) -> (c: Constant) {
        Constant::Xor(expr)
    }
}

impl vstd::std_specs::convert::FromSpecImpl<Xor> for Constant {
    open spec fn obeys_from_spec() -> bool {
        true
    }

    open spec fn from_spec(expr: Xor) -> Constant {
        Constant::Xor(expr)
    }
}

impl TryFrom<Constant> for Xor {
    type Error = &'static str;

    fn try_from(constant: Constant) -> (r: Result<Self, Self::Error>) {
        match constant {
            Constant::Xor(expr) => Ok(expr),
            _ => Err("Constant is not of requested kind"),
        }
    }
}

impl vstd::std_specs::convert::TryFromSpecImpl<Constant> for Xor {
    open spec fn obeys_try_from_spec() -> bool {
        true
    }

    open spec fn try_from_spec(constant: Constant) -> Result<Self, Self::Error> {
        match constant {
            Constant::Xor(expr) => Ok(expr),
            _ => Err("Constant is not of requested kind"),
        }
    }
}

impl ConstBinaryOp for Xor {
    open spec fn operand0_view(&self) -> ConstantV {
        self.operand0@
    }

    open spec fn operand1_view(&self) -> ConstantV {
        self.operand1@
    }

    fn get_operand0(&self) -> (r: ConstantRef) {
        self.operand0.clone()
    }

    fn get_operand1(&self) -> (r: ConstantRef) {
        self.operand1.clone()
    }
}

impl Typed for Xor {
    open spec fn typed_ok(&self) -> bool {
        constant_typable(ConstantV::Xor(Box::new(self.operand0@), Box::new(self.operand1@)))
    }

    open spec fn typed_view(&self) -> TypeV {
        constant_type(self.operand0@)
    }

    fn get_type(&self, types: &Types) -> (t: TypeRef) {
        types.type_of(&self.get_operand0())
    }
}

impl From<ExtractElement> for Constant {
    fn from(expr: ExtractElement) -> (c: Constant) {
        Constant::ExtractElement(expr)
    }
}

impl vstd::std_specs::convert::FromSpecImpl<ExtractElement> for Constant {
    open spec fn obeys_from_spec() -> bool {
        true
    }

    open spec fn from_spec(expr: ExtractElement) -> Constant {
        Constant::ExtractElement(expr)
    }
}

impl TryFrom<Constant> for ExtractElement {
    type Error = &'static str;

    fn try_from(constant: Constant) -> (r: Result<Self, Self::Error>) {
        match constant {
            Constant::ExtractElement(expr) => Ok(expr),
            _ => Err("Constant is not of requested kind"),
        }
    }
}

impl vstd::std_specs::convert::TryFromSpecImpl<Constant> for ExtractElement {
    open spec fn obeys_try_from_spec() -> bool {
        true
    }

    open spec fn try_from_spec(constant: Constant) -> Result<Self, Self::Error> {
        match constant {
            Constant::ExtractElement(expr) => Ok(expr),
            _ => Err("Constant is not of requested kind"),
        }
    }
}

impl Typed for ExtractElement {
    open spec fn typed_ok(&self) -> bool {
        constant_typable(ConstantV::ExtractElement(Box::new(self.vector@), Box::new(self.index@)))
    }

    open spec fn typed_view(&self) -> TypeV {
        constant_type(ConstantV::ExtractElement(Box::new(self.vector@), Box::new(self.index@)))
    }

    fn get_type(&self, types: &Types) -> (t: TypeRef) {
        let t = types.type_of(&self.vector);
        match t.as_ref() {
            Type::VectorType { element_type, .. } => element_type.clone(),
            _ => {
                proof {
                    assert(false);
                }
                t
            },
        }
    }
}

impl From<InsertElement> for Constant {
    fn from(expr: InsertElement) -> (c: Constant) {
        Constant::InsertElement(expr)
    }
}

impl vstd::std_specs::convert::FromSpecImpl<InsertElement> for Constant {
    open spec fn obeys_from_spec() -> bool {
        true
    }

    open spec fn from_spec(expr: InsertElement) -> Constant {
        Constant::InsertElement(expr)
    }
}

impl TryFrom<Constant> for InsertElement {
    type Error = &'static str;

    fn try_from(constant: Constant) -> (r: Result<Self, Self::Error>) {
        match constant {
            Constant::InsertElement(expr) => Ok(expr),
            _ => Err("Constant is not of requested kind"),
        }
    }
}

impl vstd::std_specs::convert::TryFromSpecImpl<Constant> for InsertElement {
    open spec fn obeys_try_from_spec() -> bool {
        true
    }

    open spec fn try_from_spec(constant: Constant) -> Result<Self, Self::Error> {
        match constant {
            Constant::InsertElement(expr) => Ok(expr),
            _ => Err("Constant is not of requested kind"),
        }
    }
}

impl Typed for InsertElement {
    open spec fn typed_ok(&self) -> bool {
        constant_typable(self.vector@)
    }

    open spec fn typed_view(&self) -> TypeV {
        constant_type(self.vector@)
    }

    fn get_type(&self, types: &Types) -> (t: TypeRef) {
        types.type_of(&self.vector)
    }
}

impl From<ShuffleVector> for Constant {
    fn from(expr: ShuffleVector) -> (c: Constant) {
        Constant::ShuffleVector(expr)
    }
}

impl vstd::std_specs::convert::FromSpecImpl<ShuffleVector> for Constant {
    open spec fn obeys_from_spec() -> bool {
        true
    }

    open spec fn from_spec(expr: ShuffleVector) -> Constant {
        Constant::ShuffleVector(expr)
    }
}

impl TryFrom<Constant> for ShuffleVector {
    type Error = &'static str;

    fn try_from(constant: Constant) -> (r: Result<Self, Self::Error>) {
        match constant {
            Constant::ShuffleVector(expr) => Ok(expr),
            _ => Err("Constant is not of requested kind"),
        }
    }
}

impl vstd::std_specs::convert::TryFromSpecImpl<Constant> for ShuffleVector {
    open spec fn obeys_try_from_spec() -> bool {
        true
    }

    open spec fn try_from_spec(constant: Constant) -> Result<Self, Self::Error> {
        match constant {
            Constant::ShuffleVector(expr) => Ok(expr),
            _ => Err("Constant is not of requested kind"),
        }
    }
}

impl ConstBinaryOp for ShuffleVector {
    open spec fn operand0_view(&self) -> ConstantV {
        self.operand0@
    }

    open spec fn operand1_view(&self) -> ConstantV {
        self.operand1@
    }

    fn get_operand0(&self) -> (r: ConstantRef) {
        self.operand0.clone()
    }

    fn get_operand1(&self) -> (r: ConstantRef) {
        self.operand1.clone()
    }
}

impl Typed for ShuffleVector {
    open spec fn typed_ok(&self) -> bool {
        constant_typable(
            ConstantV::ShuffleVector(
                Box::new(self.operand0@),
                Box::new(self.operand1@),
                Box::new(self.mask@),
            ),
        )
    }

    open spec fn typed_view(&self) -> TypeV {
        constant_type(
            ConstantV::ShuffleVector(
                Box::new(self.operand0@),
                Box::new(self.operand1@),
                Box::new(self.mask@),
            ),
        )
    }

    fn get_type(&self, types: &Types) -> (t: TypeRef) {
        let ty = types.type_of(&self.operand0);
        match ty.as_ref() {
            Type::VectorType { element_type, .. } => {
                let m = types.type_of(&self.mask);
                match m.as_ref() {
                    Type::VectorType { num_elements, scalable, .. } => types.vector_of(
                        element_type.clone(),
                        *num_elements,
                        *scalable,
                    ),
                    _ => {
                        proof {
                            assert(false);
                        }
                        m
                    },
                }
            },
            _ => {
                proof {
                    assert(false);
                }
                ty
            },
        }
    }
}

impl From<GetElementPtr> for Constant {
    fn from(expr: GetElementPtr) -> (c: Constant) {
        Constant::GetElementPtr(expr)
    }
}

impl vstd::std_specs::convert::FromSpecImpl<GetElementPtr> for Constant {
    open spec fn obeys_from_spec() -> bool {
        true
    }

    open spec fn from_spec(expr: GetElementPtr) -> Constant {
        Constant::GetElementPtr(expr)
    }
}

impl TryFrom<Constant> for GetElementPtr {
    type Error = &'static str;

    fn try_from(constant: Constant) -> (r: Result<Self, Self::Error>) {
        match constant {
            Constant::GetElementPtr(expr) => Ok(expr),
            _ => Err("Constant is not of requested kind"),
        }
    }
}

impl vstd::std_specs::convert::TryFromSpecImpl<Constant> for GetElementPtr {
    open spec fn obeys_try_from_spec() -> bool {
        true
    }

    open spec fn try_from_spec(constant: Constant) -> Result<Self, Self::Error> {
        match constant {
            Constant::GetElementPtr(expr) => Ok(expr),
            _ => Err("Constant is not of requested kind"),
        }
    }
}

impl Typed for GetElementPtr {
    open spec fn typed_ok(&self) -> bool {
        true
    }

    open spec fn typed_view(&self) -> TypeV {
        TypeV::PointerType { addr_space: 0 }
    }

    fn get_type(&self, types: &Types) -> (t: TypeRef) {
        types.pointer()
    }
}

impl From<Trunc> for Constant {
    fn from(expr: Trunc) -> (c: Constant) {
        Constant::Trunc(expr)
    }
}

impl vstd::std_specs::convert::FromSpecImpl<Trunc> for Constant {
    open spec fn obeys_from_spec() -> bool {
        true
    }

    open spec fn from_spec(expr: Trunc) -> Constant {
        Constant::Trunc(expr)
    }
}

impl TryFrom<Constant> for Trunc {
    type Error = &'static str;

    fn try_from(constant: Constant) -> (r: Result<Self, Self::Error>) {
        match constant {
            Constant::Trunc(expr) => Ok(expr),
            _ => Err("Constant is not of requested kind"),
        }
    }
}

impl vstd::std_specs::convert::TryFromSpecImpl<Constant> for Trunc {
    open spec fn obeys_try_from_spec() -> bool {
        true
    }

    open spec fn try_from_spec(constant: Constant) -> Result<Self, Self::Error> {
        match constant {
            Constant::Trunc(expr) => Ok(expr),
            _ => Err("Constant is not of requested kind"),
        }
    }
}

impl ConstUnaryOp for Trunc {
    open spec fn operand_view(&self) -> ConstantV {
        self.operand@
    }

    fn get_operand(&self) -> (r: ConstantRef) {
        self.operand.clone()
    }
}

impl Typed for Trunc {
    open spec fn typed_ok(&self) -> bool {
        true
    }

    open spec fn typed_view(&self) -> TypeV {
        self.to_type@
    }

    fn get_type(&self, _types: &Types) -> (t: TypeRef) {
        self.to_type.clone()
    }
}

impl From<PtrToInt> for Constant {
    fn from(expr: PtrToInt) -> (c: Constant) {
        Constant::PtrToInt(expr)
    }
}

impl vstd::std_specs::convert::FromSpecImpl<PtrToInt> for Constant {
    open spec fn obeys_from_spec() -> bool {
        true
    }

    open spec fn from_spec(expr: PtrToInt) -> Constant {
        Constant::PtrToInt(expr)
    }
}

impl TryFrom<Constant> for PtrToInt {
    type Error = &'static str;

    fn try_from(constant: Constant) -> (r: Result<Self, Self::Error>) {
        match constant {
            Constant::PtrToInt(expr) => Ok(expr),
            _ => Err("Constant is not of requested kind"),
        }
    }
}

impl vstd::std_specs::convert::TryFromSpecImpl<Constant> for PtrToInt {
    open spec fn obeys_try_from_spec() -> bool {
        true
    }

    open spec fn try_from_spec(constant: Constant) -> Result<Self, Self::Error> {
        match constant {
            Constant::PtrToInt(expr) => Ok(expr),
            _ => Err("Constant is not of requested kind"),
        }
    }
}

impl ConstUnaryOp for PtrToInt {
    open spec fn operand_view(&self) -> ConstantV {
        self.operand@
    }

    fn get_operand(&self) -> (r: ConstantRef) {
        self.operand.clone()
    }
}

impl Typed for PtrToInt {
    open spec fn typed_ok(&self) -> bool {
        true
    }

    open spec fn typed_view(&self) -> TypeV {
        self.to_type@
    }

    fn get_type(&self, _types: &Types) -> (t: TypeRef) {
        self.to_type.clone()
    }
}

impl From<IntToPtr> for Constant {
    fn from(expr: IntToPtr) -> (c: Constant) {
        Constant::IntToPtr(expr)
    }
}

impl vstd::std_specs::convert::FromSpecImpl<IntToPtr> for Constant {
    open spec fn obeys_from_spec() -> bool {
        true
    }

    open spec fn from_spec(expr: IntToPtr) -> Constant {
        Constant::IntToPtr(expr)
    }
}

impl TryFrom<Constant> for IntToPtr {
    type Error = &'static str;

    fn try_from(constant: Constant) -> (r: Result<Self, Self::Error>) {
        match constant {
            Constant::IntToPtr(expr) => Ok(expr),
            _ => Err("Constant is not of requested kind"),
        }
    }
}

impl vstd::std_specs::convert::TryFromSpecImpl<Constant> for IntToPtr {
    open spec fn obeys_try_from_spec() -> bool {
        true
    }

    open spec fn try_from_spec(constant: Constant) -> Result<Self, Self::Error> {
        match constant {
            Constant::IntToPtr(expr) => Ok(expr),
            _ => Err("Constant is not of requested kind"),
        }
    }
}

impl ConstUnaryOp for IntToPtr {
    open spec fn operand_view(&self) -> ConstantV {
        self.operand@
    }

    fn get_operand(&self) -> (r: ConstantRef) {
        self.operand.clone()
    }
}

impl Typed for IntToPtr {
    open spec fn typed_ok(&self) -> bool {
        true
    }

    open spec fn typed_view(&self) -> TypeV {
        self.to_type@
    }

    fn get_type(&self, _types: &Types) -> (t: TypeRef) {
        self.to_type.clone()
    }
}

impl From<BitCast> for Constant {
    fn from(expr: BitCast) -> (c: Constant) {
        Constant::BitCast(expr)
    }
}

impl vstd::std_specs::convert::FromSpecImpl<BitCast> for Constant {
    open spec fn obeys_from_spec() -> bool {
        true
    }

    open spec fn from_spec(expr: BitCast) -> Constant {
        Constant::BitCast(expr)
    }
}

impl TryFrom<Constant> for BitCast {
    type Error = &'static str;

    fn try_from(constant: Constant) -> (r: Result<Self, Self::Error>) {
        match constant {
            Constant::BitCast(expr) => Ok(expr),
            _ => Err("Constant is not of requested kind"),
        }
    }
}

impl vstd::std_specs::convert::TryFromSpecImpl<Constant> for BitCast {
    open spec fn obeys_try_from_spec() -> bool {
        true
    }

    open spec fn try_from_spec(constant: Constant) -> Result<Self, Self::Error> {
        match constant {
            Constant::BitCast(expr) => Ok(expr),
            _ => Err("Constant is not of requested kind"),
        }
    }
}

impl ConstUnaryOp for BitCast {
    open spec fn operand_view(&self) -> ConstantV {
        self.operand@
    }

    fn get_operand(&self) -> (r: ConstantRef) {
        self.operand.clone()
    }
}

impl Typed for BitCast {
    open spec fn typed_ok(&self) -> bool {
        true
    }

    open spec fn typed_view(&self) -> TypeV {
        self.to_type@
    }

    fn get_type(&self, _types: &Types) -> (t: TypeRef) {
        self.to_type.clone()
    }
}

impl From<AddrSpaceCast> for Constant {
    fn from(expr: AddrSpaceCast) -> (c: Constant) {
        Constant::AddrSpaceCast(expr)
    }
}

impl vstd::std_specs::convert::FromSpecImpl<AddrSpaceCast> for Constant {
    open spec fn obeys_from_spec() -> bool {
        true
    }

    open spec fn from_spec(expr: AddrSpaceCast) -> Constant {
        Constant::AddrSpaceCast(expr)
    }
}

impl TryFrom<Constant> for AddrSpaceCast {
    type Error = &'static str;

    fn try_from(constant: Constant) -> (r: Result<Self, Self::Error>) {
        match constant {
            Constant::AddrSpaceCast(expr) => Ok(expr),
            _ => Err("Constant is not of requested kind"),
        }
    }
}

impl vstd::std_specs::convert::TryFromSpecImpl<Constant> for AddrSpaceCast {
    open spec fn obeys_try_from_spec() -> bool {
        true
    }

    open spec fn try_from_spec(constant: Constant) -> Result<Self, Self::Error> {
        match constant {
            Constant::AddrSpaceCast(expr) => Ok(expr),
            _ => Err("Constant is not of requested kind"),
        }
    }
}

impl ConstUnaryOp for AddrSpaceCast {
    open spec fn operand_view(&self) -> ConstantV {
        self.operand@
    }

    fn get_operand(&self) -> (r: ConstantRef) {
        self.operand.clone()
    }
}

impl Typed for AddrSpaceCast {
    open spec fn typed_ok(&self) -> bool {
        true
    }

    open spec fn typed_view(&self) -> TypeV {
        self.to_type@
    }

    fn get_type(&self, _types: &Types) -> (t: TypeRef) {
        self.to_type.clone()
    }
}


} // verus!
