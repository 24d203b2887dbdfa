//! Module-level items of LLVM IR: linkage and visibility attributes, and the
//! data layout with its alignment rules.
use vstd::prelude::*;
use std::collections::HashSet;
use vstd::std_specs::cmp::PartialEqSpecImpl;
use crate::llvm_ir::constant::ConstantRef;
use crate::llvm_ir::function::{Function, FunctionAttribute, FunctionDeclaration};
use crate::llvm_ir::name::Name;
use crate::llvm_ir::types::{FPType, Type, TypeRef, TypeV, Typed, Types};

verus! {

/// An address space number.
pub type AddrSpace = u32;

/// The number of an attribute group.
pub type GroupID = usize;

/// A group of function attributes, by its number.
#[derive(PartialEq, Eq, Clone, Debug, Hash)]
pub struct FunctionAttributeGroup {
    pub group_id: GroupID,
    pub attrs: Vec<FunctionAttribute>,
}

/// An LLVM module: its functions, declarations, globals and types.
pub struct Module {
    pub name: String,
    pub source_file_name: String,
    pub data_layout: DataLayout,
    pub target_triple: Option<String>,
    pub functions: Vec<Function>,
    pub func_declarations: Vec<FunctionDeclaration>,
    pub global_vars: Vec<GlobalVariable>,
    pub global_aliases: Vec<GlobalAlias>,
    pub global_ifuncs: Vec<GlobalIFunc>,
    pub inline_assembly: String,
    pub types: Types,
}

/// `i` is the first position of `names` that holds `name`.
pub open spec fn first_named<T>(names: Seq<T>, key: spec_fn(T) -> bool, i: int) -> bool {
    0 <= i < names.len() && key(names[i]) && forall|j: int| 0 <= j < i ==> !key(#[trigger] names[j])
}

/// Whether two names are the same name.
fn same_name(a: &Name, b: &Name) -> (r: bool)
    ensures
        r == (a@ == b@),
{
    match (a, b) {
        (Name::Name(x), Name::Name(y)) => (**x).eq(&**y),
        (Name::Number(m), Name::Number(n)) => *m == *n,
        _ => false,
    }
}

impl Module {
    /// The type of `t` under the module's type table.
    pub fn type_of<T: Typed>(&self, t: &T) -> (r: TypeRef)
        requires
            t.typed_ok(),
        ensures
            r@ == t.typed_view(),
    {
        self.types.type_of(t)
    }

    /// The first function defined with the name `name`, if any.
    pub fn get_func_by_name(&self, name: &str) -> (r: Option<&Function>)
        ensures
            match r {
                Some(f) => exists|i: int|
                    first_named(self.functions@, |g: Function| g.name@ == name@, i) && *f
                        == self.functions@[i],
                None => forall|i: int|
                    0 <= i < self.functions.len() ==> (#[trigger] self.functions@[i]).name@ != name@,
            },
    {
        let key = name.to_string();
        let mut i: usize = 0;
        while i < self.functions.len()
            invariant
                i <= self.functions.len(),
                key@ == name@,
                forall|j: int| 0 <= j < i ==> (#[trigger] self.functions@[j]).name@ != name@,
            decreases self.functions.len() - i,
        {
            if self.functions[i].name.eq(&key) {
                assert(first_named(self.functions@, |g: Function| g.name@ == name@, i as int));
                return Some(&self.functions[i]);
            }
            i += 1;
        }
        None
    }

    /// The first function declared with the name `name`, if any.
    pub fn get_func_decl_by_name(&self, name: &str) -> (r: Option<&FunctionDeclaration>)
        ensures
            match r {
                Some(f) => exists|i: int|
                    first_named(self.func_declarations@, |g: FunctionDeclaration| g.name@ == name@, i)
                        && *f == self.func_declarations@[i],
                None => forall|i: int|
                    0 <= i < self.func_declarations.len() ==> (
                    #[trigger] self.func_declarations@[i]).name@ != name@,
            },
    {
        let key = name.to_string();
        let mut i: usize = 0;
        while i < self.func_declarations.len()
            invariant
                i <= self.func_declarations.len(),
                key@ == name@,
                forall|j: int| 0 <= j < i ==> (#[trigger] self.func_declarations@[j]).name@ != name@,
            decreases self.func_declarations.len() - i,
        {
            if self.func_declarations[i].name.eq(&key) {
                assert(first_named(
                    self.func_declarations@,
                    |g: FunctionDeclaration| g.name@ == name@,
                    i as int,
                ));
                return Some(&self.func_declarations[i]);
            }
            i += 1;
        }
        None
    }

    /// The first global variable named `name`, if any.
    pub fn get_global_var_by_name(&self, name: &Name) -> (r: Option<&GlobalVariable>)
        ensures
            match r {
                Some(g) => exists|i: int|
                    first_named(self.global_vars@, |v: GlobalVariable| v.name@ == name@, i) && *g
                        == self.global_vars@[i],
                None => forall|i: int|
                    0 <= i < self.global_vars.len() ==> (#[trigger] self.global_vars@[i]).name@ != name@,
            },
    {
        let mut i: usize = 0;
        while i < self.global_vars.len()
            invariant
                i <= self.global_vars.len(),
                forall|j: int| 0 <= j < i ==> (#[trigger] self.global_vars@[j]).name@ != name@,
            decreases self.global_vars.len() - i,
        {
            if same_name(&self.global_vars[i].name, name) {
                assert(first_named(self.global_vars@, |v: GlobalVariable| v.name@ == name@, i as int));
                return Some(&self.global_vars[i]);
            }
            i += 1;
        }
        None
    }

    /// The first global alias named `name`, if any.
    pub fn get_global_alias_by_name(&self, name: &Name) -> (r: Option<&GlobalAlias>)
        ensures
            match r {
                Some(g) => exists|i: int|
                    first_named(self.global_aliases@, |v: GlobalAlias| v.name@ == name@, i) && *g
                        == self.global_aliases@[i],
                None => forall|i: int|
                    0 <= i < self.global_aliases.len() ==> (#[trigger] self.global_aliases@[i]).name@
                        != name@,
            },
    {
        let mut i: usize = 0;
        while i < self.global_aliases.len()
            invariant
                i <= self.global_aliases.len(),
                forall|j: int| 0 <= j < i ==> (#[trigger] self.global_aliases@[j]).name@ != name@,
            decreases self.global_aliases.len() - i,
        {
            if same_name(&self.global_aliases[i].name, name) {
                assert(first_named(self.global_aliases@, |v: GlobalAlias| v.name@ == name@, i as int));
                return Some(&self.global_aliases[i]);
            }
            i += 1;
        }
        None
    }

    /// The first global indirect function named `name`, if any.
    pub fn get_global_ifunc_by_name(&self, name: &Name) -> (r: Option<&GlobalIFunc>)
        ensures
            match r {
                Some(g) => exists|i: int|
                    first_named(self.global_ifuncs@, |v: GlobalIFunc| v.name@ == name@, i) && *g
                        == self.global_ifuncs@[i],
                None => forall|i: int|
                    0 <= i < self.global_ifuncs.len() ==> (#[trigger] self.global_ifuncs@[i]).name@
                        != name@,
            },
    {
        let mut i: usize = 0;
        while i < self.global_ifuncs.len()
            invariant
                i <= self.global_ifuncs.len(),
                forall|j: int| 0 <= j < i ==> (#[trigger] self.global_ifuncs@[j]).name@ != name@,
            decreases self.global_ifuncs.len() - i,
        {
            if same_name(&self.global_ifuncs[i].name, name) {
                assert(first_named(self.global_ifuncs@, |v: GlobalIFunc| v.name@ == name@, i as int));
                return Some(&self.global_ifuncs[i]);
            }
            i += 1;
        }
        None
    }
}

/// A global variable; its type is that of a pointer to it, `ty`.
#[derive(PartialEq, Clone, Debug, Hash)]
pub struct GlobalVariable {
    pub name: Name,
    pub linkage: Linkage,
    pub visibility: Visibility,
    pub is_constant: bool,
    pub ty: TypeRef,
    pub addr_space: AddrSpace,
    pub dll_storage_class: DLLStorageClass,
    pub thread_local_mode: ThreadLocalMode,
    pub unnamed_addr: Option<UnnamedAddr>,
    pub initializer: Option<ConstantRef>,
    pub section: Option<String>,
    pub comdat: Option<Comdat>,
    pub alignment: u32,
    pub value_type: TypeRef,
}

/// A global alias of a constant.
#[derive(PartialEq, Clone, Debug, Hash)]
pub struct GlobalAlias {
    pub name: Name,
    pub aliasee: ConstantRef,
    pub linkage: Linkage,
    pub visibility: Visibility,
    pub ty: TypeRef,
    pub addr_space: AddrSpace,
    pub dll_storage_class: DLLStorageClass,
    pub thread_local_mode: ThreadLocalMode,
    pub unnamed_addr: Option<UnnamedAddr>,
}

/// A global indirect function, chosen by a resolver.
#[derive(PartialEq, Clone, Debug, Hash)]
pub struct GlobalIFunc {
    pub name: Name,
    pub linkage: Linkage,
    pub visibility: Visibility,
    pub ty: TypeRef,
    pub resolver_fn: ConstantRef,
}

impl Typed for GlobalVariable {
    open spec fn typed_ok(&self) -> bool {
        true
    }

    open spec fn typed_view(&self) -> TypeV {
        self.ty@
    }

    fn get_type(&self, _types: &Types) -> (t: TypeRef) {
        self.ty.clone()
    }
}

impl Typed for GlobalAlias {
    open spec fn typed_ok(&self) -> bool {
        true
    }

    open spec fn typed_view(&self) -> TypeV {
        self.ty@
    }

    fn get_type(&self, _types: &Types) -> (t: TypeRef) {
        self.ty.clone()
    }
}

impl Typed for GlobalIFunc {
    open spec fn typed_ok(&self) -> bool {
        true
    }

    open spec fn typed_view(&self) -> TypeV {
        self.ty@
    }

    fn get_type(&self, _types: &Types) -> (t: TypeRef) {
        self.ty.clone()
    }
}

#[derive(PartialEq, Eq, Clone, Copy, Debug, Hash, Structural)]
pub enum UnnamedAddr {
    Local,
    Global,
}

#[derive(PartialEq, Eq, Clone, Copy, Debug, Hash, Structural)]
pub enum Linkage {
    Private,
    Internal,
    External,
    ExternalWeak,
    AvailableExternally,
    LinkOnceAny,
    LinkOnceODR,
    LinkOnceODRAutoHide,
    WeakAny,
    WeakODR,
    Common,
    Appending,
    DLLImport,
    DLLExport,
    GhostLinkage,
    LinkerPrivate,
    LinkerPrivateWeak,
}

#[derive(PartialEq, Eq, Clone, Copy, Debug, Hash, Structural)]
pub enum Visibility {
    Default,
    Hidden,
    Protected,
}

#[derive(PartialEq, Eq, Clone, Copy, Debug, Hash, Structural)]
pub enum DLLStorageClass {
    Default,
    Import,
    Export,
}

#[derive(PartialEq, Eq, Clone, Copy, Debug, Hash, Structural)]
pub enum ThreadLocalMode {
    NotThreadLocal,
    GeneralDynamic,
    LocalDynamic,
    InitialExec,
    LocalExec,
}

#[derive(PartialEq, Eq, Clone, Copy, Debug, Hash, Structural)]
pub enum SelectionKind {
    Any,
    ExactMatch,
    Largest,
    NoDuplicates,
    SameSize,
}

/// A COMDAT: a name and how duplicates are chosen among.
#[derive(PartialEq, Eq, Clone, Debug, Hash)]
pub struct Comdat {
    pub name: String,
    pub selection_kind: SelectionKind,
}

#[derive(PartialEq, Eq, Clone, Copy, Debug, Hash, Structural)]
pub enum Endianness {
    LittleEndian,
    BigEndian,
}

#[derive(PartialEq, Eq, Clone, Copy, Debug, Hash, Structural)]
pub enum Mangling {
    ELF,
    MIPS,
    MachO,
    WindowsX86COFF,
    WindowsCOFF,
    XCOFF,
}

/// An ABI alignment and a preferred alignment, in bits.
#[derive(PartialEq, Eq, Clone, Copy, Debug, Hash, Structural)]
pub struct Alignment {
    pub abi: u32,
    pub pref: u32,
}

/// The alignment of function pointers.
#[derive(PartialEq, Eq, Clone, Copy, Debug, Hash, Structural)]
pub struct FunctionPtrAlignment {
    pub independent: bool,
    pub abi: u32,
}

/// The size, alignment and index size of pointers in an address space.
#[derive(PartialEq, Eq, Clone, Copy, Debug, Hash, Structural)]
pub struct PointerLayout {
    pub size: u32,
    pub alignment: Alignment,
    pub index_size: u32,
}

/// The index of the first entry whose key is `k`, if any.
pub open spec fn find_key<T>(s: Seq<(u32, T)>, k: u32) -> Option<int>
    decreases s.len(),
{
    if s.len() == 0 {
        None
    } else if s.last().0 == k {
        match find_key(s.drop_last(), k) {
            Some(i) => Some(i),
            None => Some(s.len() - 1),
        }
    } else {
        find_key(s.drop_last(), k)
    }
}

/// The index of the first entry whose key is at least `k`, or the length
/// where there is none.
pub open spec fn first_at_least<T>(s: Seq<(u32, T)>, k: u32) -> int
    decreases s.len(),
{
    if s.len() == 0 {
        0
    } else if s[0].0 >= k {
        0
    } else {
        1 + first_at_least(s.drop_first(), k)
    }
}

/// Keys strictly increasing.
pub open spec fn keys_increasing<T>(s: Seq<(u32, T)>) -> bool {
    forall|i: int, j: int| 0 <= i < j < s.len() ==> s[i].0 < s[j].0
}

/// No key in two entries.
pub open spec fn keys_distinct<T>(s: Seq<(u32, T)>) -> bool {
    forall|i: int, j: int| 0 <= i < j < s.len() ==> s[i].0 != s[j].0
}

/// The size in bits of a floating-point format.
pub open spec fn fpt_size_spec(fpt: FPType) -> u32 {
    match fpt {
        FPType::Half => 16,
        FPType::BFloat => 16,
        FPType::Single => 32,
        FPType::Double => 64,
        FPType::FP128 => 128,
        FPType::X86_FP80 => 80,
        FPType::PPC_FP128 => 128,
    }
}

/// The alignment of integers of `size` bits: the entry for that size, else
/// the one for the next larger size, else the largest entry.
pub open spec fn int_alignment_spec(s: Seq<(u32, Alignment)>, size: u32) -> Alignment {
    let i = first_at_least(s, size);
    if i < s.len() {
        s[i].1
    } else {
        s.last().1
    }
}

/// The alignment of vectors of `size` bits: the entry for that size, else
/// the entry with the smallest size.
pub open spec fn vec_alignment_spec(s: Seq<(u32, Alignment)>, size: u32) -> Alignment {
    match find_key(s, size) {
        Some(i) => s[i].1,
        None => s[0].1,
    }
}

/// The layout of pointers in address space `a`, falling back on space 0.
pub open spec fn ptr_layout_spec(s: Seq<(u32, PointerLayout)>, a: AddrSpace) -> PointerLayout {
    match find_key(s, a) {
        Some(i) => s[i].1,
        None => s[find_key(s, 0)->0].1,
    }
}

/// Mathematical model of [`Alignments`].
pub struct AlignmentsV {
    pub int_alignments: Seq<(u32, Alignment)>,
    pub vec_alignments: Seq<(u32, Alignment)>,
    pub fp_alignments: Seq<(u32, Alignment)>,
    pub agg_alignment: Alignment,
    pub fptr_alignment: FunctionPtrAlignment,
    pub pointer_layouts: Seq<(u32, PointerLayout)>,
}

/// The element size, in bits, of a vector type whose elements are integers
/// or floating-point numbers.
pub open spec fn vector_element_bits(t: TypeV) -> Option<u32> {
    match t {
        TypeV::IntegerType { bits } => Some(bits),
        TypeV::FPType(f) => Some(fpt_size_spec(f)),
        _ => None,
    }
}

/// The types whose alignment the rules give: integers, vectors of integers
/// or floating-point numbers whose size in bits fits in 32 bits,
/// floating-point formats with an entry, aggregates, and pointers.
pub open spec fn alignment_known(a: AlignmentsV, t: TypeV) -> bool {
    match t {
        TypeV::IntegerType { .. } => true,
        TypeV::VectorType { element_type, num_elements, .. } => match vector_element_bits(
            *element_type,
        ) {
            Some(b) => num_elements <= u32::MAX && b * num_elements <= u32::MAX,
            None => false,
        },
        TypeV::FPType(f) => find_key(a.fp_alignments, fpt_size_spec(f)) is Some,
        TypeV::StructType { .. } | TypeV::NamedStructType { .. } | TypeV::ArrayType { .. } => true,
        TypeV::PointerType { .. } => true,
        _ => false,
    }
}

/// The alignment of a type whose alignment the rules give.
pub open spec fn type_alignment_spec(a: AlignmentsV, t: TypeV) -> Alignment {
    match t {
        TypeV::IntegerType { bits } => int_alignment_spec(a.int_alignments, bits),
        TypeV::VectorType { element_type, num_elements, .. } => vec_alignment_spec(
            a.vec_alignments,
            (vector_element_bits(*element_type)->0 * num_elements) as u32,
        ),
        TypeV::FPType(f) => a.fp_alignments[find_key(a.fp_alignments, fpt_size_spec(f))->0].1,
        TypeV::PointerType { addr_space } => ptr_layout_spec(a.pointer_layouts, addr_space).alignment,
        _ => a.agg_alignment,
    }
}

/// The alignment rules of a data layout.  Integer and vector entries are
/// kept in increasing order of size; floating-point entries and pointer
/// layouts have one entry per key; there is at least one integer and one
/// vector entry, and a pointer layout for address space 0.
#[derive(Clone, Debug)]
pub struct Alignments {
    int_alignments: Vec<(u32, Alignment)>,
    vec_alignments: Vec<(u32, Alignment)>,
    fp_alignments: Vec<(u32, Alignment)>,
    agg_alignment: Alignment,
    fptr_alignment: FunctionPtrAlignment,
    fptr_alignment_as_alignment: Alignment,
    pointer_layouts: Vec<(AddrSpace, PointerLayout)>,
}

impl View for Alignments {
    type V = AlignmentsV;

    closed spec fn view(&self) -> AlignmentsV {
        AlignmentsV {
            int_alignments: self.int_alignments@,
            vec_alignments: self.vec_alignments@,
            fp_alignments: self.fp_alignments@,
            agg_alignment: self.agg_alignment,
            fptr_alignment: self.fptr_alignment,
            pointer_layouts: self.pointer_layouts@,
        }
    }
}

/// The conditions under which a set of alignment rules is well formed.
pub open spec fn alignments_wf(a: AlignmentsV) -> bool {
    &&& keys_increasing(a.int_alignments)
    &&& keys_increasing(a.vec_alignments)
    &&& keys_distinct(a.fp_alignments)
    &&& keys_distinct(a.pointer_layouts)
    &&& a.int_alignments.len() > 0
    &&& a.vec_alignments.len() > 0
    &&& find_key(a.pointer_layouts, 0) is Some
}

proof fn lemma_find_key<T>(s: Seq<(u32, T)>, k: u32)
    ensures
        match find_key(s, k) {
            Some(i) => 0 <= i < s.len() && s[i].0 == k && forall|j: int| 0 <= j < i ==> s[j].0 != k,
            None => forall|j: int| 0 <= j < s.len() ==> s[j].0 != k,
        },
    decreases s.len(),
{
    if s.len() > 0 {
        let p = s.drop_last();
        lemma_find_key(p, k);
        assert forall|j: int| 0 <= j < p.len() implies p[j] == s[j] by {}
    }
}

proof fn lemma_first_at_least<T>(s: Seq<(u32, T)>, k: u32)
    ensures
        0 <= first_at_least(s, k) <= s.len(),
        forall|j: int| 0 <= j < first_at_least(s, k) ==> s[j].0 < k,
        first_at_least(s, k) < s.len() ==> s[first_at_least(s, k)].0 >= k,
    decreases s.len(),
{
    if s.len() > 0 && s[0].0 < k {
        let t = s.drop_first();
        lemma_first_at_least(t, k);
        assert forall|j: int| 0 <= j < first_at_least(s, k) implies s[j].0 < k by {
            if j > 0 {
                assert(s[j] == t[j - 1]);
            }
        }
    }
}

/// The index of the first entry with key `k`.
fn find_key_exec<T>(s: &Vec<(u32, T)>, k: u32) -> (r: Option<usize>)
    ensures
        match r {
            Some(i) => find_key(s@, k) == Some(i as int) && i < s@.len(),
            None => find_key(s@, k) is None,
        },
{
    proof {
        lemma_find_key(s@, k);
    }
    let mut i: usize = 0;
    while i < s.len()
        invariant
            i <= s.len(),
            forall|j: int| 0 <= j < i ==> s@[j].0 != k,
            match find_key(s@, k) {
                Some(f) => 0 <= f < s@.len() && s@[f].0 == k && forall|j: int| 0 <= j < f ==> s@[j].0 != k,
                None => forall|j: int| 0 <= j < s@.len() ==> s@[j].0 != k,
            },
        decreases s.len() - i,
    {
        if s[i].0 == k {
            return Some(i);
        }
        i += 1;
    }
    None
}

impl Alignments {
    /// Alignment rules from their entries.  Integer and vector entries must
    /// come in increasing order of size, floating-point entries and pointer
    /// layouts one per key; there must be an integer and a vector entry and
    /// a pointer layout for address space 0.
    pub fn new(
        int_alignments: Vec<(u32, Alignment)>,
        vec_alignments: Vec<(u32, Alignment)>,
        fp_alignments: Vec<(u32, Alignment)>,
        agg_alignment: Alignment,
        fptr_alignment: FunctionPtrAlignment,
        pointer_layouts: Vec<(AddrSpace, PointerLayout)>,
    ) -> (r: Self)
        requires
            alignments_wf(
                AlignmentsV {
                    int_alignments: int_alignments@,
                    vec_alignments: vec_alignments@,
                    fp_alignments: fp_alignments@,
                    agg_alignment,
                    fptr_alignment,
                    pointer_layouts: pointer_layouts@,
                },
            ),
        ensures
            r@ == (AlignmentsV {
                int_alignments: int_alignments@,
                vec_alignments: vec_alignments@,
                fp_alignments: fp_alignments@,
                agg_alignment,
                fptr_alignment,
                pointer_layouts: pointer_layouts@,
            }),
    {
        let fptr_alignment_as_alignment = Alignment { abi: fptr_alignment.abi, pref: fptr_alignment.abi };
        Alignments {
            int_alignments,
            vec_alignments,
            fp_alignments,
            agg_alignment,
            fptr_alignment,
            fptr_alignment_as_alignment,
            pointer_layouts,
        }
    }

    /// The alignment of `ty`, for the types whose alignment the rules give.
    pub fn type_alignment(&self, ty: &Type) -> (r: &Alignment)
        requires
            alignments_wf(self@),
            alignment_known(self@, ty@),
        ensures
            *r == type_alignment_spec(self@, ty@),
    {
        match ty {
            Type::IntegerType { bits } => self.int_alignment(*bits),
            Type::VectorType { element_type, num_elements, .. } => {
                let element_size_bits = match element_type.as_ref() {
                    Type::IntegerType { bits } => *bits,
                    Type::FPType(fpt) => Self::fpt_size(*fpt),
                    _ => 0,
                };
                assert(element_size_bits * (*num_elements as u32) <= u32::MAX) by (nonlinear_arith)
                    requires
                        *num_elements <= u32::MAX,
                        element_size_bits * *num_elements <= u32::MAX,
                ;
                self.vec_alignment(element_size_bits * (*num_elements as u32))
            },
            Type::FPType(fpt) => self.fp_alignment(*fpt),
            Type::StructType { .. } | Type::NamedStructType { .. } | Type::ArrayType { .. } => {
                self.agg_alignment()
            },
            Type::PointerType { addr_space } => &self.ptr_alignment(*addr_space).alignment,
            _ => self.agg_alignment(),
        }
    }

    /// The alignment of integers of `size` bits: the entry for that size,
    /// else the one for the next larger size, else the largest entry.
    pub fn int_alignment(&self, size: u32) -> (r: &Alignment)
        requires
            alignments_wf(self@),
        ensures
            *r == int_alignment_spec(self@.int_alignments, size),
    {
        proof {
            lemma_first_at_least(self.int_alignments@, size);
        }
        let ghost f = first_at_least(self.int_alignments@, size);
        let mut i: usize = 0;
        while i < self.int_alignments.len()
            invariant
                i <= self.int_alignments.len(),
                f == first_at_least(self.int_alignments@, size),
                0 <= f <= self.int_alignments@.len(),
                forall|j: int| 0 <= j < f ==> self.int_alignments@[j].0 < size,
                f < self.int_alignments@.len() ==> self.int_alignments@[f].0 >= size,
                forall|j: int| 0 <= j < i ==> self.int_alignments@[j].0 < size,
            decreases self.int_alignments.len() - i,
        {
            if self.int_alignments[i].0 >= size {
                proof {
                    if f < i {
                        assert(self.int_alignments@[f].0 < size);
                    }
                    if f > i {
                        assert(self.int_alignments@[i as int].0 < size);
                    }
                }
                assert(i as int == f);
                return &self.int_alignments[i].1;
            }
            i += 1;
        }
        assert(f == self.int_alignments@.len());
        let last = self.int_alignments.len() - 1;
        &self.int_alignments[last].1
    }

    /// The alignment of vectors of `size` bits: the entry for that size,
    /// else the entry with the smallest size.
    pub fn vec_alignment(&self, size: u32) -> (r: &Alignment)
        requires
            alignments_wf(self@),
        ensures
            *r == vec_alignment_spec(self@.vec_alignments, size),
    {
        match find_key_exec(&self.vec_alignments, size) {
            Some(i) => &self.vec_alignments[i].1,
            None => &self.vec_alignments[0].1,
        }
    }

    /// The alignment of a floating-point format, which must have an entry.
    pub fn fp_alignment(&self, fpt: FPType) -> (r: &Alignment)
        requires
            find_key(self@.fp_alignments, fpt_size_spec(fpt)) is Some,
        ensures
            *r == self@.fp_alignments[find_key(self@.fp_alignments, fpt_size_spec(fpt))->0].1,
    {
        proof {
            lemma_find_key(self.fp_alignments@, fpt_size_spec(fpt));
        }
        match find_key_exec(&self.fp_alignments, Self::fpt_size(fpt)) {
            Some(i) => &self.fp_alignments[i].1,
            None => &self.fp_alignments[0].1,
        }
    }

    /// The alignment of aggregates.
    pub fn agg_alignment(&self) -> (r: &Alignment)
        ensures
            *r == self@.agg_alignment,
    {
        &self.agg_alignment
    }

    /// The alignment of function pointers.
    pub fn fptr_alignment(&self) -> (r: &FunctionPtrAlignment)
        ensures
            *r == self@.fptr_alignment,
    {
        &self.fptr_alignment
    }

    /// The pointer layout of `addr_space`, or of address space 0 where it
    /// has none.
    pub fn ptr_alignment(&self, addr_space: AddrSpace) -> (r: &PointerLayout)
        requires
            alignments_wf(self@),
        ensures
            *r == ptr_layout_spec(self@.pointer_layouts, addr_space),
    {
        proof {
            lemma_find_key(self.pointer_layouts@, 0);
        }
        match find_key_exec(&self.pointer_layouts, addr_space) {
            Some(i) => &self.pointer_layouts[i].1,
            None => match find_key_exec(&self.pointer_layouts, 0) {
                Some(j) => &self.pointer_layouts[j].1,
                None => &self.pointer_layouts[0].1,
            },
        }
    }

    /// The size in bits of a floating-point format.
    pub fn fpt_size(fpt: FPType) -> (r: u32)
        ensures
            r == fpt_size_spec(fpt),
    {
        match fpt {
            FPType::Half => 16,
            FPType::BFloat => 16,
            FPType::Single => 32,
            FPType::Double => 64,
            FPType::FP128 => 128,
            FPType::X86_FP80 => 80,
            FPType::PPC_FP128 => 128,
        }
    }
}

/// The data layout of a module.  Two layouts are equal when their layout
/// strings are.
#[derive(Debug)]
pub struct DataLayout {
    pub layout_str: String,
    pub endianness: Endianness,
    pub stack_alignment: Option<u32>,
    pub program_address_space: AddrSpace,
    pub alloca_address_space: AddrSpace,
    pub alignments: Alignments,
    pub mangling: Option<Mangling>,
    pub native_int_widths: Option<HashSet<u32>>,
    pub non_integral_ptr_types: HashSet<AddrSpace>,
}

impl PartialEq for DataLayout {
    fn eq(&self, other: &Self) -> (r: bool) {
        self.layout_str.eq(&other.layout_str)
    }
}

impl PartialEqSpecImpl for DataLayout {
    open spec fn obeys_eq_spec() -> bool {
        true
    }

    open spec fn eq_spec(&self, other: &Self) -> bool {
        self.layout_str@ == other.layout_str@
    }
}

} // verus!
