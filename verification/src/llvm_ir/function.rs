//! Functions of LLVM IR as far as their declarations go: parameters,
//! calling conventions and attributes.
use vstd::prelude::*;
use crate::llvm_ir::basicblock::BasicBlock;
use crate::llvm_ir::constant::ConstantRef;
use crate::llvm_ir::module::{Comdat, DLLStorageClass, Linkage, Visibility};
use crate::llvm_ir::name::Name;
use crate::llvm_ir::types::{type_refs_model, TypeRef, TypeV, Typed, Types};

verus! {

/// A function definition.
#[derive(PartialEq, Clone, Debug, Hash)]
pub struct Function {
    pub name: String,
    pub parameters: Vec<Parameter>,
    pub is_var_arg: bool,
    pub return_type: TypeRef,
    pub basic_blocks: Vec<BasicBlock>,
    pub function_attributes: Vec<FunctionAttribute>,
    pub return_attributes: Vec<ParameterAttribute>,
    pub linkage: Linkage,
    pub visibility: Visibility,
    pub dll_storage_class: DLLStorageClass,
    pub calling_convention: CallingConvention,
    pub section: Option<String>,
    pub comdat: Option<Comdat>,
    pub alignment: u32,
    pub garbage_collector_name: Option<String>,
    pub personality_function: Option<ConstantRef>,
}

/// The types of a parameter list.
pub open spec fn parameter_types(ps: Seq<Parameter>) -> Seq<TypeV> {
    Seq::new(ps.len(), |i: int| ps[i].ty@)
}

impl Typed for Function {
    open spec fn typed_ok(&self) -> bool {
        true
    }

    /// The function type from the parameters' types to the return type.
    open spec fn typed_view(&self) -> TypeV {
        TypeV::FuncType {
            result_type: Box::new(self.return_type@),
            param_types: parameter_types(self.parameters@),
            is_var_arg: self.is_var_arg,
        }
    }

    fn get_type(&self, types: &Types) -> (t: TypeRef) {
        let mut ps: Vec<TypeRef> = Vec::new();
        let mut i: usize = 0;
        while i < self.parameters.len()
            invariant
                i <= self.parameters.len(),
                ps.len() == i,
                forall|j: int| 0 <= j < i ==> #[trigger] ps@[j]@ == self.parameters@[j].ty@,
            decreases self.parameters.len() - i,
        {
            ps.push(types.type_of(&self.parameters[i]));
            i += 1;
        }
        assert(type_refs_model(ps@) =~= parameter_types(self.parameters@));
        types.func_type(self.return_type.clone(), ps, self.is_var_arg)
    }
}

/// The declaration of a function defined elsewhere.
#[derive(PartialEq, Clone, Debug, Hash)]
pub struct FunctionDeclaration {
    pub name: String,
    pub parameters: Vec<Parameter>,
    pub is_var_arg: bool,
    pub return_type: TypeRef,
    pub return_attributes: Vec<ParameterAttribute>,
    pub linkage: Linkage,
    pub visibility: Visibility,
    pub dll_storage_class: DLLStorageClass,
    pub calling_convention: CallingConvention,
    pub alignment: u32,
    pub garbage_collector_name: Option<String>,
}

/// A parameter of a function: its name, type and attributes.
#[derive(PartialEq, Clone, Debug, Hash)]
pub struct Parameter {
    pub name: Name,
    pub ty: TypeRef,
    pub attributes: Vec<ParameterAttribute>,
}

impl Typed for Parameter {
    open spec fn typed_ok(&self) -> bool {
        true
    }

    open spec fn typed_view(&self) -> TypeV {
        self.ty@
    }

    fn get_type(&self, _types: &Types) -> (t: TypeRef) {
        self.ty.clone()
    }
}

/// A calling convention, or one given by its number.
#[derive(PartialEq, Eq, Clone, Copy, Debug, Hash, Structural)]
#[allow(non_camel_case_types)]
pub enum CallingConvention {
    C,
    Fast,
    Cold,
    GHC,
    HiPE,
    WebKit_JS,
    AnyReg,
    PreserveMost,
    PreserveAll,
    Swift,
    CXX_FastTLS,
    X86_StdCall,
    X86_FastCall,
    X86_RegCall,
    X86_ThisCall,
    X86_VectorCall,
    X86_Intr,
    X86_64_SysV,
    ARM_APCS,
    ARM_AAPCS,
    ARM_AAPCS_VFP,
    MSP430_INTR,
    MSP430_Builtin,
    PTX_Kernel,
    PTX_Device,
    SPIR_FUNC,
    SPIR_KERNEL,
    Intel_OCL_BI,
    Win64,
    HHVM,
    HHVM_C,
    AVR_Intr,
    AVR_Signal,
    AVR_Builtin,
    AMDGPU_CS,
    AMDGPU_ES,
    AMDGPU_GS,
    AMDGPU_HS,
    AMDGPU_LS,
    AMDGPU_PS,
    AMDGPU_VS,
    AMDGPU_Kernel,
    Numbered(u32),
}

/// The memory a function may read or write, for one kind of memory.
#[derive(PartialEq, Eq, Clone, Copy, Debug, Hash, Structural)]
pub enum MemoryEffect {
    NoEffect,
    Read,
    Write,
    ReadWrite,
}

impl MemoryEffect {
    /// The effect that LLVM encodes in two bits: bit 0 for reading, bit 1
    /// for writing.  Any larger value is refused by `requires`.
    pub fn from_llvm_bits(val: u64) -> (e: Self)
        requires
            val < 4,
        ensures
            e == (if val == 0 {
                MemoryEffect::NoEffect
            } else if val == 1 {
                MemoryEffect::Read
            } else if val == 2 {
                MemoryEffect::Write
            } else {
                MemoryEffect::ReadWrite
            }),
    {
        match val {
            0 => MemoryEffect::NoEffect,
            1 => MemoryEffect::Read,
            2 => MemoryEffect::Write,
            _ => MemoryEffect::ReadWrite,
        }
    }
}

/// An attribute of a function.
#[derive(PartialEq, Eq, Clone, Debug, Hash)]
pub enum FunctionAttribute {
    AlignStack(u64),
    AllocSize { elt_size: u32, num_elts: Option<u32> },
    AlwaysInline,
    Builtin,
    Cold,
    Convergent,
    InaccessibleMemOnly,
    InaccessibleMemOrArgMemOnly,
    InlineHint,
    JumpTable,
    MinimizeSize,
    Naked,
    NoBuiltin,
    NoCFCheck,
    NoDuplicate,
    NoFree,
    NoImplicitFloat,
    NoInline,
    NoMerge,
    NonLazyBind,
    NoRedZone,
    NoReturn,
    NoRecurse,
    WillReturn,
    ReturnsTwice,
    NoSync,
    NoUnwind,
    NullPointerIsValid,
    OptForFuzzing,
    OptNone,
    OptSize,
    ReadNone,
    ReadOnly,
    WriteOnly,
    ArgMemOnly,
    SafeStack,
    SanitizeAddress,
    SanitizeMemory,
    SanitizeThread,
    SanitizeHWAddress,
    SanitizeMemTag,
    ShadowCallStack,
    SpeculativeLoadHardening,
    Speculatable,
    StackProtect,
    StackProtectReq,
    StackProtectStrong,
    StrictFP,
    UWTable,
    Memory { default: MemoryEffect, argmem: MemoryEffect, inaccessible_mem: MemoryEffect },
    /// A string attribute; an attribute without a value has `""`.
    StringAttribute { kind: String, value: String },
    /// An attribute not in this list.
    UnknownAttribute,
}

/// An attribute of a parameter or of a return value.
#[derive(PartialEq, Eq, Clone, Debug, Hash)]
pub enum ParameterAttribute {
    ZeroExt,
    SignExt,
    InReg,
    ByVal(TypeRef),
    Preallocated(TypeRef),
    InAlloca(TypeRef),
    SRet(TypeRef),
    Alignment(u64),
    NoAlias,
    NoCapture,
    NoFree,
    Nest,
    Returned,
    NonNull,
    Dereferenceable(u64),
    DereferenceableOrNull(u64),
    SwiftSelf,
    SwiftError,
    ImmArg,
    NoUndef,
    /// A string attribute; an attribute without a value has `""`.
    StringAttribute { kind: String, value: String },
    /// An attribute not in this list.
    UnknownAttribute,
    /// A type attribute not in this list.
    UnknownTypeAttribute(TypeRef),
}

} // verus!
