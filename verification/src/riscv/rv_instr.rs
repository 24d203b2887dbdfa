//! RV64 instructions over machine registers, and their assembly text.
use vstd::prelude::*;
use crate::gensym::{decimal, decimal_string};
use crate::numfmt::{hex, hex_string, signed_decimal, signed_decimal_string};
use crate::riscv::rv_imm::{zeroed_bits_value, I24, I24WithZeroedBits};
use crate::riscv::rv_reg::Reg;

verus! {

broadcast use vstd::string::group_string_axioms;

/// `mn a, b, c`
pub open spec fn three_form(mn: Seq<char>, a: Seq<char>, b: Seq<char>, c: Seq<char>) -> Seq<char> {
    mn + " "@ + a + ", "@ + b + ", "@ + c
}

/// `mn a, b`
pub open spec fn two_form(mn: Seq<char>, a: Seq<char>, b: Seq<char>) -> Seq<char> {
    mn + " "@ + a + ", "@ + b
}

/// `mn r, offset(base)`
pub open spec fn memory_form(mn: Seq<char>, r: Seq<char>, offset: Seq<char>, base: Seq<char>) -> Seq<
    char,
> {
    mn + " "@ + r + ", "@ + offset + "("@ + base + ")"@
}

/// The upper immediate that `lui` and `auipc` print: the bits above the low
/// twelve of the number stored in `stored`, as an unsigned 32-bit number.
pub open spec fn upper_immediate(stored: int) -> nat {
    (((zeroed_bits_value(stored, 12) >> 12u32) as u32) as nat)
}

/// The text `mn a, b, c`.
pub fn three_operands(mn: &str, a: String, b: String, c: String) -> (s: String)
    ensures
        s@ == three_form(mn@, a@, b@, c@),
{
    let mut s = mn.to_string();
    s.append(" ");
    s.append(a.as_str());
    s.append(", ");
    s.append(b.as_str());
    s.append(", ");
    s.append(c.as_str());
    s
}

/// The text `mn a, b`.
pub fn two_operands(mn: &str, a: String, b: String) -> (s: String)
    ensures
        s@ == two_form(mn@, a@, b@),
{
    let mut s = mn.to_string();
    s.append(" ");
    s.append(a.as_str());
    s.append(", ");
    s.append(b.as_str());
    s
}

/// The text `mn r, offset(base)`.
pub fn memory_operands(mn: &str, r: String, offset: String, base: String) -> (s: String)
    ensures
        s@ == memory_form(mn@, r@, offset@, base@),
{
    let mut s = mn.to_string();
    s.append(" ");
    s.append(r.as_str());
    s.append(", ");
    s.append(offset.as_str());
    s.append("(");
    s.append(base.as_str());
    s.append(")");
    s
}

/// The upper immediate of a `lui` or `auipc`, as `0x` and hex digits.
pub fn upper_immediate_string(imm: &I24WithZeroedBits<12>) -> (s: String)
    ensures
        s@ == "0x"@ + hex(upper_immediate(imm@)),
{
    let v = imm.to_i32() >> 12u32;
    let digits = hex_string(v as u32 as u64);
    let mut s = "0x".to_string();
    s.append(digits.as_str());
    s
}

/// A RISC-V RV64 instruction.
#[derive(Debug, Clone, PartialEq)]
pub enum RvInst {
    Add { rd: Reg, rs1: Reg, rs2: Reg },
    Sub { rd: Reg, rs1: Reg, rs2: Reg },
    Sll { rd: Reg, rs1: Reg, rs2: Reg },
    Slt { rd: Reg, rs1: Reg, rs2: Reg },
    Sltu { rd: Reg, rs1: Reg, rs2: Reg },
    Xor { rd: Reg, rs1: Reg, rs2: Reg },
    Srl { rd: Reg, rs1: Reg, rs2: Reg },
    Sra { rd: Reg, rs1: Reg, rs2: Reg },
    Or { rd: Reg, rs1: Reg, rs2: Reg },
    And { rd: Reg, rs1: Reg, rs2: Reg },
    Addw { rd: Reg, rs1: Reg, rs2: Reg },
    Subw { rd: Reg, rs1: Reg, rs2: Reg },
    Sllw { rd: Reg, rs1: Reg, rs2: Reg },
    Srlw { rd: Reg, rs1: Reg, rs2: Reg },
    Sraw { rd: Reg, rs1: Reg, rs2: Reg },
    Addi { rd: Reg, rs1: Reg, imm: i16 },
    Slti { rd: Reg, rs1: Reg, imm: i16 },
    Sltiu { rd: Reg, rs1: Reg, imm: i16 },
    Xori { rd: Reg, rs1: Reg, imm: i16 },
    Ori { rd: Reg, rs1: Reg, imm: i16 },
    Andi { rd: Reg, rs1: Reg, imm: i16 },
    Slli { rd: Reg, rs1: Reg, shamt: u8 },
    Srli { rd: Reg, rs1: Reg, shamt: u8 },
    Srai { rd: Reg, rs1: Reg, shamt: u8 },
    Addiw { rd: Reg, rs1: Reg, imm: i16 },
    Slliw { rd: Reg, rs1: Reg, shamt: u8 },
    Srliw { rd: Reg, rs1: Reg, shamt: u8 },
    Sraiw { rd: Reg, rs1: Reg, shamt: u8 },
    Lb { rd: Reg, rs1: Reg, imm: i16 },
    Lh { rd: Reg, rs1: Reg, imm: i16 },
    Lw { rd: Reg, rs1: Reg, imm: i16 },
    Ld { rd: Reg, rs1: Reg, imm: i16 },
    Lbu { rd: Reg, rs1: Reg, imm: i16 },
    Lhu { rd: Reg, rs1: Reg, imm: i16 },
    Lwu { rd: Reg, rs1: Reg, imm: i16 },
    Jalr { rd: Reg, rs1: Reg, imm: i16 },
    Sb { rs2: Reg, rs1: Reg, imm: i16 },
    Sh { rs2: Reg, rs1: Reg, imm: i16 },
    Sw { rs2: Reg, rs1: Reg, imm: i16 },
    Sd { rs2: Reg, rs1: Reg, imm: i16 },
    Beq { rs1: Reg, rs2: Reg, imm: I24 },
    Bne { rs1: Reg, rs2: Reg, imm: I24 },
    Blt { rs1: Reg, rs2: Reg, imm: I24 },
    Bge { rs1: Reg, rs2: Reg, imm: I24 },
    Bltu { rs1: Reg, rs2: Reg, imm: I24 },
    Bgeu { rs1: Reg, rs2: Reg, imm: I24 },
    Lui { rd: Reg, imm: I24WithZeroedBits<12> },
    Auipc { rd: Reg, imm: I24WithZeroedBits<12> },
    Jal { rd: Reg, imm: I24 },
    Fence { pred: u8, succ: u8 },
    FenceTso,
    Ecall,
    Ebreak,
    Unimp,
}

/// The assembly text of an instruction.
pub open spec fn inst_text(i: RvInst) -> Seq<char> {
    match i {
        RvInst::Add { rd, rs1, rs2 } => three_form("add"@, rd.spec_name(), rs1.spec_name(), rs2.spec_name()),
        RvInst::Sub { rd, rs1, rs2 } => three_form("sub"@, rd.spec_name(), rs1.spec_name(), rs2.spec_name()),
        RvInst::Sll { rd, rs1, rs2 } => three_form("sll"@, rd.spec_name(), rs1.spec_name(), rs2.spec_name()),
        RvInst::Slt { rd, rs1, rs2 } => three_form("slt"@, rd.spec_name(), rs1.spec_name(), rs2.spec_name()),
        RvInst::Sltu { rd, rs1, rs2 } => three_form("sltu"@, rd.spec_name(), rs1.spec_name(), rs2.spec_name()),
        RvInst::Xor { rd, rs1, rs2 } => three_form("xor"@, rd.spec_name(), rs1.spec_name(), rs2.spec_name()),
        RvInst::Srl { rd, rs1, rs2 } => three_form("srl"@, rd.spec_name(), rs1.spec_name(), rs2.spec_name()),
        RvInst::Sra { rd, rs1, rs2 } => three_form("sra"@, rd.spec_name(), rs1.spec_name(), rs2.spec_name()),
        RvInst::Or { rd, rs1, rs2 } => three_form("or"@, rd.spec_name(), rs1.spec_name(), rs2.spec_name()),
        RvInst::And { rd, rs1, rs2 } => three_form("and"@, rd.spec_name(), rs1.spec_name(), rs2.spec_name()),
        RvInst::Addw { rd, rs1, rs2 } => three_form("addw"@, rd.spec_name(), rs1.spec_name(), rs2.spec_name()),
        RvInst::Subw { rd, rs1, rs2 } => three_form("subw"@, rd.spec_name(), rs1.spec_name(), rs2.spec_name()),
        RvInst::Sllw { rd, rs1, rs2 } => three_form("sllw"@, rd.spec_name(), rs1.spec_name(), rs2.spec_name()),
        RvInst::Srlw { rd, rs1, rs2 } => three_form("srlw"@, rd.spec_name(), rs1.spec_name(), rs2.spec_name()),
        RvInst::Sraw { rd, rs1, rs2 } => three_form("sraw"@, rd.spec_name(), rs1.spec_name(), rs2.spec_name()),
        RvInst::Addi { rd, rs1, imm } => three_form("addi"@, rd.spec_name(), rs1.spec_name(), signed_decimal(imm as int)),
        RvInst::Slti { rd, rs1, imm } => three_form("slti"@, rd.spec_name(), rs1.spec_name(), signed_decimal(imm as int)),
        RvInst::Sltiu { rd, rs1, imm } => three_form("sltiu"@, rd.spec_name(), rs1.spec_name(), signed_decimal(imm as int)),
        RvInst::Xori { rd, rs1, imm } => three_form("xori"@, rd.spec_name(), rs1.spec_name(), signed_decimal(imm as int)),
        RvInst::Ori { rd, rs1, imm } => three_form("ori"@, rd.spec_name(), rs1.spec_name(), signed_decimal(imm as int)),
        RvInst::Andi { rd, rs1, imm } => three_form("andi"@, rd.spec_name(), rs1.spec_name(), signed_decimal(imm as int)),
        RvInst::Slli { rd, rs1, shamt } => three_form("slli"@, rd.spec_name(), rs1.spec_name(), decimal(shamt as nat)),
        RvInst::Srli { rd, rs1, shamt } => three_form("srli"@, rd.spec_name(), rs1.spec_name(), decimal(shamt as nat)),
        RvInst::Srai { rd, rs1, shamt } => three_form("srai"@, rd.spec_name(), rs1.spec_name(), decimal(shamt as nat)),
        RvInst::Addiw { rd, rs1, imm } => three_form("addiw"@, rd.spec_name(), rs1.spec_name(), signed_decimal(imm as int)),
        RvInst::Slliw { rd, rs1, shamt } => three_form("slliw"@, rd.spec_name(), rs1.spec_name(), decimal(shamt as nat)),
        RvInst::Srliw { rd, rs1, shamt } => three_form("srliw"@, rd.spec_name(), rs1.spec_name(), decimal(shamt as nat)),
        RvInst::Sraiw { rd, rs1, shamt } => three_form("sraiw"@, rd.spec_name(), rs1.spec_name(), decimal(shamt as nat)),
        RvInst::Lb { rd, rs1, imm } => memory_form("lb"@, rd.spec_name(), signed_decimal(imm as int), rs1.spec_name()),
        RvInst::Lh { rd, rs1, imm } => memory_form("lh"@, rd.spec_name(), signed_decimal(imm as int), rs1.spec_name()),
        RvInst::Lw { rd, rs1, imm } => memory_form("lw"@, rd.spec_name(), signed_decimal(imm as int), rs1.spec_name()),
        RvInst::Ld { rd, rs1, imm } => memory_form("ld"@, rd.spec_name(), signed_decimal(imm as int), rs1.spec_name()),
        RvInst::Lbu { rd, rs1, imm } => memory_form("lbu"@, rd.spec_name(), signed_decimal(imm as int), rs1.spec_name()),
        RvInst::Lhu { rd, rs1, imm } => memory_form("lhu"@, rd.spec_name(), signed_decimal(imm as int), rs1.spec_name()),
        RvInst::Lwu { rd, rs1, imm } => memory_form("lwu"@, rd.spec_name(), signed_decimal(imm as int), rs1.spec_name()),
        RvInst::Jalr { rd, rs1, imm } => memory_form("jalr"@, rd.spec_name(), signed_decimal(imm as int), rs1.spec_name()),
        RvInst::Sb { rs2, rs1, imm } => memory_form("sb"@, rs2.spec_name(), signed_decimal(imm as int), rs1.spec_name()),
        RvInst::Sh { rs2, rs1, imm } => memory_form("sh"@, rs2.spec_name(), signed_decimal(imm as int), rs1.spec_name()),
        RvInst::Sw { rs2, rs1, imm } => memory_form("sw"@, rs2.spec_name(), signed_decimal(imm as int), rs1.spec_name()),
        RvInst::Sd { rs2, rs1, imm } => memory_form("sd"@, rs2.spec_name(), signed_decimal(imm as int), rs1.spec_name()),
        RvInst::Beq { rs1, rs2, imm } => three_form("beq"@, rs1.spec_name(), rs2.spec_name(), signed_decimal(imm@)),
        RvInst::Bne { rs1, rs2, imm } => three_form("bne"@, rs1.spec_name(), rs2.spec_name(), signed_decimal(imm@)),
        RvInst::Blt { rs1, rs2, imm } => three_form("blt"@, rs1.spec_name(), rs2.spec_name(), signed_decimal(imm@)),
        RvInst::Bge { rs1, rs2, imm } => three_form("bge"@, rs1.spec_name(), rs2.spec_name(), signed_decimal(imm@)),
        RvInst::Bltu { rs1, rs2, imm } => three_form("bltu"@, rs1.spec_name(), rs2.spec_name(), signed_decimal(imm@)),
        RvInst::Bgeu { rs1, rs2, imm } => three_form("bgeu"@, rs1.spec_name(), rs2.spec_name(), signed_decimal(imm@)),
        RvInst::Lui { rd, imm } => two_form("lui"@, rd.spec_name(), "0x"@ + hex(upper_immediate(imm@))),
        RvInst::Auipc { rd, imm } => two_form("auipc"@, rd.spec_name(), "0x"@ + hex(upper_immediate(imm@))),
        RvInst::Jal { rd, imm } => two_form("jal"@, rd.spec_name(), signed_decimal(imm@)),
        RvInst::Fence { pred, succ } => two_form("fence"@, decimal(pred as nat), decimal(succ as nat)),
        RvInst::FenceTso => "fence.tso"@,
        RvInst::Ecall => "ecall"@,
        RvInst::Ebreak => "ebreak"@,
        RvInst::Unimp => "unimp"@,
    }
}

impl RvInst {
    /// The assembly text of the instruction.
    pub fn to_string(&self) -> (s: String)
        ensures
            s@ == inst_text(*self),
    {
        match self {
            RvInst::Add { rd, rs1, rs2 } => three_operands("add", rd.to_string(), rs1.to_string(), rs2.to_string()),
            RvInst::Sub { rd, rs1, rs2 } => three_operands("sub", rd.to_string(), rs1.to_string(), rs2.to_string()),
            RvInst::Sll { rd, rs1, rs2 } => three_operands("sll", rd.to_string(), rs1.to_string(), rs2.to_string()),
            RvInst::Slt { rd, rs1, rs2 } => three_operands("slt", rd.to_string(), rs1.to_string(), rs2.to_string()),
            RvInst::Sltu { rd, rs1, rs2 } => three_operands("sltu", rd.to_string(), rs1.to_string(), rs2.to_string()),
            RvInst::Xor { rd, rs1, rs2 } => three_operands("xor", rd.to_string(), rs1.to_string(), rs2.to_string()),
            RvInst::Srl { rd, rs1, rs2 } => three_operands("srl", rd.to_string(), rs1.to_string(), rs2.to_string()),
            RvInst::Sra { rd, rs1, rs2 } => three_operands("sra", rd.to_string(), rs1.to_string(), rs2.to_string()),
            RvInst::Or { rd, rs1, rs2 } => three_operands("or", rd.to_string(), rs1.to_string(), rs2.to_string()),
            RvInst::And { rd, rs1, rs2 } => three_operands("and", rd.to_string(), rs1.to_string(), rs2.to_string()),
            RvInst::Addw { rd, rs1, rs2 } => three_operands("addw", rd.to_string(), rs1.to_string(), rs2.to_string()),
            RvInst::Subw { rd, rs1, rs2 } => three_operands("subw", rd.to_string(), rs1.to_string(), rs2.to_string()),
            RvInst::Sllw { rd, rs1, rs2 } => three_operands("sllw", rd.to_string(), rs1.to_string(), rs2.to_string()),
            RvInst::Srlw { rd, rs1, rs2 } => three_operands("srlw", rd.to_string(), rs1.to_string(), rs2.to_string()),
            RvInst::Sraw { rd, rs1, rs2 } => three_operands("sraw", rd.to_string(), rs1.to_string(), rs2.to_string()),
            RvInst::Addi { rd, rs1, imm } => three_operands("addi", rd.to_string(), rs1.to_string(), signed_decimal_string(*imm as i64)),
            RvInst::Slti { rd, rs1, imm } => three_operands("slti", rd.to_string(), rs1.to_string(), signed_decimal_string(*imm as i64)),
            RvInst::Sltiu { rd, rs1, imm } => three_operands("sltiu", rd.to_string(), rs1.to_string(), signed_decimal_string(*imm as i64)),
            RvInst::Xori { rd, rs1, imm } => three_operands("xori", rd.to_string(), rs1.to_string(), signed_decimal_string(*imm as i64)),
            RvInst::Ori { rd, rs1, imm } => three_operands("ori", rd.to_string(), rs1.to_string(), signed_decimal_string(*imm as i64)),
            RvInst::Andi { rd, rs1, imm } => three_operands("andi", rd.to_string(), rs1.to_string(), signed_decimal_string(*imm as i64)),
            RvInst::Slli { rd, rs1, shamt } => three_operands("slli", rd.to_string(), rs1.to_string(), decimal_string(*shamt as u64)),
            RvInst::Srli { rd, rs1, shamt } => three_operands("srli", rd.to_string(), rs1.to_string(), decimal_string(*shamt as u64)),
            RvInst::Srai { rd, rs1, shamt } => three_operands("srai", rd.to_string(), rs1.to_string(), decimal_string(*shamt as u64)),
            RvInst::Addiw { rd, rs1, imm } => three_operands("addiw", rd.to_string(), rs1.to_string(), signed_decimal_string(*imm as i64)),
            RvInst::Slliw { rd, rs1, shamt } => three_operands("slliw", rd.to_string(), rs1.to_string(), decimal_string(*shamt as u64)),
            RvInst::Srliw { rd, rs1, shamt } => three_operands("srliw", rd.to_string(), rs1.to_string(), decimal_string(*shamt as u64)),
            RvInst::Sraiw { rd, rs1, shamt } => three_operands("sraiw", rd.to_string(), rs1.to_string(), decimal_string(*shamt as u64)),
            RvInst::Lb { rd, rs1, imm } => memory_operands("lb", rd.to_string(), signed_decimal_string(*imm as i64), rs1.to_string()),
            RvInst::Lh { rd, rs1, imm } => memory_operands("lh", rd.to_string(), signed_decimal_string(*imm as i64), rs1.to_string()),
            RvInst::Lw { rd, rs1, imm } => memory_operands("lw", rd.to_string(), signed_decimal_string(*imm as i64), rs1.to_string()),
            RvInst::Ld { rd, rs1, imm } => memory_operands("ld", rd.to_string(), signed_decimal_string(*imm as i64), rs1.to_string()),
            RvInst::Lbu { rd, rs1, imm } => memory_operands("lbu", rd.to_string(), signed_decimal_string(*imm as i64), rs1.to_string()),
            RvInst::Lhu { rd, rs1, imm } => memory_operands("lhu", rd.to_string(), signed_decimal_string(*imm as i64), rs1.to_string()),
            RvInst::Lwu { rd, rs1, imm } => memory_operands("lwu", rd.to_string(), signed_decimal_string(*imm as i64), rs1.to_string()),
            RvInst::Jalr { rd, rs1, imm } => memory_operands("jalr", rd.to_string(), signed_decimal_string(*imm as i64), rs1.to_string()),
            RvInst::Sb { rs2, rs1, imm } => memory_operands("sb", rs2.to_string(), signed_decimal_string(*imm as i64), rs1.to_string()),
            RvInst::Sh { rs2, rs1, imm } => memory_operands("sh", rs2.to_string(), signed_decimal_string(*imm as i64), rs1.to_string()),
            RvInst::Sw { rs2, rs1, imm } => memory_operands("sw", rs2.to_string(), signed_decimal_string(*imm as i64), rs1.to_string()),
            RvInst::Sd { rs2, rs1, imm } => memory_operands("sd", rs2.to_string(), signed_decimal_string(*imm as i64), rs1.to_string()),
            RvInst::Beq { rs1, rs2, imm } => three_operands("beq", rs1.to_string(), rs2.to_string(), imm.to_string()),
            RvInst::Bne { rs1, rs2, imm } => three_operands("bne", rs1.to_string(), rs2.to_string(), imm.to_string()),
            RvInst::Blt { rs1, rs2, imm } => three_operands("blt", rs1.to_string(), rs2.to_string(), imm.to_string()),
            RvInst::Bge { rs1, rs2, imm } => three_operands("bge", rs1.to_string(), rs2.to_string(), imm.to_string()),
            RvInst::Bltu { rs1, rs2, imm } => three_operands("bltu", rs1.to_string(), rs2.to_string(), imm.to_string()),
            RvInst::Bgeu { rs1, rs2, imm } => three_operands("bgeu", rs1.to_string(), rs2.to_string(), imm.to_string()),
            RvInst::Lui { rd, imm } => two_operands("lui", rd.to_string(), upper_immediate_string(imm)),
            RvInst::Auipc { rd, imm } => two_operands("auipc", rd.to_string(), upper_immediate_string(imm)),
            RvInst::Jal { rd, imm } => two_operands("jal", rd.to_string(), imm.to_string()),
            RvInst::Fence { pred, succ } => two_operands("fence", decimal_string(*pred as u64), decimal_string(*succ as u64)),
            RvInst::FenceTso => "fence.tso".to_string(),
            RvInst::Ecall => "ecall".to_string(),
            RvInst::Ebreak => "ebreak".to_string(),
            RvInst::Unimp => "unimp".to_string(),
        }
    }
}

} // verus!
