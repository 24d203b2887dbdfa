//! RV64 instructions over locations: variables and machine registers.
use vstd::prelude::*;
use crate::gensym::{decimal, decimal_string};
use crate::numfmt::{hex, signed_decimal, signed_decimal_string};
use crate::riscv::rv_imm::{I24, I24WithZeroedBits};
use crate::riscv::rv_instr::{
    memory_form, memory_operands, three_form, three_operands, two_form, two_operands,
    upper_immediate, upper_immediate_string,
};
use crate::riscv_var::label::Label;
use crate::riscv_var::location::{location_name, zero, LocationV, RvVarLocation};

verus! {

broadcast use vstd::string::group_string_axioms;

/// A RISC-V RV64 instruction whose operands are locations.
#[derive(Debug, Clone, PartialEq)]
pub enum RvVarInstr {
    Add { rd: RvVarLocation, rs1: RvVarLocation, rs2: RvVarLocation },
    Sub { rd: RvVarLocation, rs1: RvVarLocation, rs2: RvVarLocation },
    Sll { rd: RvVarLocation, rs1: RvVarLocation, rs2: RvVarLocation },
    Slt { rd: RvVarLocation, rs1: RvVarLocation, rs2: RvVarLocation },
    Sltu { rd: RvVarLocation, rs1: RvVarLocation, rs2: RvVarLocation },
    Xor { rd: RvVarLocation, rs1: RvVarLocation, rs2: RvVarLocation },
    Srl { rd: RvVarLocation, rs1: RvVarLocation, rs2: RvVarLocation },
    Sra { rd: RvVarLocation, rs1: RvVarLocation, rs2: RvVarLocation },
    Or { rd: RvVarLocation, rs1: RvVarLocation, rs2: RvVarLocation },
    And { rd: RvVarLocation, rs1: RvVarLocation, rs2: RvVarLocation },
    Addw { rd: RvVarLocation, rs1: RvVarLocation, rs2: RvVarLocation },
    Subw { rd: RvVarLocation, rs1: RvVarLocation, rs2: RvVarLocation },
    Sllw { rd: RvVarLocation, rs1: RvVarLocation, rs2: RvVarLocation },
    Srlw { rd: RvVarLocation, rs1: RvVarLocation, rs2: RvVarLocation },
    Sraw { rd: RvVarLocation, rs1: RvVarLocation, rs2: RvVarLocation },
    Addi { rd: RvVarLocation, rs1: RvVarLocation, imm: i16 },
    Slti { rd: RvVarLocation, rs1: RvVarLocation, imm: i16 },
    Sltiu { rd: RvVarLocation, rs1: RvVarLocation, imm: i16 },
    Xori { rd: RvVarLocation, rs1: RvVarLocation, imm: i16 },
    Ori { rd: RvVarLocation, rs1: RvVarLocation, imm: i16 },
    Andi { rd: RvVarLocation, rs1: RvVarLocation, imm: i16 },
    Slli { rd: RvVarLocation, rs1: RvVarLocation, shamt: u8 },
    Srli { rd: RvVarLocation, rs1: RvVarLocation, shamt: u8 },
    Srai { rd: RvVarLocation, rs1: RvVarLocation, shamt: u8 },
    Addiw { rd: RvVarLocation, rs1: RvVarLocation, imm: i16 },
    Slliw { rd: RvVarLocation, rs1: RvVarLocation, shamt: u8 },
    Srliw { rd: RvVarLocation, rs1: RvVarLocation, shamt: u8 },
    Sraiw { rd: RvVarLocation, rs1: RvVarLocation, shamt: u8 },
    Lb { rd: RvVarLocation, rs1: RvVarLocation, imm: i16 },
    Lh { rd: RvVarLocation, rs1: RvVarLocation, imm: i16 },
    Lw { rd: RvVarLocation, rs1: RvVarLocation, imm: i16 },
    Ld { rd: RvVarLocation, rs1: RvVarLocation, imm: i16 },
    Lbu { rd: RvVarLocation, rs1: RvVarLocation, imm: i16 },
    Lhu { rd: RvVarLocation, rs1: RvVarLocation, imm: i16 },
    Lwu { rd: RvVarLocation, rs1: RvVarLocation, imm: i16 },
    Jalr { rd: RvVarLocation, rs1: RvVarLocation, imm: i16 },
    Sb { rs2: RvVarLocation, rs1: RvVarLocation, imm: i16 },
    Sh { rs2: RvVarLocation, rs1: RvVarLocation, imm: i16 },
    Sw { rs2: RvVarLocation, rs1: RvVarLocation, imm: i16 },
    Sd { rs2: RvVarLocation, rs1: RvVarLocation, imm: i16 },
    Beq { rs1: RvVarLocation, rs2: RvVarLocation, label: Label },
    Bne { rs1: RvVarLocation, rs2: RvVarLocation, label: Label },
    Blt { rs1: RvVarLocation, rs2: RvVarLocation, label: Label },
    Bge { rs1: RvVarLocation, rs2: RvVarLocation, label: Label },
    Bltu { rs1: RvVarLocation, rs2: RvVarLocation, label: Label },
    Bgeu { rs1: RvVarLocation, rs2: RvVarLocation, label: Label },
    Lui { rd: RvVarLocation, imm: I24WithZeroedBits<12> },
    Auipc { rd: RvVarLocation, imm: I24WithZeroedBits<12> },
    Jal { rd: RvVarLocation, imm: I24 },
    Fence { pred: u8, succ: u8 },
    FenceTso,
    Ecall,
    Ebreak,
    Unimp,
}

/// `seqz rd, rs`: `rd` is one when `rs` is zero, else zero.
pub fn seqz(rd: RvVarLocation, rs: RvVarLocation) -> (i: RvVarInstr)
    ensures
        i matches RvVarInstr::Sltiu { rd: d, rs1: s, imm } && d@ == rd@ && s@ == rs@ && imm == 1,
{
    RvVarInstr::Sltiu { rd: rd, rs1: rs, imm: 1 }
}

/// `snez rd, rs`: `rd` is one when `rs` is not zero, else zero.
pub fn snez(rd: RvVarLocation, rs: RvVarLocation) -> (i: RvVarInstr)
    ensures
        i matches RvVarInstr::Sltu { rd: d, rs1: z, rs2: s } && d@ == rd@ && z@ == LocationV::IReg(
            crate::riscv::rv64imfd_reg::IReg::ZERO,
        ) && s@ == rs@,
{
    RvVarInstr::Sltu { rd: rd, rs1: zero(), rs2: rs }
}

/// Whether the instruction names a label: the conditional branches.
pub open spec fn has_label(i: RvVarInstr) -> bool {
    i is Beq || i is Bne || i is Blt || i is Bge || i is Bltu || i is Bgeu
}

/// The assembly text of an instruction that names no label.
pub open spec fn var_inst_text(i: RvVarInstr) -> Seq<char> {
    match i {
        RvVarInstr::Add { rd, rs1, rs2 } => three_form("add"@, location_name(rd@), location_name(rs1@), location_name(rs2@)),
        RvVarInstr::Sub { rd, rs1, rs2 } => three_form("sub"@, location_name(rd@), location_name(rs1@), location_name(rs2@)),
        RvVarInstr::Sll { rd, rs1, rs2 } => three_form("sll"@, location_name(rd@), location_name(rs1@), location_name(rs2@)),
        RvVarInstr::Slt { rd, rs1, rs2 } => three_form("slt"@, location_name(rd@), location_name(rs1@), location_name(rs2@)),
        RvVarInstr::Sltu { rd, rs1, rs2 } => three_form("sltu"@, location_name(rd@), location_name(rs1@), location_name(rs2@)),
        RvVarInstr::Xor { rd, rs1, rs2 } => three_form("xor"@, location_name(rd@), location_name(rs1@), location_name(rs2@)),
        RvVarInstr::Srl { rd, rs1, rs2 } => three_form("srl"@, location_name(rd@), location_name(rs1@), location_name(rs2@)),
        RvVarInstr::Sra { rd, rs1, rs2 } => three_form("sra"@, location_name(rd@), location_name(rs1@), location_name(rs2@)),
        RvVarInstr::Or { rd, rs1, rs2 } => three_form("or"@, location_name(rd@), location_name(rs1@), location_name(rs2@)),
        RvVarInstr::And { rd, rs1, rs2 } => three_form("and"@, location_name(rd@), location_name(rs1@), location_name(rs2@)),
        RvVarInstr::Addw { rd, rs1, rs2 } => three_form("addw"@, location_name(rd@), location_name(rs1@), location_name(rs2@)),
        RvVarInstr::Subw { rd, rs1, rs2 } => three_form("subw"@, location_name(rd@), location_name(rs1@), location_name(rs2@)),
        RvVarInstr::Sllw { rd, rs1, rs2 } => three_form("sllw"@, location_name(rd@), location_name(rs1@), location_name(rs2@)),
        RvVarInstr::Srlw { rd, rs1, rs2 } => three_form("srlw"@, location_name(rd@), location_name(rs1@), location_name(rs2@)),
        RvVarInstr::Sraw { rd, rs1, rs2 } => three_form("sraw"@, location_name(rd@), location_name(rs1@), location_name(rs2@)),
        RvVarInstr::Addi { rd, rs1, imm } => three_form("addi"@, location_name(rd@), location_name(rs1@), signed_decimal(imm as int)),
        RvVarInstr::Slti { rd, rs1, imm } => three_form("slti"@, location_name(rd@), location_name(rs1@), signed_decimal(imm as int)),
        RvVarInstr::Sltiu { rd, rs1, imm } => three_form("sltiu"@, location_name(rd@), location_name(rs1@), signed_decimal(imm as int)),
        RvVarInstr::Xori { rd, rs1, imm } => three_form("xori"@, location_name(rd@), location_name(rs1@), signed_decimal(imm as int)),
        RvVarInstr::Ori { rd, rs1, imm } => three_form("ori"@, location_name(rd@), location_name(rs1@), signed_decimal(imm as int)),
        RvVarInstr::Andi { rd, rs1, imm } => three_form("andi"@, location_name(rd@), location_name(rs1@), signed_decimal(imm as int)),
        RvVarInstr::Slli { rd, rs1, shamt } => three_form("slli"@, location_name(rd@), location_name(rs1@), decimal(shamt as nat)),
        RvVarInstr::Srli { rd, rs1, shamt } => three_form("srli"@, location_name(rd@), location_name(rs1@), decimal(shamt as nat)),
        RvVarInstr::Srai { rd, rs1, shamt } => three_form("srai"@, location_name(rd@), location_name(rs1@), decimal(shamt as nat)),
        RvVarInstr::Addiw { rd, rs1, imm } => three_form("addiw"@, location_name(rd@), location_name(rs1@), signed_decimal(imm as int)),
        RvVarInstr::Slliw { rd, rs1, shamt } => three_form("slliw"@, location_name(rd@), location_name(rs1@), decimal(shamt as nat)),
        RvVarInstr::Srliw { rd, rs1, shamt } => three_form("srliw"@, location_name(rd@), location_name(rs1@), decimal(shamt as nat)),
        RvVarInstr::Sraiw { rd, rs1, shamt } => three_form("sraiw"@, location_name(rd@), location_name(rs1@), decimal(shamt as nat)),
        RvVarInstr::Lb { rd, rs1, imm } => memory_form("lb"@, location_name(rd@), signed_decimal(imm as int), location_name(rs1@)),
        RvVarInstr::Lh { rd, rs1, imm } => memory_form("lh"@, location_name(rd@), signed_decimal(imm as int), location_name(rs1@)),
        RvVarInstr::Lw { rd, rs1, imm } => memory_form("lw"@, location_name(rd@), signed_decimal(imm as int), location_name(rs1@)),
        RvVarInstr::Ld { rd, rs1, imm } => memory_form("ld"@, location_name(rd@), signed_decimal(imm as int), location_name(rs1@)),
        RvVarInstr::Lbu { rd, rs1, imm } => memory_form("lbu"@, location_name(rd@), signed_decimal(imm as int), location_name(rs1@)),
        RvVarInstr::Lhu { rd, rs1, imm } => memory_form("lhu"@, location_name(rd@), signed_decimal(imm as int), location_name(rs1@)),
        RvVarInstr::Lwu { rd, rs1, imm } => memory_form("lwu"@, location_name(rd@), signed_decimal(imm as int), location_name(rs1@)),
        RvVarInstr::Jalr { rd, rs1, imm } => memory_form("jalr"@, location_name(rd@), signed_decimal(imm as int), location_name(rs1@)),
        RvVarInstr::Sb { rs2, rs1, imm } => memory_form("sb"@, location_name(rs2@), signed_decimal(imm as int), location_name(rs1@)),
        RvVarInstr::Sh { rs2, rs1, imm } => memory_form("sh"@, location_name(rs2@), signed_decimal(imm as int), location_name(rs1@)),
        RvVarInstr::Sw { rs2, rs1, imm } => memory_form("sw"@, location_name(rs2@), signed_decimal(imm as int), location_name(rs1@)),
        RvVarInstr::Sd { rs2, rs1, imm } => memory_form("sd"@, location_name(rs2@), signed_decimal(imm as int), location_name(rs1@)),
        RvVarInstr::Beq { .. } => Seq::empty(),
        RvVarInstr::Bne { .. } => Seq::empty(),
        RvVarInstr::Blt { .. } => Seq::empty(),
        RvVarInstr::Bge { .. } => Seq::empty(),
        RvVarInstr::Bltu { .. } => Seq::empty(),
        RvVarInstr::Bgeu { .. } => Seq::empty(),
        RvVarInstr::Lui { rd, imm } => two_form("lui"@, location_name(rd@), "0x"@ + hex(upper_immediate(imm@))),
        RvVarInstr::Auipc { rd, imm } => two_form("auipc"@, location_name(rd@), "0x"@ + hex(upper_immediate(imm@))),
        RvVarInstr::Jal { rd, imm } => two_form("jal"@, location_name(rd@), signed_decimal(imm@)),
        RvVarInstr::Fence { pred, succ } => two_form("fence"@, decimal(pred as nat), decimal(succ as nat)),
        RvVarInstr::FenceTso => "fence.tso"@,
        RvVarInstr::Ecall => "ecall"@,
        RvVarInstr::Ebreak => "ebreak"@,
        RvVarInstr::Unimp => "unimp"@,
    }
}

/// The location an instruction writes, if any.
pub open spec fn dest_spec(i: RvVarInstr) -> Option<LocationV> {
    match i {
        RvVarInstr::Add { rd, .. } => Some(rd@),
        RvVarInstr::Sub { rd, .. } => Some(rd@),
        RvVarInstr::Sll { rd, .. } => Some(rd@),
        RvVarInstr::Slt { rd, .. } => Some(rd@),
        RvVarInstr::Sltu { rd, .. } => Some(rd@),
        RvVarInstr::Xor { rd, .. } => Some(rd@),
        RvVarInstr::Srl { rd, .. } => Some(rd@),
        RvVarInstr::Sra { rd, .. } => Some(rd@),
        RvVarInstr::Or { rd, .. } => Some(rd@),
        RvVarInstr::And { rd, .. } => Some(rd@),
        RvVarInstr::Addw { rd, .. } => Some(rd@),
        RvVarInstr::Subw { rd, .. } => Some(rd@),
        RvVarInstr::Sllw { rd, .. } => Some(rd@),
        RvVarInstr::Srlw { rd, .. } => Some(rd@),
        RvVarInstr::Sraw { rd, .. } => Some(rd@),
        RvVarInstr::Addi { rd, .. } => Some(rd@),
        RvVarInstr::Slti { rd, .. } => Some(rd@),
        RvVarInstr::Sltiu { rd, .. } => Some(rd@),
        RvVarInstr::Xori { rd, .. } => Some(rd@),
        RvVarInstr::Ori { rd, .. } => Some(rd@),
        RvVarInstr::Andi { rd, .. } => Some(rd@),
        RvVarInstr::Slli { rd, .. } => Some(rd@),
        RvVarInstr::Srli { rd, .. } => Some(rd@),
        RvVarInstr::Srai { rd, .. } => Some(rd@),
        RvVarInstr::Addiw { rd, .. } => Some(rd@),
        RvVarInstr::Slliw { rd, .. } => Some(rd@),
        RvVarInstr::Srliw { rd, .. } => Some(rd@),
        RvVarInstr::Sraiw { rd, .. } => Some(rd@),
        RvVarInstr::Lb { rd, .. } => Some(rd@),
        RvVarInstr::Lh { rd, .. } => Some(rd@),
        RvVarInstr::Lw { rd, .. } => Some(rd@),
        RvVarInstr::Ld { rd, .. } => Some(rd@),
        RvVarInstr::Lbu { rd, .. } => Some(rd@),
        RvVarInstr::Lhu { rd, .. } => Some(rd@),
        RvVarInstr::Lwu { rd, .. } => Some(rd@),
        RvVarInstr::Jalr { rd, .. } => Some(rd@),
        RvVarInstr::Sb { .. } => None,
        RvVarInstr::Sh { .. } => None,
        RvVarInstr::Sw { .. } => None,
        RvVarInstr::Sd { .. } => None,
        RvVarInstr::Beq { .. } => None,
        RvVarInstr::Bne { .. } => None,
        RvVarInstr::Blt { .. } => None,
        RvVarInstr::Bge { .. } => None,
        RvVarInstr::Bltu { .. } => None,
        RvVarInstr::Bgeu { .. } => None,
        RvVarInstr::Lui { rd, .. } => Some(rd@),
        RvVarInstr::Auipc { rd, .. } => Some(rd@),
        RvVarInstr::Jal { rd, .. } => Some(rd@),
        RvVarInstr::Fence { .. } => None,
        RvVarInstr::FenceTso => None,
        RvVarInstr::Ecall => None,
        RvVarInstr::Ebreak => None,
        RvVarInstr::Unimp => None,
    }
}

impl RvVarInstr {
    /// The assembly text of the instruction.  Labels have no printed form,
    /// so the branches are left out.
    pub fn to_string(&self) -> (s: String)
        requires
            !has_label(*self),
        ensures
            s@ == var_inst_text(*self),
    {
        match self {
            RvVarInstr::Add { rd, rs1, rs2 } => three_operands("add", rd.to_string(), rs1.to_string(), rs2.to_string()),
            RvVarInstr::Sub { rd, rs1, rs2 } => three_operands("sub", rd.to_string(), rs1.to_string(), rs2.to_string()),
            RvVarInstr::Sll { rd, rs1, rs2 } => three_operands("sll", rd.to_string(), rs1.to_string(), rs2.to_string()),
            RvVarInstr::Slt { rd, rs1, rs2 } => three_operands("slt", rd.to_string(), rs1.to_string(), rs2.to_string()),
            RvVarInstr::Sltu { rd, rs1, rs2 } => three_operands("sltu", rd.to_string(), rs1.to_string(), rs2.to_string()),
            RvVarInstr::Xor { rd, rs1, rs2 } => three_operands("xor", rd.to_string(), rs1.to_string(), rs2.to_string()),
            RvVarInstr::Srl { rd, rs1, rs2 } => three_operands("srl", rd.to_string(), rs1.to_string(), rs2.to_string()),
            RvVarInstr::Sra { rd, rs1, rs2 } => three_operands("sra", rd.to_string(), rs1.to_string(), rs2.to_string()),
            RvVarInstr::Or { rd, rs1, rs2 } => three_operands("or", rd.to_string(), rs1.to_string(), rs2.to_string()),
            RvVarInstr::And { rd, rs1, rs2 } => three_operands("and", rd.to_string(), rs1.to_string(), rs2.to_string()),
            RvVarInstr::Addw { rd, rs1, rs2 } => three_operands("addw", rd.to_string(), rs1.to_string(), rs2.to_string()),
            RvVarInstr::Subw { rd, rs1, rs2 } => three_operands("subw", rd.to_string(), rs1.to_string(), rs2.to_string()),
            RvVarInstr::Sllw { rd, rs1, rs2 } => three_operands("sllw", rd.to_string(), rs1.to_string(), rs2.to_string()),
            RvVarInstr::Srlw { rd, rs1, rs2 } => three_operands("srlw", rd.to_string(), rs1.to_string(), rs2.to_string()),
            RvVarInstr::Sraw { rd, rs1, rs2 } => three_operands("sraw", rd.to_string(), rs1.to_string(), rs2.to_string()),
            RvVarInstr::Addi { rd, rs1, imm } => three_operands("addi", rd.to_string(), rs1.to_string(), signed_decimal_string(*imm as i64)),
            RvVarInstr::Slti { rd, rs1, imm } => three_operands("slti", rd.to_string(), rs1.to_string(), signed_decimal_string(*imm as i64)),
            RvVarInstr::Sltiu { rd, rs1, imm } => three_operands("sltiu", rd.to_string(), rs1.to_string(), signed_decimal_string(*imm as i64)),
            RvVarInstr::Xori { rd, rs1, imm } => three_operands("xori", rd.to_string(), rs1.to_string(), signed_decimal_string(*imm as i64)),
            RvVarInstr::Ori { rd, rs1, imm } => three_operands("ori", rd.to_string(), rs1.to_string(), signed_decimal_string(*imm as i64)),
            RvVarInstr::Andi { rd, rs1, imm } => three_operands("andi", rd.to_string(), rs1.to_string(), signed_decimal_string(*imm as i64)),
            RvVarInstr::Slli { rd, rs1, shamt } => three_operands("slli", rd.to_string(), rs1.to_string(), decimal_string(*shamt as u64)),
            RvVarInstr::Srli { rd, rs1, shamt } => three_operands("srli", rd.to_string(), rs1.to_string(), decimal_string(*shamt as u64)),
            RvVarInstr::Srai { rd, rs1, shamt } => three_operands("srai", rd.to_string(), rs1.to_string(), decimal_string(*shamt as u64)),
            RvVarInstr::Addiw { rd, rs1, imm } => three_operands("addiw", rd.to_string(), rs1.to_string(), signed_decimal_string(*imm as i64)),
            RvVarInstr::Slliw { rd, rs1, shamt } => three_operands("slliw", rd.to_string(), rs1.to_string(), decimal_string(*shamt as u64)),
            RvVarInstr::Srliw { rd, rs1, shamt } => three_operands("srliw", rd.to_string(), rs1.to_string(), decimal_string(*shamt as u64)),
            RvVarInstr::Sraiw { rd, rs1, shamt } => three_operands("sraiw", rd.to_string(), rs1.to_string(), decimal_string(*shamt as u64)),
            RvVarInstr::Lb { rd, rs1, imm } => memory_operands("lb", rd.to_string(), signed_decimal_string(*imm as i64), rs1.to_string()),
            RvVarInstr::Lh { rd, rs1, imm } => memory_operands("lh", rd.to_string(), signed_decimal_string(*imm as i64), rs1.to_string()),
            RvVarInstr::Lw { rd, rs1, imm } => memory_operands("lw", rd.to_string(), signed_decimal_string(*imm as i64), rs1.to_string()),
            RvVarInstr::Ld { rd, rs1, imm } => memory_operands("ld", rd.to_string(), signed_decimal_string(*imm as i64), rs1.to_string()),
            RvVarInstr::Lbu { rd, rs1, imm } => memory_operands("lbu", rd.to_string(), signed_decimal_string(*imm as i64), rs1.to_string()),
            RvVarInstr::Lhu { rd, rs1, imm } => memory_operands("lhu", rd.to_string(), signed_decimal_string(*imm as i64), rs1.to_string()),
            RvVarInstr::Lwu { rd, rs1, imm } => memory_operands("lwu", rd.to_string(), signed_decimal_string(*imm as i64), rs1.to_string()),
            RvVarInstr::Jalr { rd, rs1, imm } => memory_operands("jalr", rd.to_string(), signed_decimal_string(*imm as i64), rs1.to_string()),
            RvVarInstr::Sb { rs2, rs1, imm } => memory_operands("sb", rs2.to_string(), signed_decimal_string(*imm as i64), rs1.to_string()),
            RvVarInstr::Sh { rs2, rs1, imm } => memory_operands("sh", rs2.to_string(), signed_decimal_string(*imm as i64), rs1.to_string()),
            RvVarInstr::Sw { rs2, rs1, imm } => memory_operands("sw", rs2.to_string(), signed_decimal_string(*imm as i64), rs1.to_string()),
            RvVarInstr::Sd { rs2, rs1, imm } => memory_operands("sd", rs2.to_string(), signed_decimal_string(*imm as i64), rs1.to_string()),
            RvVarInstr::Beq { .. } => String::new(),
            RvVarInstr::Bne { .. } => String::new(),
            RvVarInstr::Blt { .. } => String::new(),
            RvVarInstr::Bge { .. } => String::new(),
            RvVarInstr::Bltu { .. } => String::new(),
            RvVarInstr::Bgeu { .. } => String::new(),
            RvVarInstr::Lui { rd, imm } => two_operands("lui", rd.to_string(), upper_immediate_string(imm)),
            RvVarInstr::Auipc { rd, imm } => two_operands("auipc", rd.to_string(), upper_immediate_string(imm)),
            RvVarInstr::Jal { rd, imm } => two_operands("jal", rd.to_string(), imm.to_string()),
            RvVarInstr::Fence { pred, succ } => two_operands("fence", decimal_string(*pred as u64), decimal_string(*succ as u64)),
            RvVarInstr::FenceTso => "fence.tso".to_string(),
            RvVarInstr::Ecall => "ecall".to_string(),
            RvVarInstr::Ebreak => "ebreak".to_string(),
            RvVarInstr::Unimp => "unimp".to_string(),
        }
    }

    /// The location the instruction writes: its `rd`, for the instructions
    /// that have one.
    pub fn dest_location(&self) -> (d: Option<RvVarLocation>)
        ensures
            match d {
                Some(l) => dest_spec(*self) == Some(l@),
                None => dest_spec(*self) is None,
            },
    {
        match self {
            RvVarInstr::Add { rd, .. } => Some(rd.clone()),
            RvVarInstr::Sub { rd, .. } => Some(rd.clone()),
            RvVarInstr::Sll { rd, .. } => Some(rd.clone()),
            RvVarInstr::Slt { rd, .. } => Some(rd.clone()),
            RvVarInstr::Sltu { rd, .. } => Some(rd.clone()),
            RvVarInstr::Xor { rd, .. } => Some(rd.clone()),
            RvVarInstr::Srl { rd, .. } => Some(rd.clone()),
            RvVarInstr::Sra { rd, .. } => Some(rd.clone()),
            RvVarInstr::Or { rd, .. } => Some(rd.clone()),
            RvVarInstr::And { rd, .. } => Some(rd.clone()),
            RvVarInstr::Addw { rd, .. } => Some(rd.clone()),
            RvVarInstr::Subw { rd, .. } => Some(rd.clone()),
            RvVarInstr::Sllw { rd, .. } => Some(rd.clone()),
            RvVarInstr::Srlw { rd, .. } => Some(rd.clone()),
            RvVarInstr::Sraw { rd, .. } => Some(rd.clone()),
            RvVarInstr::Addi { rd, .. } => Some(rd.clone()),
            RvVarInstr::Slti { rd, .. } => Some(rd.clone()),
            RvVarInstr::Sltiu { rd, .. } => Some(rd.clone()),
            RvVarInstr::Xori { rd, .. } => Some(rd.clone()),
            RvVarInstr::Ori { rd, .. } => Some(rd.clone()),
            RvVarInstr::Andi { rd, .. } => Some(rd.clone()),
            RvVarInstr::Slli { rd, .. } => Some(rd.clone()),
            RvVarInstr::Srli { rd, .. } => Some(rd.clone()),
            RvVarInstr::Srai { rd, .. } => Some(rd.clone()),
            RvVarInstr::Addiw { rd, .. } => Some(rd.clone()),
            RvVarInstr::Slliw { rd, .. } => Some(rd.clone()),
            RvVarInstr::Srliw { rd, .. } => Some(rd.clone()),
            RvVarInstr::Sraiw { rd, .. } => Some(rd.clone()),
            RvVarInstr::Lb { rd, .. } => Some(rd.clone()),
            RvVarInstr::Lh { rd, .. } => Some(rd.clone()),
            RvVarInstr::Lw { rd, .. } => Some(rd.clone()),
            RvVarInstr::Ld { rd, .. } => Some(rd.clone()),
            RvVarInstr::Lbu { rd, .. } => Some(rd.clone()),
            RvVarInstr::Lhu { rd, .. } => Some(rd.clone()),
            RvVarInstr::Lwu { rd, .. } => Some(rd.clone()),
            RvVarInstr::Jalr { rd, .. } => Some(rd.clone()),
            RvVarInstr::Sb { .. } => None,
            RvVarInstr::Sh { .. } => None,
            RvVarInstr::Sw { .. } => None,
            RvVarInstr::Sd { .. } => None,
            RvVarInstr::Beq { .. } => None,
            RvVarInstr::Bne { .. } => None,
            RvVarInstr::Blt { .. } => None,
            RvVarInstr::Bge { .. } => None,
            RvVarInstr::Bltu { .. } => None,
            RvVarInstr::Bgeu { .. } => None,
            RvVarInstr::Lui { rd, .. } => Some(rd.clone()),
            RvVarInstr::Auipc { rd, .. } => Some(rd.clone()),
            RvVarInstr::Jal { rd, .. } => Some(rd.clone()),
            RvVarInstr::Fence { .. } => None,
            RvVarInstr::FenceTso => None,
            RvVarInstr::Ecall => None,
            RvVarInstr::Ebreak => None,
            RvVarInstr::Unimp => None,
        }
    }
}

} // verus!
