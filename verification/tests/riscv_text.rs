use intu::riscv::rv_imm::{I24WithZeroedBits, I24, U24};
use intu::riscv::rv_instr::RvInst;
use intu::riscv::rv_reg::Reg;
use intu::riscv_var::basicblock::RvVarBasicBlock;
use intu::riscv_var::instruction::{seqz, snez, RvVarInstr};
use intu::riscv_var::label::Label;
use intu::riscv_var::location::{a0, fvar, t0, var, x, zero, RvVarLocation};
use intu::riscv_var::program::RvVarProgram;

#[test]
fn i24_round_trips_in_range() {
    for v in [0i32, 1, -1, 42, -42, 0x7f_ffff, -0x80_0000, 123_456, -654_321] {
        assert_eq!(I24::from_i32(v).to_i32(), v);
    }
}

#[test]
fn i24_keeps_low_24_bits_sign_extended() {
    assert_eq!(I24::from_i32(0x80_0000).to_i32(), -0x80_0000);
    assert_eq!(I24::from_i32(0x100_0005).to_i32(), 5);
    assert_eq!(I24::from_i32(-0x80_0001).to_i32(), 0x7f_ffff);
}

#[test]
fn u24_round_trip_and_truncation() {
    assert_eq!(U24::from_u32(0).to_u32(), 0);
    assert_eq!(U24::from_u32(0xff_ffff).to_u32(), 0xff_ffff);
    assert_eq!(U24::from_u32(0x123_4567).to_u32(), 0x23_4567);
    assert_eq!(U24::from_u32(77).to_string(), "77");
}

#[test]
fn zeroed_bits_clear_low_bits() {
    let imm = I24WithZeroedBits::<12>::from_i32(0x1234_5678);
    assert_eq!(imm.to_i32(), 0x1234_5000);
    let neg = I24WithZeroedBits::<12>::from_i32(-1);
    assert_eq!(neg.to_i32(), -4096);
    let small = I24WithZeroedBits::<1>::from_i32(-7);
    assert_eq!(small.to_i32(), -8);
}

#[test]
fn i24_text_is_signed_decimal() {
    assert_eq!(I24::from_i32(-12).to_string(), "-12");
    assert_eq!(I24::from_i32(305).to_string(), "305");
}

#[test]
fn rv_inst_text_shapes() {
    assert_eq!(RvInst::Add { rd: Reg::A0, rs1: Reg::A1, rs2: Reg::A2 }.to_string(), "add a0, a1, a2");
    assert_eq!(RvInst::Addi { rd: Reg::SP, rs1: Reg::SP, imm: -16 }.to_string(), "addi sp, sp, -16");
    assert_eq!(RvInst::Slli { rd: Reg::T0, rs1: Reg::T1, shamt: 3 }.to_string(), "slli t0, t1, 3");
    assert_eq!(RvInst::Ld { rd: Reg::RA, rs1: Reg::SP, imm: 8 }.to_string(), "ld ra, 8(sp)");
    assert_eq!(RvInst::Sd { rs2: Reg::RA, rs1: Reg::SP, imm: -8 }.to_string(), "sd ra, -8(sp)");
    assert_eq!(
        RvInst::Bne { rs1: Reg::A0, rs2: Reg::ZERO, imm: I24::from_i32(-20) }.to_string(),
        "bne a0, zero, -20"
    );
    assert_eq!(
        RvInst::Lui { rd: Reg::A0, imm: I24WithZeroedBits::from_i32(0x12345000) }.to_string(),
        "lui a0, 0x12345"
    );
    assert_eq!(
        RvInst::Auipc { rd: Reg::T0, imm: I24WithZeroedBits::from_i32(-4096) }.to_string(),
        "auipc t0, 0xffffffff"
    );
    assert_eq!(RvInst::Jal { rd: Reg::RA, imm: I24::from_i32(2048) }.to_string(), "jal ra, 2048");
    assert_eq!(RvInst::Fence { pred: 15, succ: 3 }.to_string(), "fence 15, 3");
    assert_eq!(RvInst::FenceTso.to_string(), "fence.tso");
    assert_eq!(RvInst::Ecall.to_string(), "ecall");
    assert_eq!(RvInst::Ebreak.to_string(), "ebreak");
    assert_eq!(RvInst::Unimp.to_string(), "unimp");
}

#[test]
fn rv_var_inst_text_uses_location_names() {
    let i = RvVarInstr::Sub { rd: var("a".to_string()), rs1: x(10), rs2: var("b".to_string()) };
    assert_eq!(i.to_string(), "sub a, a0, b");
    let l = RvVarInstr::Lw { rd: fvar("f".to_string()), rs1: t0(), imm: 12 };
    assert_eq!(l.to_string(), "lw f, 12(t0)");
}

#[test]
fn seqz_and_snez_expand() {
    let s = seqz(var("d".to_string()), var("s".to_string()));
    assert_eq!(s.to_string(), "sltiu d, s, 1");
    let n = snez(var("d".to_string()), a0());
    assert_eq!(n.to_string(), "sltu d, zero, a0");
}

#[test]
fn dest_location_is_rd_or_nothing() {
    let add = RvVarInstr::Add { rd: var("a".to_string()), rs1: var("b".to_string()), rs2: zero() };
    assert_eq!(add.dest_location(), Some(var("a".to_string())));
    let store = RvVarInstr::Sd { rs2: var("a".to_string()), rs1: x(2), imm: 0 };
    assert_eq!(store.dest_location(), None);
    let br = RvVarInstr::Beq { rs1: zero(), rs2: zero(), label: Label::new("l".to_string()) };
    assert_eq!(br.dest_location(), None);
    assert_eq!(RvVarInstr::Ecall.dest_location(), None);
    let lui = RvVarInstr::Lui { rd: RvVarLocation::IReg(intu::riscv::rv64imfd_reg::IReg::A1), imm: I24WithZeroedBits::from_i32(4096) };
    assert_eq!(lui.dest_location(), Some(x(11)));
}

#[test]
fn program_appends_blocks_in_order() {
    let mut p = RvVarProgram::new();
    let mut b1 = RvVarBasicBlock::new(Label::new("entry".to_string()));
    b1.instrs.push(RvVarInstr::Ecall);
    p.append_basic_block(b1);
    p.append_basic_block(RvVarBasicBlock::new(Label::new("exit".to_string())));
    assert_eq!(p.blocks.len(), 2);
    assert_eq!(p.blocks[0].name.name, "entry");
    assert_eq!(p.blocks[0].instrs.len(), 1);
    assert_eq!(p.blocks[1].name.name, "exit");
}
