use intu::riscv::rv64imfd::rv64imfd_imm::{
    Imm12, Imm13LowZeroBits1, Imm21LowZeroBits1, Imm32LowZeroBits12, Shamt5, Shamt6,
};

#[test]
fn imm12_round_trips_and_wraps() {
    for v in [-2048i16, -1, 0, 1, 2047] {
        assert_eq!(Imm12::from_i16(v).to_i16(), v);
    }
    assert_eq!(Imm12::from_i16(2048).to_i16(), -2048);
    assert_eq!(Imm12::from_i16(0x1005).to_i16(), 5);
    assert_eq!(Imm12::from_i16(-5).to_string(), "-5");
    assert_eq!(Imm12::from_i16(77).clone(), Imm12::from_i16(77));
}

#[test]
fn imm13_keeps_thirteen_bits_without_the_low_one() {
    for v in [-4096i16, -2, 0, 2, 4094] {
        assert_eq!(Imm13LowZeroBits1::from_i16(v).to_i16(), v);
    }
    assert_eq!(Imm13LowZeroBits1::from_i16(7).to_i16(), 6);
    assert_eq!(Imm13LowZeroBits1::from_i16(4096).to_i16(), -4096);
    assert_eq!(Imm13LowZeroBits1::from_i16(6000).to_i16(), 6000 - 8192);
    assert_eq!(Imm13LowZeroBits1::from_i16(-8).to_string(), "-8");
}

#[test]
fn imm21_keeps_twenty_one_bits_without_the_low_one() {
    for v in [-0x10_0000i32, -2, 0, 2, 0xF_FFFE] {
        assert_eq!(Imm21LowZeroBits1::from_i32(v).to_i32(), v);
    }
    assert_eq!(Imm21LowZeroBits1::from_i32(5).to_i32(), 4);
    assert_eq!(Imm21LowZeroBits1::from_i32(0x10_0000).to_i32(), -0x10_0000);
    assert_eq!(Imm21LowZeroBits1::from_i32(1024).clone().to_string(), "1024");
}

#[test]
fn imm32_clears_the_low_twelve_bits() {
    for v in [i32::MIN, -4096, 0, 4096, 0x7FFF_F000] {
        assert_eq!(Imm32LowZeroBits12::from_i32(v).to_i32(), v);
    }
    assert_eq!(Imm32LowZeroBits12::from_i32(0x1234_5678).to_i32(), 0x1234_5000);
    assert_eq!(Imm32LowZeroBits12::from_i32(-1).to_i32(), -4096);
    assert_eq!(Imm32LowZeroBits12::from_i32(8192).to_string(), "8192");
}

#[test]
fn shift_amounts_keep_their_low_bits() {
    assert_eq!(Shamt6::from_u8(63).to_u8(), 63);
    assert_eq!(Shamt6::from_u8(64).to_u8(), 0);
    assert_eq!(Shamt6::from_u8(70).to_string(), "6");
    assert_eq!(Shamt5::from_u8(31).to_u8(), 31);
    assert_eq!(Shamt5::from_u8(33).clone().to_u8(), 1);
    assert_eq!(Shamt5::from_u8(12).to_string(), "12");
}
