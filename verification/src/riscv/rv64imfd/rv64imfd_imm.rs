//! The immediates and shift amounts of RV64IMFD instructions, each held in
//! a `bitvec` bit array of as many bits as it needs.
use vstd::prelude::*;
use crate::bitfield::{
    bits16, bits16_load_le, bits16_store_le, bits16_zero, bits24, bits24_load_le, bits24_store_le,
    bits24_zero, bits32, bits32_load_le, bits32_store_le, bits32_zero, bits8, bits8_load_le,
    bits8_store_le, bits8_zero, Bits16, Bits24, Bits32, Bits8,
};
use crate::numfmt::{signed_decimal, signed_decimal_string};

verus! {

/// `raw`, of `n` bits, read as an `n`-bit two's-complement number.
pub open spec fn sign_extend(raw: int, n: nat) -> int {
    if raw >= pow2_of(n) / 2 {
        raw - pow2_of(n)
    } else {
        raw
    }
}

/// Two to the power `n`.
pub open spec fn pow2_of(n: nat) -> int
    decreases n,
{
    if n == 0 {
        1
    } else {
        2 * pow2_of((n - 1) as nat)
    }
}

/// The value an [`Imm12`] made from `v` holds: the low 12 bits of `v` read
/// as a signed number.
pub open spec fn imm12_of(v: i16) -> int {
    sign_extend(((v as u16) & 0x0FFF) as int, 12)
}

/// The value an [`Imm13LowZeroBits1`] made from `offset` holds: the low 13
/// bits of the offset with bit 0 cleared, read as a signed number.
pub open spec fn imm13_of(offset: i16) -> int {
    sign_extend(((offset as u16) & 0x1FFE) as int, 13)
}

/// The value an [`Imm21LowZeroBits1`] made from `offset` holds: the low 21
/// bits of the offset with bit 0 cleared, read as a signed number.
pub open spec fn imm21_of(offset: i32) -> int {
    sign_extend(((offset as u32) & 0x1F_FFFE) as int, 21)
}

/// The value an [`Imm32LowZeroBits12`] made from `v` holds: `v` with its
/// low 12 bits cleared.
pub open spec fn imm32_of(v: i32) -> int {
    4096 * sign_extend((((v >> 12u32) as u32) & 0xF_FFFF) as int, 20)
}

/// A 12-bit signed immediate (I and S forms).
#[derive(PartialEq, Debug, Hash)]
pub struct Imm12(Bits16);

/// A 13-bit signed offset whose lowest bit is zero (B form): even values
/// in `-4096..4096`.
#[derive(PartialEq, Debug, Hash)]
pub struct Imm13LowZeroBits1(Bits16);

/// A 21-bit signed offset whose lowest bit is zero (J form): even values
/// in `-2^20..2^20`.
#[derive(PartialEq, Debug, Hash)]
pub struct Imm21LowZeroBits1(Bits24);

/// A 32-bit signed immediate whose low 12 bits are zero (U form).
#[derive(PartialEq, Debug, Hash)]
pub struct Imm32LowZeroBits12(Bits32);

/// A 6-bit unsigned shift amount (`slli`, `srli`, `srai`).
#[derive(PartialEq, Debug, Hash)]
pub struct Shamt6(Bits8);

/// A 5-bit unsigned shift amount (`slliw`, `srliw`, `sraiw`).
#[derive(PartialEq, Debug, Hash)]
pub struct Shamt5(Bits8);

impl View for Imm12 {
    type V = int;

    closed spec fn view(&self) -> int {
        sign_extend(bits16(self.0) as int, 12)
    }
}

impl View for Imm13LowZeroBits1 {
    type V = int;

    closed spec fn view(&self) -> int {
        sign_extend(bits16(self.0) as int, 13)
    }
}

impl View for Imm21LowZeroBits1 {
    type V = int;

    closed spec fn view(&self) -> int {
        sign_extend(bits24(self.0) as int, 21)
    }
}

impl View for Imm32LowZeroBits12 {
    type V = int;

    closed spec fn view(&self) -> int {
        4096 * sign_extend(bits32(self.0) as int, 20)
    }
}

impl View for Shamt6 {
    type V = int;

    closed spec fn view(&self) -> int {
        bits8(self.0) as int
    }
}

impl View for Shamt5 {
    type V = int;

    closed spec fn view(&self) -> int {
        bits8(self.0) as int
    }
}

proof fn lemma_pow2_values()
    ensures
        pow2_of(5) == 32,
        pow2_of(6) == 64,
        pow2_of(12) == 0x1000,
        pow2_of(13) == 0x2000,
        pow2_of(20) == 0x10_0000,
        pow2_of(21) == 0x20_0000,
{
    reveal_with_fuel(pow2_of, 22);
}

/// A number in the 12-bit signed range comes back unchanged from
/// [`Imm12::from_i16`] and [`Imm12::to_i16`].
pub proof fn lemma_imm12_round_trip(v: i16)
    requires
        -0x800 <= v < 0x800,
    ensures
        imm12_of(v) == v,
{
    lemma_pow2_values();
    let u = (v as u16) & 0x0FFF;
    assert(v >= 0 ==> u == v) by (bit_vector)
        requires
            u == (v as u16) & 0x0FFF,
            -0x800 <= v < 0x800,
    ;
    assert(v < 0 ==> u >= 0x800 && u - 0x1000 == v) by (bit_vector)
        requires
            u == (v as u16) & 0x0FFF,
            -0x800 <= v < 0x800,
    ;
}

/// An even offset in the 13-bit signed range comes back unchanged from
/// [`Imm13LowZeroBits1::from_i16`] and [`Imm13LowZeroBits1::to_i16`].
pub proof fn lemma_imm13_round_trip(offset: i16)
    requires
        -0x1000 <= offset < 0x1000,
        offset % 2 == 0,
    ensures
        imm13_of(offset) == offset,
{
    lemma_pow2_values();
    let u = (offset as u16) & 0x1FFE;
    assert(offset >= 0 ==> u == offset) by (bit_vector)
        requires
            u == (offset as u16) & 0x1FFE,
            -0x1000 <= offset < 0x1000,
            offset % 2 == 0,
    ;
    assert(offset < 0 ==> u >= 0x1000 && u - 0x2000 == offset) by (bit_vector)
        requires
            u == (offset as u16) & 0x1FFE,
            -0x1000 <= offset < 0x1000,
            offset % 2 == 0,
    ;
}

/// An even offset in the 21-bit signed range comes back unchanged from
/// [`Imm21LowZeroBits1::from_i32`] and [`Imm21LowZeroBits1::to_i32`].
pub proof fn lemma_imm21_round_trip(offset: i32)
    requires
        -0x10_0000 <= offset < 0x10_0000,
        offset % 2 == 0,
    ensures
        imm21_of(offset) == offset,
{
    lemma_pow2_values();
    let u = (offset as u32) & 0x1F_FFFE;
    assert(offset >= 0 ==> u == offset) by (bit_vector)
        requires
            u == (offset as u32) & 0x1F_FFFE,
            -0x10_0000 <= offset < 0x10_0000,
            offset % 2 == 0,
    ;
    assert(offset < 0 ==> u >= 0x10_0000 && u - 0x20_0000 == offset) by (bit_vector)
        requires
            u == (offset as u32) & 0x1F_FFFE,
            -0x10_0000 <= offset < 0x10_0000,
            offset % 2 == 0,
    ;
}

/// A number whose low 12 bits are zero comes back unchanged from
/// [`Imm32LowZeroBits12::from_i32`] and [`Imm32LowZeroBits12::to_i32`].
pub proof fn lemma_imm32_round_trip(v: i32)
    requires
        v % 4096 == 0,
    ensures
        imm32_of(v) == v,
{
    lemma_pow2_values();
    let u = ((v >> 12u32) as u32) & 0xF_FFFF;
    assert(v >= 0 ==> 4096 * u == v) by (bit_vector)
        requires
            u == ((v >> 12u32) as u32) & 0xF_FFFF,
            v % 4096 == 0,
    ;
    assert(v < 0 ==> u >= 0x8_0000 && 4096 * (u - 0x10_0000) == v) by (bit_vector)
        requires
            u == ((v >> 12u32) as u32) & 0xF_FFFF,
            v % 4096 == 0,
    ;
}

impl Imm12 {
    #[verifier::type_invariant]
    spec fn inv(&self) -> bool {
        bits16(self.0) < 0x1000
    }

    /// The low 12 bits of `v`.
    pub fn from_i16(v: i16) -> (r: Self)
        ensures
            r@ == imm12_of(v),
    {
        let mut bits = bits16_zero();
        bits16_store_le(&mut bits, (v as u16) & 0x0FFF);
        assert((v as u16) & 0x0FFF < 0x1000) by (bit_vector);
        Imm12(bits)
    }

    /// The value, sign-extended from 12 bits.
    pub fn to_i16(&self) -> (r: i16)
        ensures
            r == self@,
    {
        proof {
            use_type_invariant(self);
            lemma_pow2_values();
        }
        let raw = bits16_load_le(&self.0);
        let r = ((raw << 4u16) as i16) >> 4u16;
        assert(raw >= 0x800 ==> r == raw - 0x1000) by (bit_vector)
            requires
                raw < 0x1000,
                r == ((raw << 4u16) as i16) >> 4u16,
        ;
        assert(raw < 0x800 ==> r == raw) by (bit_vector)
            requires
                raw < 0x1000,
                r == ((raw << 4u16) as i16) >> 4u16,
        ;
        r
    }

    /// The value in decimal.
    pub fn to_string(&self) -> (s: String)
        ensures
            s@ == signed_decimal(self@),
    {
        signed_decimal_string(self.to_i16() as i64)
    }
}

impl Clone for Imm12 {
    fn clone(&self) -> (r: Self)
        ensures
            r@ == self@,
    {
        proof {
            use_type_invariant(self);
        }
        let mut bits = bits16_zero();
        bits16_store_le(&mut bits, bits16_load_le(&self.0));
        Imm12(bits)
    }
}

impl Imm13LowZeroBits1 {
    #[verifier::type_invariant]
    spec fn inv(&self) -> bool {
        bits16(self.0) < 0x2000 && bits16(self.0) % 2 == 0
    }

    /// The low 13 bits of `offset`, bit 0 cleared.
    pub fn from_i16(offset: i16) -> (r: Self)
        ensures
            r@ == imm13_of(offset),
    {
        let mut bits = bits16_zero();
        let raw = (offset as u16) & 0x1FFE;
        bits16_store_le(&mut bits, raw);
        assert(raw < 0x2000 && raw % 2 == 0) by (bit_vector)
            requires
                raw == (offset as u16) & 0x1FFE,
        ;
        Imm13LowZeroBits1(bits)
    }

    /// The value: the stored 13 bits sign-extended; it is even and lies in
    /// `-4096..4096`.
    pub fn to_i16(&self) -> (r: i16)
        ensures
            r == self@,
            r % 2 == 0,
            -0x1000 <= r < 0x1000,
    {
        proof {
            use_type_invariant(self);
            lemma_pow2_values();
        }
        let raw = bits16_load_le(&self.0);
        let r = ((raw << 3u16) as i16) >> 3u16;
        assert(raw >= 0x1000 ==> r == raw - 0x2000) by (bit_vector)
            requires
                raw < 0x2000,
                r == ((raw << 3u16) as i16) >> 3u16,
        ;
        assert(raw < 0x1000 ==> r == raw) by (bit_vector)
            requires
                raw < 0x2000,
                r == ((raw << 3u16) as i16) >> 3u16,
        ;
        r
    }

    /// The value in decimal.
    pub fn to_string(&self) -> (s: String)
        ensures
            s@ == signed_decimal(self@),
    {
        signed_decimal_string(self.to_i16() as i64)
    }
}

impl Clone for Imm13LowZeroBits1 {
    fn clone(&self) -> (r: Self)
        ensures
            r@ == self@,
    {
        proof {
            use_type_invariant(self);
        }
        let mut bits = bits16_zero();
        bits16_store_le(&mut bits, bits16_load_le(&self.0));
        Imm13LowZeroBits1(bits)
    }
}

impl Imm21LowZeroBits1 {
    #[verifier::type_invariant]
    spec fn inv(&self) -> bool {
        bits24(self.0) < 0x20_0000 && bits24(self.0) % 2 == 0
    }

    /// The low 21 bits of `offset`, bit 0 cleared.
    pub fn from_i32(offset: i32) -> (r: Self)
        ensures
            r@ == imm21_of(offset),
    {
        let mut bits = bits24_zero();
        let raw = (offset as u32) & 0x1F_FFFE;
        bits24_store_le(&mut bits, raw);
        assert(raw < 0x20_0000 && raw % 2 == 0) by (bit_vector)
            requires
                raw == (offset as u32) & 0x1F_FFFE,
        ;
        Imm21LowZeroBits1(bits)
    }

    /// The value: the stored 21 bits sign-extended; it is even and lies in
    /// `-2^20..2^20`.
    pub fn to_i32(&self) -> (r: i32)
        ensures
            r == self@,
            r % 2 == 0,
            -0x10_0000 <= r < 0x10_0000,
    {
        proof {
            use_type_invariant(self);
            lemma_pow2_values();
        }
        let raw = bits24_load_le(&self.0);
        let r = ((raw << 11u32) as i32) >> 11u32;
        assert(raw >= 0x10_0000 ==> r == raw - 0x20_0000) by (bit_vector)
            requires
                raw < 0x20_0000,
                r == ((raw << 11u32) as i32) >> 11u32,
        ;
        assert(raw < 0x10_0000 ==> r == raw) by (bit_vector)
            requires
                raw < 0x20_0000,
                r == ((raw << 11u32) as i32) >> 11u32,
        ;
        r
    }

    /// The value in decimal.
    pub fn to_string(&self) -> (s: String)
        ensures
            s@ == signed_decimal(self@),
    {
        signed_decimal_string(self.to_i32() as i64)
    }
}

impl Clone for Imm21LowZeroBits1 {
    fn clone(&self) -> (r: Self)
        ensures
            r@ == self@,
    {
        proof {
            use_type_invariant(self);
        }
        let mut bits = bits24_zero();
        let raw = bits24_load_le(&self.0);
        bits24_store_le(&mut bits, raw);
        Imm21LowZeroBits1(bits)
    }
}

impl Imm32LowZeroBits12 {
    #[verifier::type_invariant]
    spec fn inv(&self) -> bool {
        bits32(self.0) < 0x10_0000
    }

    /// The upper 20 bits of `v`.
    pub fn from_i32(v: i32) -> (r: Self)
        ensures
            r@ == imm32_of(v),
    {
        let mut bits = bits32_zero();
        let raw = ((v >> 12u32) as u32) & 0xF_FFFF;
        bits32_store_le(&mut bits, raw);
        assert(raw < 0x10_0000) by (bit_vector)
            requires
                raw == ((v >> 12u32) as u32) & 0xF_FFFF,
        ;
        Imm32LowZeroBits12(bits)
    }

    /// The value: the stored 20 bits sign-extended, shifted left by 12.
    pub fn to_i32(&self) -> (r: i32)
        ensures
            r == self@,
    {
        proof {
            use_type_invariant(self);
            lemma_pow2_values();
        }
        let raw = bits32_load_le(&self.0);
        let r = (((raw << 12u32) as i32) >> 12u32) << 12u32;
        assert(raw >= 0x8_0000 ==> r == 4096 * (raw - 0x10_0000)) by (bit_vector)
            requires
                raw < 0x10_0000,
                r == (((raw << 12u32) as i32) >> 12u32) << 12u32,
        ;
        assert(raw < 0x8_0000 ==> r == 4096 * raw) by (bit_vector)
            requires
                raw < 0x10_0000,
                r == (((raw << 12u32) as i32) >> 12u32) << 12u32,
        ;
        r
    }

    /// The value in decimal.
    pub fn to_string(&self) -> (s: String)
        ensures
            s@ == signed_decimal(self@),
    {
        signed_decimal_string(self.to_i32() as i64)
    }
}

impl Clone for Imm32LowZeroBits12 {
    fn clone(&self) -> (r: Self)
        ensures
            r@ == self@,
    {
        proof {
            use_type_invariant(self);
        }
        let mut bits = bits32_zero();
        bits32_store_le(&mut bits, bits32_load_le(&self.0));
        Imm32LowZeroBits12(bits)
    }
}

impl Shamt6 {
    #[verifier::type_invariant]
    spec fn inv(&self) -> bool {
        bits8(self.0) < 64
    }

    /// The low 6 bits of `v`.
    pub fn from_u8(v: u8) -> (r: Self)
        ensures
            r@ == v % 64,
    {
        let mut bits = bits8_zero();
        bits8_store_le(&mut bits, v & 0x3F);
        assert(v & 0x3F == v % 64) by (bit_vector);
        Shamt6(bits)
    }

    /// The shift amount.
    pub fn to_u8(&self) -> (r: u8)
        ensures
            r == self@,
            r < 64,
    {
        proof {
            use_type_invariant(self);
        }
        bits8_load_le(&self.0)
    }

    /// The shift amount in decimal.
    pub fn to_string(&self) -> (s: String)
        ensures
            s@ == signed_decimal(self@),
    {
        signed_decimal_string(self.to_u8() as i64)
    }
}

impl Clone for Shamt6 {
    fn clone(&self) -> (r: Self)
        ensures
            r@ == self@,
    {
        proof {
            use_type_invariant(self);
        }
        let mut bits = bits8_zero();
        bits8_store_le(&mut bits, bits8_load_le(&self.0));
        Shamt6(bits)
    }
}

impl Shamt5 {
    #[verifier::type_invariant]
    spec fn inv(&self) -> bool {
        bits8(self.0) < 32
    }

    /// The low 5 bits of `v`.
    pub fn from_u8(v: u8) -> (r: Self)
        ensures
            r@ == v % 32,
    {
        let mut bits = bits8_zero();
        bits8_store_le(&mut bits, v & 0x1F);
        assert(v & 0x1F == v % 32) by (bit_vector);
        Shamt5(bits)
    }

    /// The shift amount.
    pub fn to_u8(&self) -> (r: u8)
        ensures
            r == self@,
            r < 32,
    {
        proof {
            use_type_invariant(self);
        }
        bits8_load_le(&self.0)
    }

    /// The shift amount in decimal.
    pub fn to_string(&self) -> (s: String)
        ensures
            s@ == signed_decimal(self@),
    {
        signed_decimal_string(self.to_u8() as i64)
    }
}

impl Clone for Shamt5 {
    fn clone(&self) -> (r: Self)
        ensures
            r@ == self@,
    {
        proof {
            use_type_invariant(self);
        }
        let mut bits = bits8_zero();
        bits8_store_le(&mut bits, bits8_load_le(&self.0));
        Shamt5(bits)
    }
}

} // verus!
