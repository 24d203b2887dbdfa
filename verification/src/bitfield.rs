//! Bit arrays of the `bitvec` crate, as the immediates of RV64IMFD hold
//! them: little-endian bytes with `Lsb0` bit order, with what the library
//! relies on of storing an integer into them and loading it back.
use vstd::prelude::*;
use bitvec::array::BitArray;
use bitvec::field::BitField;
use bitvec::order::Lsb0;

verus! {

/// Eight bits held in a `bitvec` bit array of 1 byte.
#[verifier::external_body]
#[derive(PartialEq, Eq, Debug, Hash)]
pub struct Bits8 {
    bits: BitArray<[u8; 1], Lsb0>,
}

/// The integer that the eight bits of `b` hold, bit `i` of the array being
/// bit `i` of the integer.
pub uninterp spec fn bits8(b: Bits8) -> u8;

/// Sixteen bits held in a `bitvec` bit array of 2 bytes.
#[verifier::external_body]
#[derive(PartialEq, Eq, Debug, Hash)]
pub struct Bits16 {
    bits: BitArray<[u8; 2], Lsb0>,
}

/// The integer that the sixteen bits of `b` hold, bit `i` of the array
/// being bit `i` of the integer.
pub uninterp spec fn bits16(b: Bits16) -> u16;

/// Twenty-four bits held in a `bitvec` bit array of 3 bytes.
#[verifier::external_body]
#[derive(PartialEq, Eq, Debug, Hash)]
pub struct Bits24 {
    bits: BitArray<[u8; 3], Lsb0>,
}

/// The integer that the twenty-four bits of `b` hold, bit `i` of the array
/// being bit `i` of the integer.
pub uninterp spec fn bits24(b: Bits24) -> u32;

/// Thirty-two bits held in a `bitvec` bit array of 4 bytes.
#[verifier::external_body]
#[derive(PartialEq, Eq, Debug, Hash)]
pub struct Bits32 {
    bits: BitArray<[u8; 4], Lsb0>,
}

/// The integer that the thirty-two bits of `b` hold, bit `i` of the array
/// being bit `i` of the integer.
pub uninterp spec fn bits32(b: Bits32) -> u32;

/// `BitArray::default`, which is `BitArray::ZERO`: all bits clear.
#[verifier::external_body]
pub fn bits8_zero() -> (b: Bits8)
    ensures
        bits8(b) == 0,
{
    Bits8 { bits: Default::default() }
}

/// `BitField::store_le` of a `u8` into one byte: its bits are stored.
#[verifier::external_body]
pub fn bits8_store_le(b: &mut Bits8, v: u8)
    ensures
        bits8(*final(b)) == v,
{
    b.bits.store_le(v)
}

/// `BitField::load_le::<u8>` of one byte: the bits stored.
#[verifier::external_body]
pub fn bits8_load_le(b: &Bits8) -> (r: u8)
    ensures
        r == bits8(*b),
{
    b.bits.load_le::<u8>()
}

/// `BitArray::default`, which is `BitArray::ZERO`: all bits clear.
#[verifier::external_body]
pub fn bits16_zero() -> (b: Bits16)
    ensures
        bits16(b) == 0,
{
    Bits16 { bits: Default::default() }
}

/// `BitField::store_le` of a `u16` into two bytes: its bits are stored, the
/// low byte first.
#[verifier::external_body]
pub fn bits16_store_le(b: &mut Bits16, v: u16)
    ensures
        bits16(*final(b)) == v,
{
    b.bits.store_le(v)
}

/// `BitField::load_le::<u16>` of two bytes: the bits stored, the first byte
/// the low one.
#[verifier::external_body]
pub fn bits16_load_le(b: &Bits16) -> (r: u16)
    ensures
        r == bits16(*b),
{
    b.bits.load_le::<u16>()
}

/// `BitArray::default`, which is `BitArray::ZERO`: all bits clear.
#[verifier::external_body]
pub fn bits24_zero() -> (b: Bits24)
    ensures
        bits24(b) == 0,
{
    Bits24 { bits: Default::default() }
}

/// `BitField::store_le` of a `u32` into three bytes: its low twenty-four
/// bits are stored, the low byte first, and the rest dropped.
#[verifier::external_body]
pub fn bits24_store_le(b: &mut Bits24, v: u32)
    ensures
        bits24(*final(b)) == v % 0x100_0000,
{
    b.bits.store_le(v)
}

/// `BitField::load_le::<u32>` of three bytes: the bits stored, the first
/// byte the low one, the top byte of the result clear.
#[verifier::external_body]
pub fn bits24_load_le(b: &Bits24) -> (r: u32)
    ensures
        r == bits24(*b),
{
    b.bits.load_le::<u32>()
}

/// `BitArray::default`, which is `BitArray::ZERO`: all bits clear.
#[verifier::external_body]
pub fn bits32_zero() -> (b: Bits32)
    ensures
        bits32(b) == 0,
{
    Bits32 { bits: Default::default() }
}

/// `BitField::store_le` of a `u32` into four bytes: its bits are stored,
/// the low byte first.
#[verifier::external_body]
pub fn bits32_store_le(b: &mut Bits32, v: u32)
    ensures
        bits32(*final(b)) == v,
{
    b.bits.store_le(v)
}

/// `BitField::load_le::<u32>` of four bytes: the bits stored, the first byte
/// the low one.
#[verifier::external_body]
pub fn bits32_load_le(b: &Bits32) -> (r: u32)
    ensures
        r == bits32(*b),
{
    b.bits.load_le::<u32>()
}

} // verus!
