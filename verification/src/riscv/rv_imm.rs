//! 24-bit immediates stored in three little-endian bytes.
use vstd::prelude::*;
use crate::gensym::{decimal, decimal_string};
use crate::numfmt::{signed_decimal, signed_decimal_string};

verus! {

/// The unsigned value of three little-endian bytes.
pub open spec fn bytes_value(b: [u8; 3]) -> int {
    b[0] + 256 * b[1] + 65536 * b[2]
}

/// The value of three little-endian bytes read as a 24-bit two's-complement
/// number.
pub open spec fn signed_bytes_value(b: [u8; 3]) -> int {
    let u = bytes_value(b);
    if u >= 0x80_0000 {
        u - 0x100_0000
    } else {
        u
    }
}

/// The low 24 bits of `v`, read as a 24-bit two's-complement number.
pub open spec fn low24_signed(v: i32) -> int {
    let u = (v as u32) & 0xff_ffff;
    if u >= 0x80_0000 {
        u - 0x100_0000
    } else {
        u as int
    }
}

/// The low 24 bits of `v`.
pub open spec fn low24(v: u32) -> int {
    (v & 0xff_ffff) as int
}

/// The value that an immediate with `n` low zero bits stands for: the
/// stored 24-bit value shifted left by `n` within 32 bits.
pub open spec fn zeroed_bits_value(stored: int, n: u8) -> i32 {
    (((stored as i32) as u32) << n) as i32
}

/// The three low bytes of `v`, least significant first.
fn low_bytes(v: u32) -> (b: [u8; 3])
    ensures
        bytes_value(b) == low24(v),
{
    let b0 = (v & 0xff) as u8;
    let b1 = ((v >> 8) & 0xff) as u8;
    let b2 = ((v >> 16) & 0xff) as u8;
    assert(b0 + 256 * b1 + 65536 * b2 == (v & 0xff_ffff)) by (bit_vector)
        requires
            b0 == (v & 0xff) as u8,
            b1 == ((v >> 8) & 0xff) as u8,
            b2 == ((v >> 16) & 0xff) as u8,
    ;
    [b0, b1, b2]
}

/// The unsigned value of three little-endian bytes.
fn bytes_to_u32(b: &[u8; 3]) -> (v: u32)
    ensures
        v == bytes_value(*b),
{
    b[0] as u32 + 256 * (b[1] as u32) + 65536 * (b[2] as u32)
}

/// A signed 24-bit number.
#[derive(Debug, PartialEq)]
pub struct I24([u8; 3]);

/// An unsigned 24-bit number.
#[derive(Debug, PartialEq)]
pub struct U24([u8; 3]);

/// A signed 24-bit number that stands for itself shifted left by
/// `LOW_ZEROED_BITS` bits, whose low bits are therefore zero.
#[derive(Debug, PartialEq)]
pub struct I24WithZeroedBits<const LOW_ZEROED_BITS: u8>([u8; 3]);

impl View for I24 {
    type V = int;

    closed spec fn view(&self) -> int {
        signed_bytes_value(self.0)
    }
}

impl View for U24 {
    type V = int;

    closed spec fn view(&self) -> int {
        bytes_value(self.0)
    }
}

impl<const LOW_ZEROED_BITS: u8> View for I24WithZeroedBits<LOW_ZEROED_BITS> {
    type V = int;

    /// The stored 24-bit value, before the shift.
    closed spec fn view(&self) -> int {
        signed_bytes_value(self.0)
    }
}

impl I24 {
    /// Every value lies in the 24-bit signed range.
    pub proof fn lemma_range(&self)
        ensures
            -0x80_0000 <= self@ < 0x80_0000,
    {
    }

    /// The low 24 bits of `v`.
    pub fn from_i32(v: i32) -> (r: Self)
        ensures
            r@ == low24_signed(v),
    {
        I24(low_bytes(v as u32))
    }

    /// The number, sign-extended to 32 bits.
    pub fn to_i32(&self) -> (v: i32)
        ensures
            v == self@,
    {
        let u = bytes_to_u32(&self.0);
        if u >= 0x80_0000 {
            (u as i32) - 0x100_0000
        } else {
            u as i32
        }
    }

    /// The decimal form of the number.
    pub fn to_string(&self) -> (s: String)
        ensures
            s@ == signed_decimal(self@),
    {
        signed_decimal_string(self.to_i32() as i64)
    }
}

impl Clone for I24 {
    fn clone(&self) -> (r: Self)
        ensures
            r@ == self@,
    {
        I24(self.0)
    }
}

impl U24 {
    /// Every value lies in the 24-bit unsigned range.
    pub proof fn lemma_range(&self)
        ensures
            0 <= self@ < 0x100_0000,
    {
    }

    /// The low 24 bits of `v`.
    pub fn from_u32(v: u32) -> (r: Self)
        ensures
            r@ == low24(v),
    {
        U24(low_bytes(v))
    }

    /// The number as a 32-bit unsigned integer.
    pub fn to_u32(&self) -> (v: u32)
        ensures
            v == self@,
    {
        bytes_to_u32(&self.0)
    }

    /// The decimal form of the number.
    pub fn to_string(&self) -> (s: String)
        ensures
            s@ == decimal(self@ as nat),
    {
        decimal_string(self.to_u32() as u64)
    }
}

impl Clone for U24 {
    fn clone(&self) -> (r: Self)
        ensures
            r@ == self@,
    {
        U24(self.0)
    }
}

impl<const LOW_ZEROED_BITS: u8> I24WithZeroedBits<LOW_ZEROED_BITS> {
    /// `v` shifted right by `LOW_ZEROED_BITS` bits (arithmetically), of
    /// which the low 24 bits are kept.
    pub fn from_i32(v_full: i32) -> (r: Self)
        requires
            LOW_ZEROED_BITS < 32,
        ensures
            r@ == low24_signed(v_full >> LOW_ZEROED_BITS),
    {
        let v = v_full >> LOW_ZEROED_BITS;
        I24WithZeroedBits(low_bytes(v as u32))
    }

    /// The number it stands for: the stored value shifted left by
    /// `LOW_ZEROED_BITS` bits within 32 bits, the low bits zero.
    pub fn to_i32(&self) -> (v: i32)
        requires
            LOW_ZEROED_BITS < 32,
        ensures
            v == zeroed_bits_value(self@, LOW_ZEROED_BITS),
    {
        let u = bytes_to_u32(&self.0);
        let stored: i32 = if u >= 0x80_0000 {
            (u as i32) - 0x100_0000
        } else {
            u as i32
        };
        assert(stored == self@);
        let n = LOW_ZEROED_BITS;
        let shifted: u32 = (stored as u32) << n;
        let masked: u32 = shifted & (u32::MAX << n);
        assert(masked == shifted) by (bit_vector)
            requires
                shifted == (stored as u32) << n,
                masked == shifted & (0xffff_ffffu32 << n),
                n < 32,
        ;
        masked as i32
    }

    /// The decimal form of the number it stands for.
    pub fn to_string(&self) -> (s: String)
        requires
            LOW_ZEROED_BITS < 32,
        ensures
            s@ == signed_decimal(zeroed_bits_value(self@, LOW_ZEROED_BITS) as int),
    {
        signed_decimal_string(self.to_i32() as i64)
    }
}

impl<const LOW_ZEROED_BITS: u8> Clone for I24WithZeroedBits<LOW_ZEROED_BITS> {
    fn clone(&self) -> (r: Self)
        ensures
            r@ == self@,
    {
        I24WithZeroedBits(self.0)
    }
}

/// A number in the 24-bit signed range comes back unchanged from
/// [`I24::from_i32`] and [`I24::to_i32`].
pub proof fn lemma_i24_round_trip(v: i32)
    requires
        -0x80_0000 <= v < 0x80_0000,
    ensures
        low24_signed(v) == v,
{
    let u = (v as u32) & 0xff_ffff;
    assert(v >= 0 ==> u == v) by (bit_vector)
        requires
            u == (v as u32) & 0xff_ffff,
            -0x80_0000 <= v < 0x80_0000,
    ;
    assert(v < 0 ==> u >= 0x80_0000 && u - 0x100_0000 == v) by (bit_vector)
        requires
            u == (v as u32) & 0xff_ffff,
            -0x80_0000 <= v < 0x80_0000,
    ;
}

/// A number below 2^24 comes back unchanged from [`U24::from_u32`] and
/// [`U24::to_u32`].
pub proof fn lemma_u24_round_trip(v: u32)
    requires
        v < 0x100_0000,
    ensures
        low24(v) == v,
{
    assert(v & 0xff_ffff == v) by (bit_vector)
        requires
            v < 0x100_0000,
    ;
}

/// Storing and reading back an immediate with `n` low zero bits, where the
/// shifted value fits in 24 bits (always, for `n` of 8 or more), clears the
/// low `n` bits of the number and keeps the others.
pub proof fn lemma_zeroed_bits_round_trip(v: i32, n: u8)
    requires
        n < 32,
        n >= 8 || -0x80_0000 <= (v >> n) < 0x80_0000,
    ensures
        zeroed_bits_value(low24_signed(v >> n), n) == ((v as u32) & (0xffff_ffffu32 << n)) as i32,
{
    let w = v >> n;
    let u = (w as u32) & 0xff_ffff;
    let s: int = low24_signed(w);
    assert(u < 0x100_0000) by (bit_vector)
        requires
            u == (w as u32) & 0xff_ffff,
    ;
    if u >= 0x80_0000 {
        assert((((u as i32) - 0x100_0000) as u32) << n == (v as u32) & (0xffff_ffffu32 << n))
            by (bit_vector)
            requires
                w == v >> n,
                u == (w as u32) & 0xff_ffff,
                u >= 0x80_0000,
                n < 32,
                n >= 8 || -0x80_0000 <= w < 0x80_0000,
        ;
        assert(s == (u as i32) - 0x100_0000);
    } else {
        assert(((u as i32) as u32) << n == (v as u32) & (0xffff_ffffu32 << n)) by (bit_vector)
            requires
                w == v >> n,
                u == (w as u32) & 0xff_ffff,
                u < 0x80_0000,
                n < 32,
                n >= 8 || -0x80_0000 <= w < 0x80_0000,
        ;
        assert(s == u as i32);
    }
}

} // verus!
