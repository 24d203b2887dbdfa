use vstd::prelude::*;

verus! {

broadcast use vstd::string::group_string_axioms;

/// An integer register of RV64IMFD.
#[derive(Copy, Clone, PartialEq, Eq, Debug, Hash, Structural)]
pub enum IReg {
    /// Always zero (x0)
    ZERO,
    /// Return address (x1)
    RA,
    /// Stack pointer (x2)
    SP,
    /// Global pointer (x3)
    GP,
    /// Thread pointer (x4)
    TP,
    /// Temporary (x5)
    T0,
    /// Temporary (x6)
    T1,
    /// Temporary (x7)
    T2,
    /// Saved register (frame pointer) (x8)
    S0,
    /// Saved register (x9)
    S1,
    /// Function argument / return value (x10)
    A0,
    /// Function argument / return value (x11)
    A1,
    /// Function argument (x12)
    A2,
    /// Function argument (x13)
    A3,
    /// Function argument (x14)
    A4,
    /// Function argument (x15)
    A5,
    /// Function argument (x16)
    A6,
    /// Function argument (x17)
    A7,
    /// Saved register (x18)
    S2,
    /// Saved register (x19)
    S3,
    /// Saved register (x20)
    S4,
    /// Saved register (x21)
    S5,
    /// Saved register (x22)
    S6,
    /// Saved register (x23)
    S7,
    /// Saved register (x24)
    S8,
    /// Saved register (x25)
    S9,
    /// Saved register (x26)
    S10,
    /// Saved register (x27)
    S11,
    /// Temporary (x28)
    T3,
    /// Temporary (x29)
    T4,
    /// Temporary (x30)
    T5,
    /// Temporary (x31)
    T6,
}

impl IReg {
    /// The architectural number of the register.
    pub open spec fn spec_num(self) -> u8 {
        match self {
            IReg::ZERO => 0,
            IReg::RA => 1,
            IReg::SP => 2,
            IReg::GP => 3,
            IReg::TP => 4,
            IReg::T0 => 5,
            IReg::T1 => 6,
            IReg::T2 => 7,
            IReg::S0 => 8,
            IReg::S1 => 9,
            IReg::A0 => 10,
            IReg::A1 => 11,
            IReg::A2 => 12,
            IReg::A3 => 13,
            IReg::A4 => 14,
            IReg::A5 => 15,
            IReg::A6 => 16,
            IReg::A7 => 17,
            IReg::S2 => 18,
            IReg::S3 => 19,
            IReg::S4 => 20,
            IReg::S5 => 21,
            IReg::S6 => 22,
            IReg::S7 => 23,
            IReg::S8 => 24,
            IReg::S9 => 25,
            IReg::S10 => 26,
            IReg::S11 => 27,
            IReg::T3 => 28,
            IReg::T4 => 29,
            IReg::T5 => 30,
            IReg::T6 => 31,
        }
    }

    /// The register whose architectural number is `n` (meaningful for `n < 32`).
    pub open spec fn spec_from_u8(n: u8) -> IReg {
        if n == 0 {
            IReg::ZERO
        } else if n == 1 {
            IReg::RA
        } else if n == 2 {
            IReg::SP
        } else if n == 3 {
            IReg::GP
        } else if n == 4 {
            IReg::TP
        } else if n == 5 {
            IReg::T0
        } else if n == 6 {
            IReg::T1
        } else if n == 7 {
            IReg::T2
        } else if n == 8 {
            IReg::S0
        } else if n == 9 {
            IReg::S1
        } else if n == 10 {
            IReg::A0
        } else if n == 11 {
            IReg::A1
        } else if n == 12 {
            IReg::A2
        } else if n == 13 {
            IReg::A3
        } else if n == 14 {
            IReg::A4
        } else if n == 15 {
            IReg::A5
        } else if n == 16 {
            IReg::A6
        } else if n == 17 {
            IReg::A7
        } else if n == 18 {
            IReg::S2
        } else if n == 19 {
            IReg::S3
        } else if n == 20 {
            IReg::S4
        } else if n == 21 {
            IReg::S5
        } else if n == 22 {
            IReg::S6
        } else if n == 23 {
            IReg::S7
        } else if n == 24 {
            IReg::S8
        } else if n == 25 {
            IReg::S9
        } else if n == 26 {
            IReg::S10
        } else if n == 27 {
            IReg::S11
        } else if n == 28 {
            IReg::T3
        } else if n == 29 {
            IReg::T4
        } else if n == 30 {
            IReg::T5
        } else {
            IReg::T6
        }
    }

    /// The assembler name of the register.
    pub open spec fn spec_name(self) -> Seq<char> {
        match self {
            IReg::ZERO => "zero"@,
            IReg::RA => "ra"@,
            IReg::SP => "sp"@,
            IReg::GP => "gp"@,
            IReg::TP => "tp"@,
            IReg::T0 => "t0"@,
            IReg::T1 => "t1"@,
            IReg::T2 => "t2"@,
            IReg::S0 => "s0"@,
            IReg::S1 => "s1"@,
            IReg::A0 => "a0"@,
            IReg::A1 => "a1"@,
            IReg::A2 => "a2"@,
            IReg::A3 => "a3"@,
            IReg::A4 => "a4"@,
            IReg::A5 => "a5"@,
            IReg::A6 => "a6"@,
            IReg::A7 => "a7"@,
            IReg::S2 => "s2"@,
            IReg::S3 => "s3"@,
            IReg::S4 => "s4"@,
            IReg::S5 => "s5"@,
            IReg::S6 => "s6"@,
            IReg::S7 => "s7"@,
            IReg::S8 => "s8"@,
            IReg::S9 => "s9"@,
            IReg::S10 => "s10"@,
            IReg::S11 => "s11"@,
            IReg::T3 => "t3"@,
            IReg::T4 => "t4"@,
            IReg::T5 => "t5"@,
            IReg::T6 => "t6"@,
        }
    }

    /// The register with architectural number `num`.
    pub fn from_u8(num: u8) -> (r: Self)
        requires
            num < 32,
        ensures
            r == Self::spec_from_u8(num),
            r.spec_num() == num,
    {
        match num {
            0 => Self::ZERO,
            1 => Self::RA,
            2 => Self::SP,
            3 => Self::GP,
            4 => Self::TP,
            5 => Self::T0,
            6 => Self::T1,
            7 => Self::T2,
            8 => Self::S0,
            9 => Self::S1,
            10 => Self::A0,
            11 => Self::A1,
            12 => Self::A2,
            13 => Self::A3,
            14 => Self::A4,
            15 => Self::A5,
            16 => Self::A6,
            17 => Self::A7,
            18 => Self::S2,
            19 => Self::S3,
            20 => Self::S4,
            21 => Self::S5,
            22 => Self::S6,
            23 => Self::S7,
            24 => Self::S8,
            25 => Self::S9,
            26 => Self::S10,
            27 => Self::S11,
            28 => Self::T3,
            29 => Self::T4,
            30 => Self::T5,
            _ => Self::T6,
        }
    }

    /// The architectural number of the register.
    pub fn num(self) -> (n: u8)
        ensures
            n == self.spec_num(),
            n < 32,
    {
        match self {
            Self::ZERO => 0,
            Self::RA => 1,
            Self::SP => 2,
            Self::GP => 3,
            Self::TP => 4,
            Self::T0 => 5,
            Self::T1 => 6,
            Self::T2 => 7,
            Self::S0 => 8,
            Self::S1 => 9,
            Self::A0 => 10,
            Self::A1 => 11,
            Self::A2 => 12,
            Self::A3 => 13,
            Self::A4 => 14,
            Self::A5 => 15,
            Self::A6 => 16,
            Self::A7 => 17,
            Self::S2 => 18,
            Self::S3 => 19,
            Self::S4 => 20,
            Self::S5 => 21,
            Self::S6 => 22,
            Self::S7 => 23,
            Self::S8 => 24,
            Self::S9 => 25,
            Self::S10 => 26,
            Self::S11 => 27,
            Self::T3 => 28,
            Self::T4 => 29,
            Self::T5 => 30,
            Self::T6 => 31,
        }
    }

    /// The assembler name of the register.
    pub fn to_string(&self) -> (s: String)
        ensures
            s@ == self.spec_name(),
    {
        let name: &str = match self {
            Self::ZERO => "zero",
            Self::RA => "ra",
            Self::SP => "sp",
            Self::GP => "gp",
            Self::TP => "tp",
            Self::T0 => "t0",
            Self::T1 => "t1",
            Self::T2 => "t2",
            Self::S0 => "s0",
            Self::S1 => "s1",
            Self::A0 => "a0",
            Self::A1 => "a1",
            Self::A2 => "a2",
            Self::A3 => "a3",
            Self::A4 => "a4",
            Self::A5 => "a5",
            Self::A6 => "a6",
            Self::A7 => "a7",
            Self::S2 => "s2",
            Self::S3 => "s3",
            Self::S4 => "s4",
            Self::S5 => "s5",
            Self::S6 => "s6",
            Self::S7 => "s7",
            Self::S8 => "s8",
            Self::S9 => "s9",
            Self::S10 => "s10",
            Self::S11 => "s11",
            Self::T3 => "t3",
            Self::T4 => "t4",
            Self::T5 => "t5",
            Self::T6 => "t6",
        };
        name.to_string()
    }

    pub fn zero() -> (r: Self)
        ensures
            r == Self::ZERO,
    {
        Self::ZERO
    }

    pub fn ra() -> (r: Self)
        ensures
            r == Self::RA,
    {
        Self::RA
    }

    pub fn sp() -> (r: Self)
        ensures
            r == Self::SP,
    {
        Self::SP
    }

    pub fn gp() -> (r: Self)
        ensures
            r == Self::GP,
    {
        Self::GP
    }

    pub fn tp() -> (r: Self)
        ensures
            r == Self::TP,
    {
        Self::TP
    }

    pub fn t0() -> (r: Self)
        ensures
            r == Self::T0,
    {
        Self::T0
    }

    pub fn t1() -> (r: Self)
        ensures
            r == Self::T1,
    {
        Self::T1
    }

    pub fn t2() -> (r: Self)
        ensures
            r == Self::T2,
    {
        Self::T2
    }

    pub fn s0() -> (r: Self)
        ensures
            r == Self::S0,
    {
        Self::S0
    }

    /// The frame pointer, another name of `s0`.
    pub fn fp() -> (r: Self)
        ensures
            r == Self::S0,
    {
        Self::S0
    }

    pub fn s1() -> (r: Self)
        ensures
            r == Self::S1,
    {
        Self::S1
    }

    pub fn a0() -> (r: Self)
        ensures
            r == Self::A0,
    {
        Self::A0
    }

    pub fn a1() -> (r: Self)
        ensures
            r == Self::A1,
    {
        Self::A1
    }

    pub fn a2() -> (r: Self)
        ensures
            r == Self::A2,
    {
        Self::A2
    }

    pub fn a3() -> (r: Self)
        ensures
            r == Self::A3,
    {
        Self::A3
    }

    pub fn a4() -> (r: Self)
        ensures
            r == Self::A4,
    {
        Self::A4
    }

    pub fn a5() -> (r: Self)
        ensures
            r == Self::A5,
    {
        Self::A5
    }

    pub fn a6() -> (r: Self)
        ensures
            r == Self::A6,
    {
        Self::A6
    }

    pub fn a7() -> (r: Self)
        ensures
            r == Self::A7,
    {
        Self::A7
    }

    pub fn s2() -> (r: Self)
        ensures
            r == Self::S2,
    {
        Self::S2
    }

    pub fn s3() -> (r: Self)
        ensures
            r == Self::S3,
    {
        Self::S3
    }

    pub fn s4() -> (r: Self)
        ensures
            r == Self::S4,
    {
        Self::S4
    }

    pub fn s5() -> (r: Self)
        ensures
            r == Self::S5,
    {
        Self::S5
    }

    pub fn s6() -> (r: Self)
        ensures
            r == Self::S6,
    {
        Self::S6
    }

    pub fn s7() -> (r: Self)
        ensures
            r == Self::S7,
    {
        Self::S7
    }

    pub fn s8() -> (r: Self)
        ensures
            r == Self::S8,
    {
        Self::S8
    }

    pub fn s9() -> (r: Self)
        ensures
            r == Self::S9,
    {
        Self::S9
    }

    pub fn s10() -> (r: Self)
        ensures
            r == Self::S10,
    {
        Self::S10
    }

    pub fn s11() -> (r: Self)
        ensures
            r == Self::S11,
    {
        Self::S11
    }

    pub fn t3() -> (r: Self)
        ensures
            r == Self::T3,
    {
        Self::T3
    }

    pub fn t4() -> (r: Self)
        ensures
            r == Self::T4,
    {
        Self::T4
    }

    pub fn t5() -> (r: Self)
        ensures
            r == Self::T5,
    {
        Self::T5
    }

    pub fn t6() -> (r: Self)
        ensures
            r == Self::T6,
    {
        Self::T6
    }

}

/// Numbering registers is a bijection between `IReg` and `0..32`.
pub proof fn lemma_ireg_num_bijection(r: IReg, n: u8)
    requires
        n < 32,
    ensures
        r.spec_num() < 32,
        IReg::spec_from_u8(r.spec_num()) == r,
        IReg::spec_from_u8(n).spec_num() == n,
{
}

/// A floating-point register of RV64IMFD.
#[derive(Copy, Clone, PartialEq, Eq, Debug, Hash, Structural)]
pub enum FReg {
    /// FP temporary (f0)
    FT0,
    /// FP temporary (f1)
    FT1,
    /// FP temporary (f2)
    FT2,
    /// FP temporary (f3)
    FT3,
    /// FP temporary (f4)
    FT4,
    /// FP temporary (f5)
    FT5,
    /// FP temporary (f6)
    FT6,
    /// FP temporary (f7)
    FT7,
    /// FP saved register (f8)
    FS0,
    /// FP saved register (f9)
    FS1,
    /// FP argument / return value (f10)
    FA0,
    /// FP argument / return value (f11)
    FA1,
    /// FP argument (f12)
    FA2,
    /// FP argument (f13)
    FA3,
    /// FP argument (f14)
    FA4,
    /// FP argument (f15)
    FA5,
    /// FP argument (f16)
    FA6,
    /// FP argument (f17)
    FA7,
    /// FP saved register (f18)
    FS2,
    /// FP saved register (f19)
    FS3,
    /// FP saved register (f20)
    FS4,
    /// FP saved register (f21)
    FS5,
    /// FP saved register (f22)
    FS6,
    /// FP saved register (f23)
    FS7,
    /// FP saved register (f24)
    FS8,
    /// FP saved register (f25)
    FS9,
    /// FP saved register (f26)
    FS10,
    /// FP saved register (f27)
    FS11,
    /// FP temporary (f28)
    FT8,
    /// FP temporary (f29)
    FT9,
    /// FP temporary (f30)
    FT10,
    /// FP temporary (f31)
    FT11,
}

impl FReg {
    /// The architectural number of the register.
    pub open spec fn spec_num(self) -> u8 {
        match self {
            FReg::FT0 => 0,
            FReg::FT1 => 1,
            FReg::FT2 => 2,
            FReg::FT3 => 3,
            FReg::FT4 => 4,
            FReg::FT5 => 5,
            FReg::FT6 => 6,
            FReg::FT7 => 7,
            FReg::FS0 => 8,
            FReg::FS1 => 9,
            FReg::FA0 => 10,
            FReg::FA1 => 11,
            FReg::FA2 => 12,
            FReg::FA3 => 13,
            FReg::FA4 => 14,
            FReg::FA5 => 15,
            FReg::FA6 => 16,
            FReg::FA7 => 17,
            FReg::FS2 => 18,
            FReg::FS3 => 19,
            FReg::FS4 => 20,
            FReg::FS5 => 21,
            FReg::FS6 => 22,
            FReg::FS7 => 23,
            FReg::FS8 => 24,
            FReg::FS9 => 25,
            FReg::FS10 => 26,
            FReg::FS11 => 27,
            FReg::FT8 => 28,
            FReg::FT9 => 29,
            FReg::FT10 => 30,
            FReg::FT11 => 31,
        }
    }

    /// The register whose architectural number is `n` (meaningful for `n < 32`).
    pub open spec fn spec_from_u8(n: u8) -> FReg {
        if n == 0 {
            FReg::FT0
        } else if n == 1 {
            FReg::FT1
        } else if n == 2 {
            FReg::FT2
        } else if n == 3 {
            FReg::FT3
        } else if n == 4 {
            FReg::FT4
        } else if n == 5 {
            FReg::FT5
        } else if n == 6 {
            FReg::FT6
        } else if n == 7 {
            FReg::FT7
        } else if n == 8 {
            FReg::FS0
        } else if n == 9 {
            FReg::FS1
        } else if n == 10 {
            FReg::FA0
        } else if n == 11 {
            FReg::FA1
        } else if n == 12 {
            FReg::FA2
        } else if n == 13 {
            FReg::FA3
        } else if n == 14 {
            FReg::FA4
        } else if n == 15 {
            FReg::FA5
        } else if n == 16 {
            FReg::FA6
        } else if n == 17 {
            FReg::FA7
        } else if n == 18 {
            FReg::FS2
        } else if n == 19 {
            FReg::FS3
        } else if n == 20 {
            FReg::FS4
        } else if n == 21 {
            FReg::FS5
        } else if n == 22 {
            FReg::FS6
        } else if n == 23 {
            FReg::FS7
        } else if n == 24 {
            FReg::FS8
        } else if n == 25 {
            FReg::FS9
        } else if n == 26 {
            FReg::FS10
        } else if n == 27 {
            FReg::FS11
        } else if n == 28 {
            FReg::FT8
        } else if n == 29 {
            FReg::FT9
        } else if n == 30 {
            FReg::FT10
        } else {
            FReg::FT11
        }
    }

    /// The assembler name of the register.
    pub open spec fn spec_name(self) -> Seq<char> {
        match self {
            FReg::FT0 => "ft0"@,
            FReg::FT1 => "ft1"@,
            FReg::FT2 => "ft2"@,
            FReg::FT3 => "ft3"@,
            FReg::FT4 => "ft4"@,
            FReg::FT5 => "ft5"@,
            FReg::FT6 => "ft6"@,
            FReg::FT7 => "ft7"@,
            FReg::FS0 => "fs0"@,
            FReg::FS1 => "fs1"@,
            FReg::FA0 => "fa0"@,
            FReg::FA1 => "fa1"@,
            FReg::FA2 => "fa2"@,
            FReg::FA3 => "fa3"@,
            FReg::FA4 => "fa4"@,
            FReg::FA5 => "fa5"@,
            FReg::FA6 => "fa6"@,
            FReg::FA7 => "fa7"@,
            FReg::FS2 => "fs2"@,
            FReg::FS3 => "fs3"@,
            FReg::FS4 => "fs4"@,
            FReg::FS5 => "fs5"@,
            FReg::FS6 => "fs6"@,
            FReg::FS7 => "fs7"@,
            FReg::FS8 => "fs8"@,
            FReg::FS9 => "fs9"@,
            FReg::FS10 => "fs10"@,
            FReg::FS11 => "fs11"@,
            FReg::FT8 => "ft8"@,
            FReg::FT9 => "ft9"@,
            FReg::FT10 => "ft10"@,
            FReg::FT11 => "ft11"@,
        }
    }

    /// The register with architectural number `num`.
    pub fn from_u8(num: u8) -> (r: Self)
        requires
            num < 32,
        ensures
            r == Self::spec_from_u8(num),
            r.spec_num() == num,
    {
        match num {
            0 => Self::FT0,
            1 => Self::FT1,
            2 => Self::FT2,
            3 => Self::FT3,
            4 => Self::FT4,
            5 => Self::FT5,
            6 => Self::FT6,
            7 => Self::FT7,
            8 => Self::FS0,
            9 => Self::FS1,
            10 => Self::FA0,
            11 => Self::FA1,
            12 => Self::FA2,
            13 => Self::FA3,
            14 => Self::FA4,
            15 => Self::FA5,
            16 => Self::FA6,
            17 => Self::FA7,
            18 => Self::FS2,
            19 => Self::FS3,
            20 => Self::FS4,
            21 => Self::FS5,
            22 => Self::FS6,
            23 => Self::FS7,
            24 => Self::FS8,
            25 => Self::FS9,
            26 => Self::FS10,
            27 => Self::FS11,
            28 => Self::FT8,
            29 => Self::FT9,
            30 => Self::FT10,
            _ => Self::FT11,
        }
    }

    /// The architectural number of the register.
    pub fn num(self) -> (n: u8)
        ensures
            n == self.spec_num(),
            n < 32,
    {
        match self {
            Self::FT0 => 0,
            Self::FT1 => 1,
            Self::FT2 => 2,
            Self::FT3 => 3,
            Self::FT4 => 4,
            Self::FT5 => 5,
            Self::FT6 => 6,
            Self::FT7 => 7,
            Self::FS0 => 8,
            Self::FS1 => 9,
            Self::FA0 => 10,
            Self::FA1 => 11,
            Self::FA2 => 12,
            Self::FA3 => 13,
            Self::FA4 => 14,
            Self::FA5 => 15,
            Self::FA6 => 16,
            Self::FA7 => 17,
            Self::FS2 => 18,
            Self::FS3 => 19,
            Self::FS4 => 20,
            Self::FS5 => 21,
            Self::FS6 => 22,
            Self::FS7 => 23,
            Self::FS8 => 24,
            Self::FS9 => 25,
            Self::FS10 => 26,
            Self::FS11 => 27,
            Self::FT8 => 28,
            Self::FT9 => 29,
            Self::FT10 => 30,
            Self::FT11 => 31,
        }
    }

    /// The assembler name of the register.
    pub fn to_string(&self) -> (s: String)
        ensures
            s@ == self.spec_name(),
    {
        let name: &str = match self {
            Self::FT0 => "ft0",
            Self::FT1 => "ft1",
            Self::FT2 => "ft2",
            Self::FT3 => "ft3",
            Self::FT4 => "ft4",
            Self::FT5 => "ft5",
            Self::FT6 => "ft6",
            Self::FT7 => "ft7",
            Self::FS0 => "fs0",
            Self::FS1 => "fs1",
            Self::FA0 => "fa0",
            Self::FA1 => "fa1",
            Self::FA2 => "fa2",
            Self::FA3 => "fa3",
            Self::FA4 => "fa4",
            Self::FA5 => "fa5",
            Self::FA6 => "fa6",
            Self::FA7 => "fa7",
            Self::FS2 => "fs2",
            Self::FS3 => "fs3",
            Self::FS4 => "fs4",
            Self::FS5 => "fs5",
            Self::FS6 => "fs6",
            Self::FS7 => "fs7",
            Self::FS8 => "fs8",
            Self::FS9 => "fs9",
            Self::FS10 => "fs10",
            Self::FS11 => "fs11",
            Self::FT8 => "ft8",
            Self::FT9 => "ft9",
            Self::FT10 => "ft10",
            Self::FT11 => "ft11",
        };
        name.to_string()
    }

    pub fn ft0() -> (r: Self)
        ensures
            r == Self::FT0,
    {
        Self::FT0
    }

    pub fn ft1() -> (r: Self)
        ensures
            r == Self::FT1,
    {
        Self::FT1
    }

    pub fn ft2() -> (r: Self)
        ensures
            r == Self::FT2,
    {
        Self::FT2
    }

    pub fn ft3() -> (r: Self)
        ensures
            r == Self::FT3,
    {
        Self::FT3
    }

    pub fn ft4() -> (r: Self)
        ensures
            r == Self::FT4,
    {
        Self::FT4
    }

    pub fn ft5() -> (r: Self)
        ensures
            r == Self::FT5,
    {
        Self::FT5
    }

    pub fn ft6() -> (r: Self)
        ensures
            r == Self::FT6,
    {
        Self::FT6
    }

    pub fn ft7() -> (r: Self)
        ensures
            r == Self::FT7,
    {
        Self::FT7
    }

    pub fn fs0() -> (r: Self)
        ensures
            r == Self::FS0,
    {
        Self::FS0
    }

    pub fn fs1() -> (r: Self)
        ensures
            r == Self::FS1,
    {
        Self::FS1
    }

    pub fn fa0() -> (r: Self)
        ensures
            r == Self::FA0,
    {
        Self::FA0
    }

    pub fn fa1() -> (r: Self)
        ensures
            r == Self::FA1,
    {
        Self::FA1
    }

    pub fn fa2() -> (r: Self)
        ensures
            r == Self::FA2,
    {
        Self::FA2
    }

    pub fn fa3() -> (r: Self)
        ensures
            r == Self::FA3,
    {
        Self::FA3
    }

    pub fn fa4() -> (r: Self)
        ensures
            r == Self::FA4,
    {
        Self::FA4
    }

    pub fn fa5() -> (r: Self)
        ensures
            r == Self::FA5,
    {
        Self::FA5
    }

    pub fn fa6() -> (r: Self)
        ensures
            r == Self::FA6,
    {
        Self::FA6
    }

    pub fn fa7() -> (r: Self)
        ensures
            r == Self::FA7,
    {
        Self::FA7
    }

    pub fn fs2() -> (r: Self)
        ensures
            r == Self::FS2,
    {
        Self::FS2
    }

    pub fn fs3() -> (r: Self)
        ensures
            r == Self::FS3,
    {
        Self::FS3
    }

    pub fn fs4() -> (r: Self)
        ensures
            r == Self::FS4,
    {
        Self::FS4
    }

    pub fn fs5() -> (r: Self)
        ensures
            r == Self::FS5,
    {
        Self::FS5
    }

    pub fn fs6() -> (r: Self)
        ensures
            r == Self::FS6,
    {
        Self::FS6
    }

    pub fn fs7() -> (r: Self)
        ensures
            r == Self::FS7,
    {
        Self::FS7
    }

    pub fn fs8() -> (r: Self)
        ensures
            r == Self::FS8,
    {
        Self::FS8
    }

    pub fn fs9() -> (r: Self)
        ensures
            r == Self::FS9,
    {
        Self::FS9
    }

    pub fn fs10() -> (r: Self)
        ensures
            r == Self::FS10,
    {
        Self::FS10
    }

    pub fn fs11() -> (r: Self)
        ensures
            r == Self::FS11,
    {
        Self::FS11
    }

    pub fn ft8() -> (r: Self)
        ensures
            r == Self::FT8,
    {
        Self::FT8
    }

    pub fn ft9() -> (r: Self)
        ensures
            r == Self::FT9,
    {
        Self::FT9
    }

    pub fn ft10() -> (r: Self)
        ensures
            r == Self::FT10,
    {
        Self::FT10
    }

    pub fn ft11() -> (r: Self)
        ensures
            r == Self::FT11,
    {
        Self::FT11
    }

}

/// Numbering registers is a bijection between `FReg` and `0..32`.
pub proof fn lemma_freg_num_bijection(r: FReg, n: u8)
    requires
        n < 32,
    ensures
        r.spec_num() < 32,
        FReg::spec_from_u8(r.spec_num()) == r,
        FReg::spec_from_u8(n).spec_num() == n,
{
}

} // verus!
