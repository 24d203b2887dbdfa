use vstd::prelude::*;

verus! {

broadcast use vstd::string::group_string_axioms;

/// An integer register of the RISC-V base ISA.
#[derive(Copy, Clone, PartialEq, Eq, Debug, Hash, Structural)]
pub enum Reg {
    /// Always zero (x0)
    ZERO,
    /// Return address (x1)
    RA,
    /// Stack pointer (x2)
    SP,
    /// Global pointer (x3)
    GP,
    /// Thread pointer (x4)
    TP,
    /// Temporary (x5)
    T0,
    /// Temporary (x6)
    T1,
    /// Temporary (x7)
    T2,
    /// Saved register (frame pointer) (x8)
    S0,
    /// Saved register (x9)
    S1,
    /// Function argument / return value (x10)
    A0,
    /// Function argument / return value (x11)
    A1,
    /// Function argument (x12)
    A2,
    /// Function argument (x13)
    A3,
    /// Function argument (x14)
    A4,
    /// Function argument (x15)
    A5,
    /// Function argument (x16)
    A6,
    /// Function argument (x17)
    A7,
    /// Saved register (x18)
    S2,
    /// Saved register (x19)
    S3,
    /// Saved register (x20)
    S4,
    /// Saved register (x21)
    S5,
    /// Saved register (x22)
    S6,
    /// Saved register (x23)
    S7,
    /// Saved register (x24)
    S8,
    /// Saved register (x25)
    S9,
    /// Saved register (x26)
    S10,
    /// Saved register (x27)
    S11,
    /// Temporary (x28)
    T3,
    /// Temporary (x29)
    T4,
    /// Temporary (x30)
    T5,
    /// Temporary (x31)
    T6,
}

impl Reg {
    /// The architectural number of the register.
    pub open spec fn spec_num(self) -> u8 {
        match self {
            Reg::ZERO => 0,
            Reg::RA => 1,
            Reg::SP => 2,
            Reg::GP => 3,
            Reg::TP => 4,
            Reg::T0 => 5,
            Reg::T1 => 6,
            Reg::T2 => 7,
            Reg::S0 => 8,
            Reg::S1 => 9,
            Reg::A0 => 10,
            Reg::A1 => 11,
            Reg::A2 => 12,
            Reg::A3 => 13,
            Reg::A4 => 14,
            Reg::A5 => 15,
            Reg::A6 => 16,
            Reg::A7 => 17,
            Reg::S2 => 18,
            Reg::S3 => 19,
            Reg::S4 => 20,
            Reg::S5 => 21,
            Reg::S6 => 22,
            Reg::S7 => 23,
            Reg::S8 => 24,
            Reg::S9 => 25,
            Reg::S10 => 26,
            Reg::S11 => 27,
            Reg::T3 => 28,
            Reg::T4 => 29,
            Reg::T5 => 30,
            Reg::T6 => 31,
        }
    }

    /// The register whose architectural number is `n` (meaningful for `n < 32`).
    pub open spec fn spec_from_u8(n: u8) -> Reg {
        if n == 0 {
            Reg::ZERO
        } else if n == 1 {
            Reg::RA
        } else if n == 2 {
            Reg::SP
        } else if n == 3 {
            Reg::GP
        } else if n == 4 {
            Reg::TP
        } else if n == 5 {
            Reg::T0
        } else if n == 6 {
            Reg::T1
        } else if n == 7 {
            Reg::T2
        } else if n == 8 {
            Reg::S0
        } else if n == 9 {
            Reg::S1
        } else if n == 10 {
            Reg::A0
        } else if n == 11 {
            Reg::A1
        } else if n == 12 {
            Reg::A2
        } else if n == 13 {
            Reg::A3
        } else if n == 14 {
            Reg::A4
        } else if n == 15 {
            Reg::A5
        } else if n == 16 {
            Reg::A6
        } else if n == 17 {
            Reg::A7
        } else if n == 18 {
            Reg::S2
        } else if n == 19 {
            Reg::S3
        } else if n == 20 {
            Reg::S4
        } else if n == 21 {
            Reg::S5
        } else if n == 22 {
            Reg::S6
        } else if n == 23 {
            Reg::S7
        } else if n == 24 {
            Reg::S8
        } else if n == 25 {
            Reg::S9
        } else if n == 26 {
            Reg::S10
        } else if n == 27 {
            Reg::S11
        } else if n == 28 {
            Reg::T3
        } else if n == 29 {
            Reg::T4
        } else if n == 30 {
            Reg::T5
        } else {
            Reg::T6
        }
    }

    /// The assembler name of the register.
    pub open spec fn spec_name(self) -> Seq<char> {
        match self {
            Reg::ZERO => "zero"@,
            Reg::RA => "ra"@,
            Reg::SP => "sp"@,
            Reg::GP => "gp"@,
            Reg::TP => "tp"@,
            Reg::T0 => "t0"@,
            Reg::T1 => "t1"@,
            Reg::T2 => "t2"@,
            Reg::S0 => "s0"@,
            Reg::S1 => "s1"@,
            Reg::A0 => "a0"@,
            Reg::A1 => "a1"@,
            Reg::A2 => "a2"@,
            Reg::A3 => "a3"@,
            Reg::A4 => "a4"@,
            Reg::A5 => "a5"@,
            Reg::A6 => "a6"@,
            Reg::A7 => "a7"@,
            Reg::S2 => "s2"@,
            Reg::S3 => "s3"@,
            Reg::S4 => "s4"@,
            Reg::S5 => "s5"@,
            Reg::S6 => "s6"@,
            Reg::S7 => "s7"@,
            Reg::S8 => "s8"@,
            Reg::S9 => "s9"@,
            Reg::S10 => "s10"@,
            Reg::S11 => "s11"@,
            Reg::T3 => "t3"@,
            Reg::T4 => "t4"@,
            Reg::T5 => "t5"@,
            Reg::T6 => "t6"@,
        }
    }

    /// The register with architectural number `num`.
    pub fn from_u8(num: u8) -> (r: Self)
        requires
            num < 32,
        ensures
            r == Self::spec_from_u8(num),
            r.spec_num() == num,
    {
        match num {
            0 => Self::ZERO,
            1 => Self::RA,
            2 => Self::SP,
            3 => Self::GP,
            4 => Self::TP,
            5 => Self::T0,
            6 => Self::T1,
            7 => Self::T2,
            8 => Self::S0,
            9 => Self::S1,
            10 => Self::A0,
            11 => Self::A1,
            12 => Self::A2,
            13 => Self::A3,
            14 => Self::A4,
            15 => Self::A5,
            16 => Self::A6,
            17 => Self::A7,
            18 => Self::S2,
            19 => Self::S3,
            20 => Self::S4,
            21 => Self::S5,
            22 => Self::S6,
            23 => Self::S7,
            24 => Self::S8,
            25 => Self::S9,
            26 => Self::S10,
            27 => Self::S11,
            28 => Self::T3,
            29 => Self::T4,
            30 => Self::T5,
            _ => Self::T6,
        }
    }

    /// The architectural number of the register.
    pub fn num(self) -> (n: u8)
        ensures
            n == self.spec_num(),
            n < 32,
    {
        match self {
            Self::ZERO => 0,
            Self::RA => 1,
            Self::SP => 2,
            Self::GP => 3,
            Self::TP => 4,
            Self::T0 => 5,
            Self::T1 => 6,
            Self::T2 => 7,
            Self::S0 => 8,
            Self::S1 => 9,
            Self::A0 => 10,
            Self::A1 => 11,
            Self::A2 => 12,
            Self::A3 => 13,
            Self::A4 => 14,
            Self::A5 => 15,
            Self::A6 => 16,
            Self::A7 => 17,
            Self::S2 => 18,
            Self::S3 => 19,
            Self::S4 => 20,
            Self::S5 => 21,
            Self::S6 => 22,
            Self::S7 => 23,
            Self::S8 => 24,
            Self::S9 => 25,
            Self::S10 => 26,
            Self::S11 => 27,
            Self::T3 => 28,
            Self::T4 => 29,
            Self::T5 => 30,
            Self::T6 => 31,
        }
    }

    /// The assembler name of the register.
    pub fn to_string(&self) -> (s: String)
        ensures
            s@ == self.spec_name(),
    {
        let name: &str = match self {
            Self::ZERO => "zero",
            Self::RA => "ra",
            Self::SP => "sp",
            Self::GP => "gp",
            Self::TP => "tp",
            Self::T0 => "t0",
            Self::T1 => "t1",
            Self::T2 => "t2",
            Self::S0 => "s0",
            Self::S1 => "s1",
            Self::A0 => "a0",
            Self::A1 => "a1",
            Self::A2 => "a2",
            Self::A3 => "a3",
            Self::A4 => "a4",
            Self::A5 => "a5",
            Self::A6 => "a6",
            Self::A7 => "a7",
            Self::S2 => "s2",
            Self::S3 => "s3",
            Self::S4 => "s4",
            Self::S5 => "s5",
            Self::S6 => "s6",
            Self::S7 => "s7",
            Self::S8 => "s8",
            Self::S9 => "s9",
            Self::S10 => "s10",
            Self::S11 => "s11",
            Self::T3 => "t3",
            Self::T4 => "t4",
            Self::T5 => "t5",
            Self::T6 => "t6",
        };
        name.to_string()
    }

    pub fn zero() -> (r: Self)
        ensures
            r == Self::ZERO,
    {
        Self::ZERO
    }

    pub fn ra() -> (r: Self)
        ensures
            r == Self::RA,
    {
        Self::RA
    }

    pub fn sp() -> (r: Self)
        ensures
            r == Self::SP,
    {
        Self::SP
    }

    pub fn gp() -> (r: Self)
        ensures
            r == Self::GP,
    {
        Self::GP
    }

    pub fn tp() -> (r: Self)
        ensures
            r == Self::TP,
    {
        Self::TP
    }

    pub fn t0() -> (r: Self)
        ensures
            r == Self::T0,
    {
        Self::T0
    }

    pub fn t1() -> (r: Self)
        ensures
            r == Self::T1,
    {
        Self::T1
    }

    pub fn t2() -> (r: Self)
        ensures
            r == Self::T2,
    {
        Self::T2
    }

    pub fn s0() -> (r: Self)
        ensures
            r == Self::S0,
    {
        Self::S0
    }

    /// The frame pointer, another name of `s0`.
    pub fn fp() -> (r: Self)
        ensures
            r == Self::S0,
    {
        Self::S0
    }

    pub fn s1() -> (r: Self)
        ensures
            r == Self::S1,
    {
        Self::S1
    }

    pub fn a0() -> (r: Self)
        ensures
            r == Self::A0,
    {
        Self::A0
    }

    pub fn a1() -> (r: Self)
        ensures
            r == Self::A1,
    {
        Self::A1
    }

    pub fn a2() -> (r: Self)
        ensures
            r == Self::A2,
    {
        Self::A2
    }

    pub fn a3() -> (r: Self)
        ensures
            r == Self::A3,
    {
        Self::A3
    }

    pub fn a4() -> (r: Self)
        ensures
            r == Self::A4,
    {
        Self::A4
    }

    pub fn a5() -> (r: Self)
        ensures
            r == Self::A5,
    {
        Self::A5
    }

    pub fn a6() -> (r: Self)
        ensures
            r == Self::A6,
    {
        Self::A6
    }

    pub fn a7() -> (r: Self)
        ensures
            r == Self::A7,
    {
        Self::A7
    }

    pub fn s2() -> (r: Self)
        ensures
            r == Self::S2,
    {
        Self::S2
    }

    pub fn s3() -> (r: Self)
        ensures
            r == Self::S3,
    {
        Self::S3
    }

    pub fn s4() -> (r: Self)
        ensures
            r == Self::S4,
    {
        Self::S4
    }

    pub fn s5() -> (r: Self)
        ensures
            r == Self::S5,
    {
        Self::S5
    }

    pub fn s6() -> (r: Self)
        ensures
            r == Self::S6,
    {
        Self::S6
    }

    pub fn s7() -> (r: Self)
        ensures
            r == Self::S7,
    {
        Self::S7
    }

    pub fn s8() -> (r: Self)
        ensures
            r == Self::S8,
    {
        Self::S8
    }

    pub fn s9() -> (r: Self)
        ensures
            r == Self::S9,
    {
        Self::S9
    }

    pub fn s10() -> (r: Self)
        ensures
            r == Self::S10,
    {
        Self::S10
    }

    pub fn s11() -> (r: Self)
        ensures
            r == Self::S11,
    {
        Self::S11
    }

    pub fn t3() -> (r: Self)
        ensures
            r == Self::T3,
    {
        Self::T3
    }

    pub fn t4() -> (r: Self)
        ensures
            r == Self::T4,
    {
        Self::T4
    }

    pub fn t5() -> (r: Self)
        ensures
            r == Self::T5,
    {
        Self::T5
    }

    pub fn t6() -> (r: Self)
        ensures
            r == Self::T6,
    {
        Self::T6
    }

}

/// Numbering registers is a bijection between `Reg` and `0..32`.
pub proof fn lemma_reg_num_bijection(r: Reg, n: u8)
    requires
        n < 32,
    ensures
        r.spec_num() < 32,
        Reg::spec_from_u8(r.spec_num()) == r,
        Reg::spec_from_u8(n).spec_num() == n,
{
}

} // verus!
