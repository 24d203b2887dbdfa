//! Locations of RISC-V code over variables: integer and floating-point
//! variables, and machine registers.
use vstd::prelude::*;
use vstd::std_specs::cmp::PartialEqSpecImpl;
use crate::riscv::rv64imfd_reg::{FReg, IReg};

verus! {

broadcast use vstd::string::group_string_axioms;

/// A place an instruction reads or writes.
#[derive(Debug)]
pub enum RvVarLocation {
    IVar(String),
    FVar(String),
    IReg(IReg),
    FReg(FReg),
}

/// Mathematical model of [`RvVarLocation`].
pub enum LocationV {
    IVar(Seq<char>),
    FVar(Seq<char>),
    IReg(IReg),
    FReg(FReg),
}

impl View for RvVarLocation {
    type V = LocationV;

    open spec fn view(&self) -> LocationV {
        match self {
            RvVarLocation::IVar(s) => LocationV::IVar(s@),
            RvVarLocation::FVar(s) => LocationV::FVar(s@),
            RvVarLocation::IReg(r) => LocationV::IReg(*r),
            RvVarLocation::FReg(r) => LocationV::FReg(*r),
        }
    }
}

impl Clone for RvVarLocation {
    fn clone(&self) -> (r: Self)
        ensures
            r@ == self@,
    {
        match self {
            RvVarLocation::IVar(s) => RvVarLocation::IVar(s.clone()),
            RvVarLocation::FVar(s) => RvVarLocation::FVar(s.clone()),
            RvVarLocation::IReg(r) => RvVarLocation::IReg(*r),
            RvVarLocation::FReg(r) => RvVarLocation::FReg(*r),
        }
    }
}

impl PartialEq for RvVarLocation {
    fn eq(&self, other: &Self) -> (r: bool) {
        match (self, other) {
            (RvVarLocation::IVar(a), RvVarLocation::IVar(b)) => a.eq(b),
            (RvVarLocation::FVar(a), RvVarLocation::FVar(b)) => a.eq(b),
            (RvVarLocation::IReg(a), RvVarLocation::IReg(b)) => *a == *b,
            (RvVarLocation::FReg(a), RvVarLocation::FReg(b)) => *a == *b,
            _ => false,
        }
    }
}

impl PartialEqSpecImpl for RvVarLocation {
    open spec fn obeys_eq_spec() -> bool {
        true
    }

    open spec fn eq_spec(&self, other: &Self) -> bool {
        self@ == other@
    }
}

/// The printed form of a location: a variable's name or a register's name.
pub open spec fn location_name(l: LocationV) -> Seq<char> {
    match l {
        LocationV::IVar(s) => s,
        LocationV::FVar(s) => s,
        LocationV::IReg(r) => r.spec_name(),
        LocationV::FReg(r) => r.spec_name(),
    }
}

impl RvVarLocation {
    /// The printed form of the location.
    pub fn to_string(&self) -> (s: String)
        ensures
            s@ == location_name(self@),
    {
        match self {
            RvVarLocation::IVar(name) => name.clone(),
            RvVarLocation::FVar(name) => name.clone(),
            RvVarLocation::IReg(r) => r.to_string(),
            RvVarLocation::FReg(r) => r.to_string(),
        }
    }
}

/// A floating-point variable.
pub fn fvar(s: String) -> (l: RvVarLocation)
    ensures
        l@ == LocationV::FVar(s@),
{
    RvVarLocation::FVar(s)
}

/// An integer variable.
pub fn var(s: String) -> (l: RvVarLocation)
    ensures
        l@ == LocationV::IVar(s@),
{
    RvVarLocation::IVar(s)
}

/// The integer register `x<n>`.
pub fn x(n: u8) -> (l: RvVarLocation)
    requires
        n < 32,
    ensures
        l@ == LocationV::IReg(IReg::spec_from_u8(n)),
{
    RvVarLocation::IReg(IReg::from_u8(n))
}

/// The integer register `x0`.
pub fn x0() -> (l: RvVarLocation)
    ensures
        l@ == LocationV::IReg(IReg::ZERO),
{
    x(0)
}

pub fn zero() -> (l: RvVarLocation)
    ensures
        l@ == LocationV::IReg(IReg::ZERO),
{
    RvVarLocation::IReg(IReg::zero())
}

pub fn ra() -> (l: RvVarLocation)
    ensures
        l@ == LocationV::IReg(IReg::RA),
{
    RvVarLocation::IReg(IReg::ra())
}

pub fn sp() -> (l: RvVarLocation)
    ensures
        l@ == LocationV::IReg(IReg::SP),
{
    RvVarLocation::IReg(IReg::sp())
}

pub fn gp() -> (l: RvVarLocation)
    ensures
        l@ == LocationV::IReg(IReg::GP),
{
    RvVarLocation::IReg(IReg::gp())
}

pub fn tp() -> (l: RvVarLocation)
    ensures
        l@ == LocationV::IReg(IReg::TP),
{
    RvVarLocation::IReg(IReg::tp())
}

pub fn t0() -> (l: RvVarLocation)
    ensures
        l@ == LocationV::IReg(IReg::T0),
{
    RvVarLocation::IReg(IReg::t0())
}

pub fn t1() -> (l: RvVarLocation)
    ensures
        l@ == LocationV::IReg(IReg::T1),
{
    RvVarLocation::IReg(IReg::t1())
}

pub fn t2() -> (l: RvVarLocation)
    ensures
        l@ == LocationV::IReg(IReg::T2),
{
    RvVarLocation::IReg(IReg::t2())
}

pub fn s0() -> (l: RvVarLocation)
    ensures
        l@ == LocationV::IReg(IReg::S0),
{
    RvVarLocation::IReg(IReg::s0())
}

pub fn fp() -> (l: RvVarLocation)
    ensures
        l@ == LocationV::IReg(IReg::S0),
{
    RvVarLocation::IReg(IReg::fp())
}

pub fn s1() -> (l: RvVarLocation)
    ensures
        l@ == LocationV::IReg(IReg::S1),
{
    RvVarLocation::IReg(IReg::s1())
}

pub fn a0() -> (l: RvVarLocation)
    ensures
        l@ == LocationV::IReg(IReg::A0),
{
    RvVarLocation::IReg(IReg::a0())
}

pub fn a1() -> (l: RvVarLocation)
    ensures
        l@ == LocationV::IReg(IReg::A1),
{
    RvVarLocation::IReg(IReg::a1())
}

pub fn a2() -> (l: RvVarLocation)
    ensures
        l@ == LocationV::IReg(IReg::A2),
{
    RvVarLocation::IReg(IReg::a2())
}

pub fn a3() -> (l: RvVarLocation)
    ensures
        l@ == LocationV::IReg(IReg::A3),
{
    RvVarLocation::IReg(IReg::a3())
}

pub fn a4() -> (l: RvVarLocation)
    ensures
        l@ == LocationV::IReg(IReg::A4),
{
    RvVarLocation::IReg(IReg::a4())
}

pub fn a5() -> (l: RvVarLocation)
    ensures
        l@ == LocationV::IReg(IReg::A5),
{
    RvVarLocation::IReg(IReg::a5())
}

pub fn a6() -> (l: RvVarLocation)
    ensures
        l@ == LocationV::IReg(IReg::A6),
{
    RvVarLocation::IReg(IReg::a6())
}

pub fn a7() -> (l: RvVarLocation)
    ensures
        l@ == LocationV::IReg(IReg::A7),
{
    RvVarLocation::IReg(IReg::a7())
}

pub fn s2() -> (l: RvVarLocation)
    ensures
        l@ == LocationV::IReg(IReg::S2),
{
    RvVarLocation::IReg(IReg::s2())
}

pub fn s3() -> (l: RvVarLocation)
    ensures
        l@ == LocationV::IReg(IReg::S3),
{
    RvVarLocation::IReg(IReg::s3())
}

pub fn s4() -> (l: RvVarLocation)
    ensures
        l@ == LocationV::IReg(IReg::S4),
{
    RvVarLocation::IReg(IReg::s4())
}

pub fn s5() -> (l: RvVarLocation)
    ensures
        l@ == LocationV::IReg(IReg::S5),
{
    RvVarLocation::IReg(IReg::s5())
}

pub fn s6() -> (l: RvVarLocation)
    ensures
        l@ == LocationV::IReg(IReg::S6),
{
    RvVarLocation::IReg(IReg::s6())
}

pub fn s7() -> (l: RvVarLocation)
    ensures
        l@ == LocationV::IReg(IReg::S7),
{
    RvVarLocation::IReg(IReg::s7())
}

pub fn s8() -> (l: RvVarLocation)
    ensures
        l@ == LocationV::IReg(IReg::S8),
{
    RvVarLocation::IReg(IReg::s8())
}

pub fn s9() -> (l: RvVarLocation)
    ensures
        l@ == LocationV::IReg(IReg::S9),
{
    RvVarLocation::IReg(IReg::s9())
}

pub fn s10() -> (l: RvVarLocation)
    ensures
        l@ == LocationV::IReg(IReg::S10),
{
    RvVarLocation::IReg(IReg::s10())
}

pub fn s11() -> (l: RvVarLocation)
    ensures
        l@ == LocationV::IReg(IReg::S11),
{
    RvVarLocation::IReg(IReg::s11())
}

pub fn t3() -> (l: RvVarLocation)
    ensures
        l@ == LocationV::IReg(IReg::T3),
{
    RvVarLocation::IReg(IReg::t3())
}

pub fn t4() -> (l: RvVarLocation)
    ensures
        l@ == LocationV::IReg(IReg::T4),
{
    RvVarLocation::IReg(IReg::t4())
}

pub fn t5() -> (l: RvVarLocation)
    ensures
        l@ == LocationV::IReg(IReg::T5),
{
    RvVarLocation::IReg(IReg::t5())
}

pub fn t6() -> (l: RvVarLocation)
    ensures
        l@ == LocationV::IReg(IReg::T6),
{
    RvVarLocation::IReg(IReg::t6())
}

pub fn ft0() -> (l: RvVarLocation)
    ensures
        l@ == LocationV::FReg(FReg::FT0),
{
    RvVarLocation::FReg(FReg::ft0())
}

pub fn ft1() -> (l: RvVarLocation)
    ensures
        l@ == LocationV::FReg(FReg::FT1),
{
    RvVarLocation::FReg(FReg::ft1())
}

pub fn ft2() -> (l: RvVarLocation)
    ensures
        l@ == LocationV::FReg(FReg::FT2),
{
    RvVarLocation::FReg(FReg::ft2())
}

pub fn ft3() -> (l: RvVarLocation)
    ensures
        l@ == LocationV::FReg(FReg::FT3),
{
    RvVarLocation::FReg(FReg::ft3())
}

pub fn ft4() -> (l: RvVarLocation)
    ensures
        l@ == LocationV::FReg(FReg::FT4),
{
    RvVarLocation::FReg(FReg::ft4())
}

pub fn ft5() -> (l: RvVarLocation)
    ensures
        l@ == LocationV::FReg(FReg::FT5),
{
    RvVarLocation::FReg(FReg::ft5())
}

pub fn ft6() -> (l: RvVarLocation)
    ensures
        l@ == LocationV::FReg(FReg::FT6),
{
    RvVarLocation::FReg(FReg::ft6())
}

pub fn ft7() -> (l: RvVarLocation)
    ensures
        l@ == LocationV::FReg(FReg::FT7),
{
    RvVarLocation::FReg(FReg::ft7())
}

pub fn fs0() -> (l: RvVarLocation)
    ensures
        l@ == LocationV::FReg(FReg::FS0),
{
    RvVarLocation::FReg(FReg::fs0())
}

pub fn fs1() -> (l: RvVarLocation)
    ensures
        l@ == LocationV::FReg(FReg::FS1),
{
    RvVarLocation::FReg(FReg::fs1())
}

pub fn fa0() -> (l: RvVarLocation)
    ensures
        l@ == LocationV::FReg(FReg::FA0),
{
    RvVarLocation::FReg(FReg::fa0())
}

pub fn fa1() -> (l: RvVarLocation)
    ensures
        l@ == LocationV::FReg(FReg::FA1),
{
    RvVarLocation::FReg(FReg::fa1())
}

pub fn fa2() -> (l: RvVarLocation)
    ensures
        l@ == LocationV::FReg(FReg::FA2),
{
    RvVarLocation::FReg(FReg::fa2())
}

pub fn fa3() -> (l: RvVarLocation)
    ensures
        l@ == LocationV::FReg(FReg::FA3),
{
    RvVarLocation::FReg(FReg::fa3())
}

pub fn fa4() -> (l: RvVarLocation)
    ensures
        l@ == LocationV::FReg(FReg::FA4),
{
    RvVarLocation::FReg(FReg::fa4())
}

pub fn fa5() -> (l: RvVarLocation)
    ensures
        l@ == LocationV::FReg(FReg::FA5),
{
    RvVarLocation::FReg(FReg::fa5())
}

pub fn fa6() -> (l: RvVarLocation)
    ensures
        l@ == LocationV::FReg(FReg::FA6),
{
    RvVarLocation::FReg(FReg::fa6())
}

pub fn fa7() -> (l: RvVarLocation)
    ensures
        l@ == LocationV::FReg(FReg::FA7),
{
    RvVarLocation::FReg(FReg::fa7())
}

pub fn fs2() -> (l: RvVarLocation)
    ensures
        l@ == LocationV::FReg(FReg::FS2),
{
    RvVarLocation::FReg(FReg::fs2())
}

pub fn fs3() -> (l: RvVarLocation)
    ensures
        l@ == LocationV::FReg(FReg::FS3),
{
    RvVarLocation::FReg(FReg::fs3())
}

pub fn fs4() -> (l: RvVarLocation)
    ensures
        l@ == LocationV::FReg(FReg::FS4),
{
    RvVarLocation::FReg(FReg::fs4())
}

pub fn fs5() -> (l: RvVarLocation)
    ensures
        l@ == LocationV::FReg(FReg::FS5),
{
    RvVarLocation::FReg(FReg::fs5())
}

pub fn fs6() -> (l: RvVarLocation)
    ensures
        l@ == LocationV::FReg(FReg::FS6),
{
    RvVarLocation::FReg(FReg::fs6())
}

pub fn fs7() -> (l: RvVarLocation)
    ensures
        l@ == LocationV::FReg(FReg::FS7),
{
    RvVarLocation::FReg(FReg::fs7())
}

pub fn fs8() -> (l: RvVarLocation)
    ensures
        l@ == LocationV::FReg(FReg::FS8),
{
    RvVarLocation::FReg(FReg::fs8())
}

pub fn fs9() -> (l: RvVarLocation)
    ensures
        l@ == LocationV::FReg(FReg::FS9),
{
    RvVarLocation::FReg(FReg::fs9())
}

pub fn fs10() -> (l: RvVarLocation)
    ensures
        l@ == LocationV::FReg(FReg::FS10),
{
    RvVarLocation::FReg(FReg::fs10())
}

pub fn fs11() -> (l: RvVarLocation)
    ensures
        l@ == LocationV::FReg(FReg::FS11),
{
    RvVarLocation::FReg(FReg::fs11())
}

pub fn ft8() -> (l: RvVarLocation)
    ensures
        l@ == LocationV::FReg(FReg::FT8),
{
    RvVarLocation::FReg(FReg::ft8())
}

pub fn ft9() -> (l: RvVarLocation)
    ensures
        l@ == LocationV::FReg(FReg::FT9),
{
    RvVarLocation::FReg(FReg::ft9())
}

pub fn ft10() -> (l: RvVarLocation)
    ensures
        l@ == LocationV::FReg(FReg::FT10),
{
    RvVarLocation::FReg(FReg::ft10())
}

pub fn ft11() -> (l: RvVarLocation)
    ensures
        l@ == LocationV::FReg(FReg::FT11),
{
    RvVarLocation::FReg(FReg::ft11())
}

} // verus!

