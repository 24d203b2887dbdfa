//! Expressions in which the allocation of tuples is explicit: the checks on
//! free space, the collections, the allocations and the initialisation of
//! each element, with a builder for each form.
use vstd::prelude::*;
use crate::syntax::{BinOp, Ident, PrimIO, Type, UnaryOp};

verus! {

/// A typed expression whose tuple allocations are explicit.  Floating-point
/// literals are held by their IEEE 754 bits.
#[derive(Debug, PartialEq)]
pub enum AllocExpr {
    Unit,
    Bool(bool),
    Int(i64),
    Float(u64),
    Var(Ident, Type),
    BinOp(BinOp, Box<AllocExpr>, Box<AllocExpr>, Type),
    /// Collect garbage to make room for this many bytes.
    Collect(usize),
    /// Allocate this many bytes.
    Allocate(usize),
    GlobalValue(GlobalValue),
    TupleProj(Box<AllocExpr>, usize, Type),
    /// Store an element, at an index, into a tuple.
    TupleElemInit(Box<AllocExpr>, Box<AllocExpr>, usize),
    /// Expressions evaluated in order, then a last one, with its type.
    Sequence(Vec<AllocExpr>, Box<AllocExpr>, Type),
    PrimIO(PrimIO, Option<Box<AllocExpr>>, Type),
    UnaryOp(UnaryOp, Box<AllocExpr>, Type),
    If(Box<AllocExpr>, Box<AllocExpr>, Box<AllocExpr>, Type),
    Let(Ident, Type, Box<AllocExpr>, Box<AllocExpr>, Type),
    /// Function name, parameters, return type, body, the expression after
    /// the binding, and its type.
    LetRec(Ident, Vec<(Ident, Type)>, Type, Box<AllocExpr>, Box<AllocExpr>, Type),
    App(Box<AllocExpr>, Vec<AllocExpr>, Type),
    Lambda(Vec<(Ident, Type)>, Type, Box<AllocExpr>, Type),
}

/// The values the allocator keeps: the next free address and the end of the
/// space allocated from.
#[derive(Debug, Clone, Copy, PartialEq, Eq, Structural)]
pub enum GlobalValue {
    FreePtr,
    FromspaceEnd,
}

/// The unit value.
pub fn alloc_unit() -> (e: AllocExpr)
    ensures
        e == AllocExpr::Unit,
{
    AllocExpr::Unit
}

/// A boolean literal.
pub fn alloc_bool(b: bool) -> (e: AllocExpr)
    ensures
        e == AllocExpr::Bool(b),
{
    AllocExpr::Bool(b)
}

/// An integer literal.
pub fn alloc_int(n: i64) -> (e: AllocExpr)
    ensures
        e == AllocExpr::Int(n),
{
    AllocExpr::Int(n)
}

/// A floating-point literal, by its bits.
pub fn alloc_float(f: u64) -> (e: AllocExpr)
    ensures
        e == AllocExpr::Float(f),
{
    AllocExpr::Float(f)
}

/// A variable of type `ty`.
pub fn alloc_var(name: Ident, ty: Type) -> (e: AllocExpr)
    ensures
        e == AllocExpr::Var(name, ty),
{
    AllocExpr::Var(name, ty)
}

/// A binary operation of type `ty`.
pub fn alloc_bin_op(op: BinOp, left: AllocExpr, right: AllocExpr, ty: Type) -> (e: AllocExpr)
    ensures
        e == AllocExpr::BinOp(op, Box::new(left), Box::new(right), ty),
{
    AllocExpr::BinOp(op, Box::new(left), Box::new(right), ty)
}

/// A collection making room for `bytes` bytes.
pub fn collect(bytes: usize) -> (e: AllocExpr)
    ensures
        e == AllocExpr::Collect(bytes),
{
    AllocExpr::Collect(bytes)
}

/// An allocation of `bytes` bytes.
pub fn allocate(bytes: usize) -> (e: AllocExpr)
    ensures
        e == AllocExpr::Allocate(bytes),
{
    AllocExpr::Allocate(bytes)
}

/// A read of an allocator value.
pub fn global_value(value: GlobalValue) -> (e: AllocExpr)
    ensures
        e == AllocExpr::GlobalValue(value),
{
    AllocExpr::GlobalValue(value)
}

/// A read of the next free address.
pub fn global_freeptr() -> (e: AllocExpr)
    ensures
        e == AllocExpr::GlobalValue(GlobalValue::FreePtr),
{
    AllocExpr::GlobalValue(GlobalValue::FreePtr)
}

/// A read of the end of the space allocated from.
pub fn global_fromspace_end() -> (e: AllocExpr)
    ensures
        e == AllocExpr::GlobalValue(GlobalValue::FromspaceEnd),
{
    AllocExpr::GlobalValue(GlobalValue::FromspaceEnd)
}

/// The store of `element` at `idx` into `tuple`.
pub fn alloc_tuple_elem_init(tuple: AllocExpr, element: AllocExpr, idx: usize) -> (e: AllocExpr)
    ensures
        e == AllocExpr::TupleElemInit(Box::new(tuple), Box::new(element), idx),
{
    AllocExpr::TupleElemInit(Box::new(tuple), Box::new(element), idx)
}

/// Element `idx` of `tuple`, of type `ty`.
pub fn alloc_tuple_proj(tuple: AllocExpr, idx: usize, ty: Type) -> (e: AllocExpr)
    ensures
        e == AllocExpr::TupleProj(Box::new(tuple), idx, ty),
{
    AllocExpr::TupleProj(Box::new(tuple), idx, ty)
}

/// `exprs` in order, then `last`, of type `ty`.
pub fn alloc_seq(exprs: Vec<AllocExpr>, last: AllocExpr, ty: Type) -> (e: AllocExpr)
    ensures
        e == AllocExpr::Sequence(exprs, Box::new(last), ty),
{
    AllocExpr::Sequence(exprs, Box::new(last), ty)
}

/// A primitive input or output operation of type `ty`, on `expr` if any.
pub fn alloc_prim_io(prim: PrimIO, expr: Option<AllocExpr>, ty: Type) -> (e: AllocExpr)
    ensures
        e == AllocExpr::PrimIO(
            prim,
            match expr {
                Some(x) => Some(Box::new(x)),
                None => None,
            },
            ty,
        ),
{
    let boxed = match expr {
        Some(x) => Some(Box::new(x)),
        None => None,
    };
    AllocExpr::PrimIO(prim, boxed, ty)
}

/// A unary operation of type `ty`.
pub fn alloc_unary(op: UnaryOp, expr: AllocExpr, ty: Type) -> (e: AllocExpr)
    ensures
        e == AllocExpr::UnaryOp(op, Box::new(expr), ty),
{
    AllocExpr::UnaryOp(op, Box::new(expr), ty)
}

/// A conditional of type `ty`.
pub fn alloc_if_else(cond: AllocExpr, then_branch: AllocExpr, else_branch: AllocExpr, ty: Type) -> (e: AllocExpr)
    ensures
        e == AllocExpr::If(Box::new(cond), Box::new(then_branch), Box::new(else_branch), ty),
{
    AllocExpr::If(Box::new(cond), Box::new(then_branch), Box::new(else_branch), ty)
}

/// `name` of type `ty` bound to `val` in `body`.
pub fn alloc_let(name: Ident, ty: Type, val: AllocExpr, body: AllocExpr, body_ty: Type) -> (e: AllocExpr)
    ensures
        e == AllocExpr::Let(name, ty, Box::new(val), Box::new(body), body_ty),
{
    AllocExpr::Let(name, ty, Box::new(val), Box::new(body), body_ty)
}

/// A recursive function `name` bound in `next`.
pub fn alloc_let_rec(name: Ident, params: Vec<(Ident, Type)>, ret_ty: Type, body: AllocExpr, next: AllocExpr, next_ty: Type) -> (e: AllocExpr)
    ensures
        e == AllocExpr::LetRec(name, params, ret_ty, Box::new(body), Box::new(next), next_ty),
{
    AllocExpr::LetRec(name, params, ret_ty, Box::new(body), Box::new(next), next_ty)
}

/// `func` applied to `args`, of type `ty`.
pub fn alloc_app(func: AllocExpr, args: Vec<AllocExpr>, ty: Type) -> (e: AllocExpr)
    ensures
        e == AllocExpr::App(Box::new(func), args, ty),
{
    AllocExpr::App(Box::new(func), args, ty)
}

/// An anonymous function of type `ty`.
pub fn alloc_lambda(params: Vec<(Ident, Type)>, ret_ty: Type, body: AllocExpr, ty: Type) -> (e: AllocExpr)
    ensures
        e == AllocExpr::Lambda(params, ret_ty, Box::new(body), ty),
{
    AllocExpr::Lambda(params, ret_ty, Box::new(body), ty)
}

} // verus!
