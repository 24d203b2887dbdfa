//! Type inference for the surface language, producing type-annotated
//! expressions.
use vstd::prelude::*;
use crate::syntax::{
    binop_name, clone_params, opt_type_model, params_model, type_eq, types_model, BinOp, Expr, ExprV, Ident, PrimIO, Type, TypeV, UnaryOp,
};

verus! {

broadcast use vstd::string::group_string_axioms;

/// Expressions annotated with their types.  A float literal is held by the
/// bit pattern of its value.
#[derive(Debug, PartialEq)]
pub enum TypedExpr {
    Unit,
    Bool(bool),
    Int(i64),
    Float(u64),
    Var(Ident, Type),
    BinOp(BinOp, Box<TypedExpr>, Box<TypedExpr>, Type),
    Tuple(Vec<TypedExpr>, Type),
    TupleProjection(Box<TypedExpr>, usize, Type),
    PrimIO(PrimIO, Option<Box<TypedExpr>>, Type),
    UnaryOp(UnaryOp, Box<TypedExpr>, Type),
    Ann(Box<TypedExpr>, Type),
    If(Box<TypedExpr>, Box<TypedExpr>, Box<TypedExpr>, Type),
    Let(Ident, Type, Box<TypedExpr>, Box<TypedExpr>, Type),
    /// Function name, parameters, return type, function body, the expression
    /// after the binding, and the type of the whole.
    LetRec(Ident, Vec<(Ident, Type)>, Type, Box<TypedExpr>, Box<TypedExpr>, Type),
    App(Box<TypedExpr>, Vec<TypedExpr>, Type),
    Lambda(Vec<(Ident, Type)>, Type, Box<TypedExpr>, Type),
}

/// Mathematical model of [`TypedExpr`].
pub enum TExprV {
    Unit,
    Bool(bool),
    Int(i64),
    Float(u64),
    Var(Seq<char>, TypeV),
    BinOp(BinOp, Box<TExprV>, Box<TExprV>, TypeV),
    Tuple(Seq<TExprV>, TypeV),
    TupleProjection(Box<TExprV>, usize, TypeV),
    PrimIO(PrimIO, Option<Box<TExprV>>, TypeV),
    UnaryOp(UnaryOp, Box<TExprV>, TypeV),
    Ann(Box<TExprV>, TypeV),
    If(Box<TExprV>, Box<TExprV>, Box<TExprV>, TypeV),
    Let(Seq<char>, TypeV, Box<TExprV>, Box<TExprV>, TypeV),
    LetRec(Seq<char>, Seq<(Seq<char>, TypeV)>, TypeV, Box<TExprV>, Box<TExprV>, TypeV),
    App(Box<TExprV>, Seq<TExprV>, TypeV),
    Lambda(Seq<(Seq<char>, TypeV)>, TypeV, Box<TExprV>, TypeV),
}

impl TypedExpr {
    pub open spec fn model(self) -> TExprV
        decreases self,
    {
        match self {
            TypedExpr::Unit => TExprV::Unit,
            TypedExpr::Bool(b) => TExprV::Bool(b),
            TypedExpr::Int(n) => TExprV::Int(n),
            TypedExpr::Float(f) => TExprV::Float(f),
            TypedExpr::Var(x, t) => TExprV::Var(x@, t@),
            TypedExpr::BinOp(op, l, r, t) => TExprV::BinOp(
                op,
                Box::new(l.model()),
                Box::new(r.model()),
                t@,
            ),
            TypedExpr::Tuple(es, t) => TExprV::Tuple(
                Seq::new(
                    es.len() as nat,
                    |i: int|
                        if 0 <= i < es.len() {
                            es[i].model()
                        } else {
                            TExprV::Unit
                        },
                ),
                t@,
            ),
            TypedExpr::TupleProjection(e, i, t) => TExprV::TupleProjection(
                Box::new(e.model()),
                i,
                t@,
            ),
            TypedExpr::PrimIO(p, arg, t) => TExprV::PrimIO(
                p,
                match arg {
                    Some(e) => Some(Box::new(e.model())),
                    None => None,
                },
                t@,
            ),
            TypedExpr::UnaryOp(op, e, t) => TExprV::UnaryOp(op, Box::new(e.model()), t@),
            TypedExpr::Ann(e, t) => TExprV::Ann(Box::new(e.model()), t@),
            TypedExpr::If(c, a, b, t) => TExprV::If(
                Box::new(c.model()),
                Box::new(a.model()),
                Box::new(b.model()),
                t@,
            ),
            TypedExpr::Let(x, xt, rhs, body, t) => TExprV::Let(
                x@,
                xt@,
                Box::new(rhs.model()),
                Box::new(body.model()),
                t@,
            ),
            TypedExpr::LetRec(f, ps, rt, fb, b, t) => TExprV::LetRec(
                f@,
                params_model(ps@),
                rt@,
                Box::new(fb.model()),
                Box::new(b.model()),
                t@,
            ),
            TypedExpr::App(f, args, t) => TExprV::App(
                Box::new(f.model()),
                Seq::new(
                    args.len() as nat,
                    |i: int|
                        if 0 <= i < args.len() {
                            args[i].model()
                        } else {
                            TExprV::Unit
                        },
                ),
                t@,
            ),
            TypedExpr::Lambda(ps, rt, body, t) => TExprV::Lambda(
                params_model(ps@),
                rt@,
                Box::new(body.model()),
                t@,
            ),
        }
    }
}

impl View for TypedExpr {
    type V = TExprV;

    open spec fn view(&self) -> TExprV {
        self.model()
    }
}

/// The models of a sequence of typed expressions.
pub open spec fn texprs_model(es: Seq<TypedExpr>) -> Seq<TExprV> {
    Seq::new(es.len(), |i: int| es[i]@)
}

/// The type carried by a typed expression.
pub open spec fn type_of(e: TExprV) -> TypeV {
    match e {
        TExprV::Unit => TypeV::Unit,
        TExprV::Bool(_) => TypeV::Bool,
        TExprV::Int(_) => TypeV::Int,
        TExprV::Float(_) => TypeV::Float,
        TExprV::Var(_, t) => t,
        TExprV::BinOp(_, _, _, t) => t,
        TExprV::UnaryOp(_, _, t) => t,
        TExprV::Tuple(_, t) => t,
        TExprV::TupleProjection(_, _, t) => t,
        TExprV::PrimIO(_, _, t) => t,
        TExprV::Ann(_, t) => t,
        TExprV::If(_, _, _, t) => t,
        TExprV::Let(_, _, _, _, t) => t,
        TExprV::LetRec(_, _, _, _, _, t) => t,
        TExprV::App(_, _, t) => t,
        TExprV::Lambda(_, _, _, t) => t,
    }
}

impl TypedExpr {
    /// The type carried by the expression.
    pub fn type_of(&self) -> (t: Type)
        ensures
            t@ == type_of(self@),
    {
        match self {
            TypedExpr::Unit => Type::Unit,
            TypedExpr::Bool(_) => Type::Bool,
            TypedExpr::Int(_) => Type::Int,
            TypedExpr::Float(_) => Type::Float,
            TypedExpr::Var(_, ty) => ty.clone(),
            TypedExpr::BinOp(_, _, _, ty) => ty.clone(),
            TypedExpr::UnaryOp(_, _, ty) => ty.clone(),
            TypedExpr::Tuple(_, ty) => ty.clone(),
            TypedExpr::TupleProjection(_, _, ty) => ty.clone(),
            TypedExpr::PrimIO(_, _, ty) => ty.clone(),
            TypedExpr::Ann(_, ty) => ty.clone(),
            TypedExpr::If(_, _, _, ty) => ty.clone(),
            TypedExpr::Let(_, _, _, _, ty) => ty.clone(),
            TypedExpr::LetRec(_, _, _, _, _, ty) => ty.clone(),
            TypedExpr::App(_, _, ty) => ty.clone(),
            TypedExpr::Lambda(_, _, _, ty) => ty.clone(),
        }
    }
}

pub fn t_unit() -> (e: TypedExpr)
    ensures
        e == TypedExpr::Unit,
{
    TypedExpr::Unit
}

pub fn t_bool(b: bool) -> (e: TypedExpr)
    ensures
        e == TypedExpr::Bool(b),
{
    TypedExpr::Bool(b)
}

pub fn t_int(n: i64) -> (e: TypedExpr)
    ensures
        e == TypedExpr::Int(n),
{
    TypedExpr::Int(n)
}

/// A float literal given by the bit pattern of its value.
pub fn t_float(bits: u64) -> (e: TypedExpr)
    ensures
        e == TypedExpr::Float(bits),
{
    TypedExpr::Float(bits)
}

pub fn t_var(name: &str, ty: Type) -> (e: TypedExpr)
    ensures
        e matches TypedExpr::Var(n, t) && n@ == name@ && t == ty,
{
    TypedExpr::Var(name.to_string(), ty)
}

pub fn t_tuple(elems: Vec<TypedExpr>, ty: Type) -> (e: TypedExpr)
    ensures
        e == TypedExpr::Tuple(elems, ty),
{
    TypedExpr::Tuple(elems, ty)
}

pub fn t_tuple_projection(expr: TypedExpr, index: usize, ty: Type) -> (e: TypedExpr)
    ensures
        e == TypedExpr::TupleProjection(Box::new(expr), index, ty),
{
    TypedExpr::TupleProjection(Box::new(expr), index, ty)
}

pub fn t_bin_op(op: BinOp, left: TypedExpr, right: TypedExpr, ty: Type) -> (e: TypedExpr)
    ensures
        e == TypedExpr::BinOp(op, Box::new(left), Box::new(right), ty),
{
    TypedExpr::BinOp(op, Box::new(left), Box::new(right), ty)
}

pub fn t_prim_io(prim: PrimIO, expr: Option<TypedExpr>, ty: Type) -> (e: TypedExpr)
    ensures
        e == TypedExpr::PrimIO(
            prim,
            match expr {
                Some(x) => Some(Box::new(x)),
                None => None,
            },
            ty,
        ),
{
    let arg = match expr {
        Some(x) => Some(Box::new(x)),
        None => None,
    };
    TypedExpr::PrimIO(prim, arg, ty)
}

pub fn t_unary(op: UnaryOp, expr: TypedExpr, ty: Type) -> (e: TypedExpr)
    ensures
        e == TypedExpr::UnaryOp(op, Box::new(expr), ty),
{
    TypedExpr::UnaryOp(op, Box::new(expr), ty)
}

pub fn t_ann(expr: TypedExpr, ty: Type) -> (e: TypedExpr)
    ensures
        e == TypedExpr::Ann(Box::new(expr), ty),
{
    TypedExpr::Ann(Box::new(expr), ty)
}

pub fn t_if(cond: TypedExpr, thn: TypedExpr, els: TypedExpr, ty: Type) -> (e: TypedExpr)
    ensures
        e == TypedExpr::If(Box::new(cond), Box::new(thn), Box::new(els), ty),
{
    TypedExpr::If(Box::new(cond), Box::new(thn), Box::new(els), ty)
}

pub fn t_let(name: &str, ty: Type, rhs: TypedExpr, body: TypedExpr, let_ty: Type) -> (e: TypedExpr)
    ensures
        e matches TypedExpr::Let(n, t, r, b, lt) && n@ == name@ && t == ty && *r == rhs && *b
            == body && lt == let_ty,
{
    TypedExpr::Let(name.to_string(), ty, Box::new(rhs), Box::new(body), let_ty)
}

pub fn t_let_rec(
    name: &str,
    params: Vec<(Ident, Type)>,
    ret_ty: Type,
    fbody: TypedExpr,
    body: TypedExpr,
    ty: Type,
) -> (e: TypedExpr)
    ensures
        e matches TypedExpr::LetRec(n, ps, r, fb, b, t) && n@ == name@ && ps == params && r
            == ret_ty && *fb == fbody && *b == body && t == ty,
{
    TypedExpr::LetRec(name.to_string(), params, ret_ty, Box::new(fbody), Box::new(body), ty)
}

pub fn t_app(func: TypedExpr, args: Vec<TypedExpr>, ty: Type) -> (e: TypedExpr)
    ensures
        e == TypedExpr::App(Box::new(func), args, ty),
{
    TypedExpr::App(Box::new(func), args, ty)
}

pub fn t_lambda(params: Vec<(Ident, Type)>, ret_ty: Type, body: TypedExpr, lambda_ty: Type) -> (e:
    TypedExpr)
    ensures
        e == TypedExpr::Lambda(params, ret_ty, Box::new(body), lambda_ty),
{
    TypedExpr::Lambda(params, ret_ty, Box::new(body), lambda_ty)
}

/// Reasons for which an expression is rejected.
#[derive(Debug, PartialEq)]
pub enum TypeError {
    UnboundVariable(Ident),
    Mismatch { expected: Type, found: Type },
    ReturnTypeMismatch { expected: Type, found: Type },
    NotAFunction(Type),
    ArityMismatch { expected: usize, found: usize },
    BranchMismatch { then_ty: Type, else_ty: Type },
    InvalidOperands { op: String, left: Type, right: Type },
    InvalidUnary { op: String, ty: Type },
    AnnotationMismatch { annotated: Type, inferred: Type },
    NotATuple(Type),
    TupleIndexOutOfBounds { len: usize, index: usize },
}

/// Mathematical model of [`TypeError`].
pub enum TypeErrorV {
    UnboundVariable(Seq<char>),
    Mismatch { expected: TypeV, found: TypeV },
    ReturnTypeMismatch { expected: TypeV, found: TypeV },
    NotAFunction(TypeV),
    ArityMismatch { expected: usize, found: usize },
    BranchMismatch { then_ty: TypeV, else_ty: TypeV },
    InvalidOperands { op: Seq<char>, left: TypeV, right: TypeV },
    InvalidUnary { op: Seq<char>, ty: TypeV },
    AnnotationMismatch { annotated: TypeV, inferred: TypeV },
    NotATuple(TypeV),
    TupleIndexOutOfBounds { len: usize, index: usize },
}

impl View for TypeError {
    type V = TypeErrorV;

    open spec fn view(&self) -> TypeErrorV {
        match self {
            TypeError::UnboundVariable(x) => TypeErrorV::UnboundVariable(x@),
            TypeError::Mismatch { expected, found } => TypeErrorV::Mismatch {
                expected: expected@,
                found: found@,
            },
            TypeError::ReturnTypeMismatch { expected, found } => TypeErrorV::ReturnTypeMismatch {
                expected: expected@,
                found: found@,
            },
            TypeError::NotAFunction(t) => TypeErrorV::NotAFunction(t@),
            TypeError::ArityMismatch { expected, found } => TypeErrorV::ArityMismatch {
                expected: *expected,
                found: *found,
            },
            TypeError::BranchMismatch { then_ty, else_ty } => TypeErrorV::BranchMismatch {
                then_ty: then_ty@,
                else_ty: else_ty@,
            },
            TypeError::InvalidOperands { op, left, right } => TypeErrorV::InvalidOperands {
                op: op@,
                left: left@,
                right: right@,
            },
            TypeError::InvalidUnary { op, ty } => TypeErrorV::InvalidUnary { op: op@, ty: ty@ },
            TypeError::AnnotationMismatch { annotated, inferred } => TypeErrorV::AnnotationMismatch {
                annotated: annotated@,
                inferred: inferred@,
            },
            TypeError::NotATuple(t) => TypeErrorV::NotATuple(t@),
            TypeError::TupleIndexOutOfBounds { len, index } => TypeErrorV::TupleIndexOutOfBounds {
                len: *len,
                index: *index,
            },
        }
    }
}

/// The map from names to types that a list of bindings denotes: a later
/// binding of a name hides an earlier one.
pub open spec fn bindings_map(s: Seq<(Ident, Type)>) -> Map<Seq<char>, TypeV>
    decreases s.len(),
{
    if s.len() == 0 {
        Map::empty()
    } else {
        bindings_map(s.drop_last()).insert(s.last().0@, s.last().1@)
    }
}

/// A typing context.
#[derive(Debug)]
pub struct Context(Vec<(Ident, Type)>);

impl View for Context {
    type V = Map<Seq<char>, TypeV>;

    closed spec fn view(&self) -> Map<Seq<char>, TypeV> {
        bindings_map(self.0@)
    }
}

/// The last binding of `k` in `s`, if any, is what `bindings_map` gives for `k`.
proof fn lemma_bindings_map_last(s: Seq<(Ident, Type)>, k: Seq<char>, i: int)
    requires
        -1 <= i < s.len(),
        forall|j: int| i < j < s.len() ==> s[j].0@ != k,
        0 <= i ==> s[i].0@ == k,
    ensures
        0 <= i ==> bindings_map(s).contains_key(k) && bindings_map(s)[k] == s[i].1@,
        i == -1 ==> !bindings_map(s).contains_key(k),
    decreases s.len(),
{
    if s.len() > 0 && i < s.len() - 1 {
        lemma_bindings_map_last(s.drop_last(), k, i);
    }
}

impl Context {
    /// The empty context.
    pub fn new() -> (c: Self)
        ensures
            c@ == Map::<Seq<char>, TypeV>::empty(),
    {
        Context(Vec::new())
    }

    /// The type bound to `name`, if any.
    pub fn lookup(&self, name: &str) -> (r: Option<&Type>)
        ensures
            r is Some <==> self@.contains_key(name@),
            r matches Some(t) ==> t@ == self@[name@],
    {
        let key = name.to_string();
        let mut i = self.0.len();
        while i > 0
            invariant
                i <= self.0.len(),
                key@ == name@,
                forall|j: int| i <= j < self.0.len() ==> self.0@[j].0@ != name@,
            decreases i,
        {
            i -= 1;
            if self.0[i].0.eq(&key) {
                proof {
                    lemma_bindings_map_last(self.0@, name@, i as int);
                }
                return Some(&self.0[i].1);
            }
        }
        proof {
            lemma_bindings_map_last(self.0@, name@, -1);
        }
        None
    }

    /// A copy of the context in which `name` is bound to `ty`.
    pub fn extend(&self, name: Ident, ty: Type) -> (c: Self)
        ensures
            c@ == self@.insert(name@, ty@),
    {
        let mut v: Vec<(Ident, Type)> = Vec::new();
        let mut i: usize = 0;
        while i < self.0.len()
            invariant
                i <= self.0.len(),
                v.len() == i,
                forall|j: int|
                    0 <= j < i ==> v[j].0@ == self.0@[j].0@ && v[j].1@ == self.0@[j].1@,
            decreases self.0.len() - i,
        {
            v.push((self.0[i].0.clone(), self.0[i].1.clone()));
            i += 1;
        }
        proof {
            lemma_bindings_map_congruent(v@, self.0@);
        }
        let ghost before = v@;
        v.push((name, ty));
        assert(v@.drop_last() == before);
        Context(v)
    }
}

/// Binding lists with the same names and type models denote the same map.
proof fn lemma_bindings_map_congruent(a: Seq<(Ident, Type)>, b: Seq<(Ident, Type)>)
    requires
        a.len() == b.len(),
        forall|j: int| 0 <= j < a.len() ==> a[j].0@ == b[j].0@ && a[j].1@ == b[j].1@,
    ensures
        bindings_map(a) == bindings_map(b),
    decreases a.len(),
{
    if a.len() > 0 {
        lemma_bindings_map_congruent(a.drop_last(), b.drop_last());
    }
}

/// The curried function type with the given parameter types and result type.
pub open spec fn build_arrow(ps: Seq<TypeV>, ret: TypeV) -> TypeV
    decreases ps.len(),
{
    if ps.len() == 0 {
        ret
    } else {
        TypeV::Arrow(Box::new(ps[0]), Box::new(build_arrow(ps.drop_first(), ret)))
    }
}

/// The types of a parameter list.
pub open spec fn param_types(ps: Seq<(Seq<char>, TypeV)>) -> Seq<TypeV> {
    Seq::new(ps.len(), |i: int| ps[i].1)
}

/// A context extended by the parameters in order.
pub open spec fn extend_params(
    ctx: Map<Seq<char>, TypeV>,
    ps: Seq<(Seq<char>, TypeV)>,
) -> Map<Seq<char>, TypeV>
    decreases ps.len(),
{
    if ps.len() == 0 {
        ctx
    } else {
        extend_params(ctx, ps.drop_last()).insert(ps.last().0, ps.last().1)
    }
}

/// Every primitive operation in the expression has an argument exactly when
/// it is a printing operation.
pub open spec fn prim_io_well_formed(e: ExprV) -> bool
    decreases e,
{
    match e {
        ExprV::Tuple(es) => forall|i: int| 0 <= i < es.len() ==> prim_io_well_formed(#[trigger] es[i]),
        ExprV::TupleProjection(x, _) => prim_io_well_formed(*x),
        ExprV::PrimIO(p, arg) => match arg {
            Some(x) => p.takes_argument() && prim_io_well_formed(*x),
            None => !p.takes_argument(),
        },
        ExprV::BinOp(_, l, r) => prim_io_well_formed(*l) && prim_io_well_formed(*r),
        ExprV::UnaryOp(_, x) => prim_io_well_formed(*x),
        ExprV::Ann(x, _) => prim_io_well_formed(*x),
        ExprV::If(c, t, f) => prim_io_well_formed(*c) && prim_io_well_formed(*t)
            && prim_io_well_formed(*f),
        ExprV::Let(_, _, r, b) => prim_io_well_formed(*r) && prim_io_well_formed(*b),
        ExprV::LetRec(_, _, _, fb, b) => prim_io_well_formed(*fb) && prim_io_well_formed(*b),
        ExprV::App(f, args) => prim_io_well_formed(*f) && forall|i: int|
            0 <= i < args.len() ==> prim_io_well_formed(#[trigger] args[i]),
        ExprV::Lambda(_, _, b) => prim_io_well_formed(*b),
        _ => true,
    }
}

/// The result of a binary operator applied to operands of the given types.
pub open spec fn infer_binop_spec(op: BinOp, l: TExprV, r: TExprV) -> Result<TExprV, TypeErrorV> {
    let lt = type_of(l);
    let rt = type_of(r);
    let bad = TypeErrorV::InvalidOperands { op: binop_name(op), left: lt, right: rt };
    let make = |t: TypeV| TExprV::BinOp(op, Box::new(l), Box::new(r), t);
    match op {
        BinOp::Add | BinOp::Sub | BinOp::Mul | BinOp::Div => {
            if lt == TypeV::Int && rt == TypeV::Int {
                Ok(make(TypeV::Int))
            } else if lt == TypeV::Float && rt == TypeV::Float {
                Ok(make(TypeV::Float))
            } else {
                Err(bad)
            }
        },
        BinOp::Lt | BinOp::Gt | BinOp::Leq | BinOp::Geq => {
            if (lt == TypeV::Int && rt == TypeV::Int) || (lt == TypeV::Float && rt
                == TypeV::Float) {
                Ok(make(TypeV::Bool))
            } else {
                Err(bad)
            }
        },
        BinOp::Eq | BinOp::Neq => {
            if lt == rt {
                Ok(make(TypeV::Bool))
            } else {
                Err(bad)
            }
        },
        BinOp::And | BinOp::Or => {
            if lt == TypeV::Bool && rt == TypeV::Bool {
                Ok(make(TypeV::Bool))
            } else {
                Err(bad)
            }
        },
    }
}

/// Type inference: the typed expression for `e` under `ctx`, or the first
/// error met in a left-to-right walk.
pub open spec fn infer_spec(ctx: Map<Seq<char>, TypeV>, e: ExprV) -> Result<TExprV, TypeErrorV>
    decreases e,
{
    match e {
        ExprV::Unit => Ok(TExprV::Unit),
        ExprV::Bool(b) => Ok(TExprV::Bool(b)),
        ExprV::Int(n) => Ok(TExprV::Int(n)),
        ExprV::Float(f) => Ok(TExprV::Float(f)),
        ExprV::Var(x) => if ctx.contains_key(x) {
            Ok(TExprV::Var(x, ctx[x]))
        } else {
            Err(TypeErrorV::UnboundVariable(x))
        },
        ExprV::Ann(inner, t) => match infer_spec(ctx, *inner) {
            Err(err) => Err(err),
            Ok(te) => if type_of(te) != t {
                Err(TypeErrorV::AnnotationMismatch { annotated: t, inferred: type_of(te) })
            } else {
                Ok(te)
            },
        },
        ExprV::Tuple(es) => match infer_list(ctx, es) {
            Err(err) => Err(err),
            Ok(tes) => Ok(
                TExprV::Tuple(tes, TypeV::Tuple(Seq::new(tes.len(), |i: int| type_of(tes[i])))),
            ),
        },
        ExprV::TupleProjection(inner, index) => match infer_spec(ctx, *inner) {
            Err(err) => Err(err),
            Ok(te) => match type_of(te) {
                TypeV::Tuple(ts) => if index >= ts.len() {
                    Err(TypeErrorV::TupleIndexOutOfBounds { len: ts.len() as usize, index })
                } else {
                    Ok(TExprV::TupleProjection(Box::new(te), index, ts[index as int]))
                },
                other => Err(TypeErrorV::NotATuple(other)),
            },
        },
        ExprV::PrimIO(p, arg) => match arg {
            Some(x) => match infer_spec(ctx, *x) {
                Err(err) => Err(err),
                Ok(te) => Ok(TExprV::PrimIO(p, Some(Box::new(te)), type_of(te))),
            },
            None => Ok(TExprV::PrimIO(p, None, TypeV::Unit)),
        },
        ExprV::UnaryOp(op, x) => match infer_spec(ctx, *x) {
            Err(err) => Err(err),
            Ok(te) => {
                let t = type_of(te);
                match op {
                    UnaryOp::Neg => if t == TypeV::Int || t == TypeV::Float {
                        Ok(TExprV::UnaryOp(op, Box::new(te), t))
                    } else {
                        Err(TypeErrorV::InvalidUnary { op: "-"@, ty: t })
                    },
                    UnaryOp::Not => if t == TypeV::Bool {
                        Ok(TExprV::UnaryOp(op, Box::new(te), t))
                    } else {
                        Err(TypeErrorV::InvalidUnary { op: "!"@, ty: t })
                    },
                }
            },
        },
        ExprV::BinOp(op, l, r) => match infer_spec(ctx, *l) {
            Err(err) => Err(err),
            Ok(tl) => match infer_spec(ctx, *r) {
                Err(err) => Err(err),
                Ok(tr) => infer_binop_spec(op, tl, tr),
            },
        },
        ExprV::If(c, t, f) => match infer_spec(ctx, *c) {
            Err(err) => Err(err),
            Ok(tc) => if type_of(tc) != TypeV::Bool {
                Err(TypeErrorV::Mismatch { expected: TypeV::Bool, found: type_of(tc) })
            } else {
                match infer_spec(ctx, *t) {
                    Err(err) => Err(err),
                    Ok(tt) => match infer_spec(ctx, *f) {
                        Err(err) => Err(err),
                        Ok(tf) => if type_of(tt) != type_of(tf) {
                            Err(
                                TypeErrorV::BranchMismatch {
                                    then_ty: type_of(tt),
                                    else_ty: type_of(tf),
                                },
                            )
                        } else {
                            Ok(TExprV::If(Box::new(tc), Box::new(tt), Box::new(tf), type_of(tt)))
                        },
                    },
                }
            },
        },
        ExprV::Let(x, ann, rhs, body) => match infer_spec(ctx, *rhs) {
            Err(err) => Err(err),
            Ok(tr) => {
                let rt = type_of(tr);
                if ann is Some && ann->0 != rt {
                    Err(TypeErrorV::AnnotationMismatch { annotated: ann->0, inferred: rt })
                } else {
                    match infer_spec(ctx.insert(x, rt), *body) {
                        Err(err) => Err(err),
                        Ok(tb) => Ok(TExprV::Let(x, rt, Box::new(tr), Box::new(tb), type_of(tb))),
                    }
                }
            },
        },
        ExprV::LetRec(f, ps, rt, fbody, body) => {
            let fty = build_arrow(param_types(ps), rt);
            match infer_spec(extend_params(ctx.insert(f, fty), ps), *fbody) {
                Err(err) => Err(err),
                Ok(tfb) => if type_of(tfb) != rt {
                    Err(TypeErrorV::AnnotationMismatch { annotated: rt, inferred: type_of(tfb) })
                } else {
                    match infer_spec(ctx.insert(f, fty), *body) {
                        Err(err) => Err(err),
                        Ok(tb) => Ok(
                            TExprV::LetRec(f, ps, rt, Box::new(tfb), Box::new(tb), type_of(tb)),
                        ),
                    }
                },
            }
        },
        ExprV::Lambda(ps, ret, body) => match infer_spec(extend_params(ctx, ps), *body) {
            Err(err) => Err(err),
            Ok(tb) => if ret is Some && ret->0 != type_of(tb) {
                Err(TypeErrorV::ReturnTypeMismatch { expected: ret->0, found: type_of(tb) })
            } else {
                Ok(
                    TExprV::Lambda(
                        ps,
                        type_of(tb),
                        Box::new(tb),
                        build_arrow(param_types(ps), type_of(tb)),
                    ),
                )
            },
        },
        ExprV::App(fe, args) => match infer_spec(ctx, *fe) {
            Err(err) => Err(err),
            Ok(tf) => match infer_args(ctx, type_of(tf), args) {
                Err(err) => Err(err),
                Ok((targs, t)) => Ok(TExprV::App(Box::new(tf), targs, t)),
            },
        },
    }
}

/// Inference of a list of expressions, left to right, stopping at the first error.
pub open spec fn infer_list(ctx: Map<Seq<char>, TypeV>, es: Seq<ExprV>) -> Result<
    Seq<TExprV>,
    TypeErrorV,
>
    decreases es,
{
    if es.len() == 0 {
        Ok(Seq::empty())
    } else {
        match infer_spec(ctx, es[0]) {
            Err(err) => Err(err),
            Ok(te) => match infer_list(ctx, es.subrange(1, es.len() as int)) {
                Err(err) => Err(err),
                Ok(rest) => Ok(seq![te] + rest),
            },
        }
    }
}

/// Inference of the arguments of an application of a function of type `fty`:
/// the typed arguments and the type of the application.
pub open spec fn infer_args(ctx: Map<Seq<char>, TypeV>, fty: TypeV, args: Seq<ExprV>) -> Result<
    (Seq<TExprV>, TypeV),
    TypeErrorV,
>
    decreases args,
{
    if args.len() == 0 {
        Ok((Seq::empty(), fty))
    } else {
        match fty {
            TypeV::Arrow(p, r) => match infer_spec(ctx, args[0]) {
                Err(err) => Err(err),
                Ok(ta) => if type_of(ta) != *p {
                    Err(TypeErrorV::Mismatch { expected: *p, found: type_of(ta) })
                } else {
                    match infer_args(ctx, *r, args.subrange(1, args.len() as int)) {
                        Err(err) => Err(err),
                        Ok((rest, t)) => Ok((seq![ta] + rest, t)),
                    }
                },
            },
            other => Err(TypeErrorV::NotAFunction(other)),
        }
    }
}


/// The operand and result types that a binary operator accepts: arithmetic
/// on two integers or two floats, of that type; comparisons on two integers
/// or two floats, and equality on any two operands of one type, giving a
/// boolean; conjunction and disjunction of booleans.
pub open spec fn binop_typing(op: BinOp, l: TypeV, r: TypeV, t: TypeV) -> bool {
    match op {
        BinOp::Add | BinOp::Sub | BinOp::Mul | BinOp::Div => (l == TypeV::Int && r == TypeV::Int
            && t == TypeV::Int) || (l == TypeV::Float && r == TypeV::Float && t == TypeV::Float),
        BinOp::Lt | BinOp::Gt | BinOp::Leq | BinOp::Geq => ((l == TypeV::Int && r == TypeV::Int)
            || (l == TypeV::Float && r == TypeV::Float)) && t == TypeV::Bool,
        BinOp::Eq | BinOp::Neq => l == r && t == TypeV::Bool,
        BinOp::And | BinOp::Or => l == TypeV::Bool && r == TypeV::Bool && t == TypeV::Bool,
    }
}

/// A function of type `fty` applied to arguments of types `args` has type `t`.
pub open spec fn applies_to(fty: TypeV, args: Seq<TypeV>, t: TypeV) -> bool
    decreases args.len(),
{
    if args.len() == 0 {
        t == fty
    } else {
        match fty {
            TypeV::Arrow(p, r) => args[0] == *p && applies_to(*r, args.drop_first(), t),
            _ => false,
        }
    }
}

/// The types of a sequence of typed expressions.
pub open spec fn types_of(es: Seq<TExprV>) -> Seq<TypeV> {
    Seq::new(es.len(), |i: int| type_of(es[i]))
}

/// A typed expression is a valid typing under `ctx`: each node carries the
/// type that the typing rules give it from its parts.
pub open spec fn well_typed(ctx: Map<Seq<char>, TypeV>, e: TExprV) -> bool
    decreases e,
{
    match e {
        TExprV::Unit | TExprV::Bool(_) | TExprV::Int(_) | TExprV::Float(_) => true,
        TExprV::Var(x, t) => ctx.contains_key(x) && ctx[x] == t,
        TExprV::BinOp(op, l, r, t) => well_typed(ctx, *l) && well_typed(ctx, *r) && binop_typing(
            op,
            type_of(*l),
            type_of(*r),
            t,
        ),
        TExprV::Tuple(es, t) => (forall|i: int| 0 <= i < es.len() ==> well_typed(ctx, #[trigger] es[i]))
            && t == TypeV::Tuple(types_of(es)),
        TExprV::TupleProjection(x, i, t) => well_typed(ctx, *x) && match type_of(*x) {
            TypeV::Tuple(ts) => i < ts.len() && t == ts[i as int],
            _ => false,
        },
        TExprV::PrimIO(_, arg, t) => match arg {
            Some(x) => well_typed(ctx, *x) && t == type_of(*x),
            None => t == TypeV::Unit,
        },
        TExprV::UnaryOp(op, x, t) => well_typed(ctx, *x) && t == type_of(*x) && match op {
            UnaryOp::Neg => t == TypeV::Int || t == TypeV::Float,
            UnaryOp::Not => t == TypeV::Bool,
        },
        TExprV::Ann(x, t) => well_typed(ctx, *x) && t == type_of(*x),
        TExprV::If(c, a, b, t) => well_typed(ctx, *c) && well_typed(ctx, *a) && well_typed(ctx, *b)
            && type_of(*c) == TypeV::Bool && type_of(*a) == t && type_of(*b) == t,
        TExprV::Let(x, xt, r, b, t) => well_typed(ctx, *r) && type_of(*r) == xt && well_typed(
            ctx.insert(x, xt),
            *b,
        ) && t == type_of(*b),
        TExprV::LetRec(f, ps, rt, fb, b, t) => {
            let fty = build_arrow(param_types(ps), rt);
            &&& well_typed(extend_params(ctx.insert(f, fty), ps), *fb)
            &&& type_of(*fb) == rt
            &&& well_typed(ctx.insert(f, fty), *b)
            &&& t == type_of(*b)
        },
        TExprV::App(f, args, t) => well_typed(ctx, *f) && (forall|i: int|
            0 <= i < args.len() ==> well_typed(ctx, #[trigger] args[i])) && applies_to(
            type_of(*f),
            types_of(args),
            t,
        ),
        TExprV::Lambda(ps, rt, b, t) => well_typed(extend_params(ctx, ps), *b) && rt == type_of(*b)
            && t == build_arrow(param_types(ps), rt),
    }
}

/// Inference follows the typing rules of literals, variables, conditionals
/// and `let`: literals have their own types, a variable the type the
/// context gives it, a conditional needs a boolean condition and branches
/// of one type, which is its type, and `let x = e1 in x` has the type of
/// `e1`.
pub proof fn lemma_infer_rules(
    ctx: Map<Seq<char>, TypeV>,
    c: ExprV,
    t: ExprV,
    f: ExprV,
    tc: TExprV,
    tt: TExprV,
    tf: TExprV,
    x: Seq<char>,
    n: i64,
    p: bool,
    bits: u64,
)
    requires
        infer_spec(ctx, c) == Ok::<TExprV, TypeErrorV>(tc),
        infer_spec(ctx, t) == Ok::<TExprV, TypeErrorV>(tt),
        infer_spec(ctx, f) == Ok::<TExprV, TypeErrorV>(tf),
    ensures
        type_of(infer_spec(ctx, ExprV::Int(n))->Ok_0) == TypeV::Int,
        type_of(infer_spec(ctx, ExprV::Bool(p))->Ok_0) == TypeV::Bool,
        type_of(infer_spec(ctx, ExprV::Float(bits))->Ok_0) == TypeV::Float,
        type_of(infer_spec(ctx, ExprV::Unit)->Ok_0) == TypeV::Unit,
        infer_spec(ctx, ExprV::Int(n)) is Ok && infer_spec(ctx, ExprV::Bool(p)) is Ok && infer_spec(
            ctx,
            ExprV::Float(bits),
        ) is Ok && infer_spec(ctx, ExprV::Unit) is Ok,
        ctx.contains_key(x) ==> infer_spec(ctx, ExprV::Var(x)) is Ok && type_of(
            infer_spec(ctx, ExprV::Var(x))->Ok_0,
        ) == ctx[x],
        !ctx.contains_key(x) ==> infer_spec(ctx, ExprV::Var(x)) is Err,
        type_of(tc) != TypeV::Bool ==> infer_spec(ctx, ExprV::If(Box::new(c), Box::new(t), Box::new(f))) is Err,
        type_of(tc) == TypeV::Bool && type_of(tt) != type_of(tf) ==> infer_spec(
            ctx,
            ExprV::If(Box::new(c), Box::new(t), Box::new(f)),
        ) is Err,
        type_of(tc) == TypeV::Bool && type_of(tt) == type_of(tf) ==> infer_spec(
            ctx,
            ExprV::If(Box::new(c), Box::new(t), Box::new(f)),
        ) == Ok::<TExprV, TypeErrorV>(TExprV::If(Box::new(tc), Box::new(tt), Box::new(tf), type_of(tt))),
        infer_spec(ctx, ExprV::Let(x, None, Box::new(c), Box::new(ExprV::Var(x)))) is Ok && type_of(
            infer_spec(ctx, ExprV::Let(x, None, Box::new(c), Box::new(ExprV::Var(x))))->Ok_0,
        ) == type_of(tc),
{
    let ctx2 = ctx.insert(x, type_of(tc));
    assert(ctx2.contains_key(x) && ctx2[x] == type_of(tc));
    assert(infer_spec(ctx2, ExprV::Var(x)) == Ok::<TExprV, TypeErrorV>(TExprV::Var(x, type_of(tc))));
    assert(infer_spec(ctx, ExprV::Let(x, None, Box::new(c), Box::new(ExprV::Var(x)))) == Ok::<
        TExprV,
        TypeErrorV,
    >(TExprV::Let(x, type_of(tc), Box::new(tc), Box::new(TExprV::Var(x, type_of(tc))), type_of(tc))));
}

/// Inference of an operator application is exact with respect to the
/// typing rules: where the operands infer, the application infers, with
/// type `t`, exactly when the rules give the operator type `t` on the
/// operands' types, and fails where they give none.  In particular,
/// arithmetic on two integers or two floats has that type, comparisons of
/// two integers or two floats and equality of two operands of one type are
/// booleans, and conjunction and disjunction of booleans are booleans.
pub proof fn lemma_infer_binop_exact(
    ctx: Map<Seq<char>, TypeV>,
    op: BinOp,
    el: ExprV,
    er: ExprV,
    l: TExprV,
    r: TExprV,
    t: TypeV,
)
    requires
        infer_spec(ctx, el) == Ok::<TExprV, TypeErrorV>(l),
        infer_spec(ctx, er) == Ok::<TExprV, TypeErrorV>(r),
    ensures
        binop_typing(op, type_of(l), type_of(r), t) ==> infer_spec(
            ctx,
            ExprV::BinOp(op, Box::new(el), Box::new(er)),
        ) == Ok::<TExprV, TypeErrorV>(TExprV::BinOp(op, Box::new(l), Box::new(r), t)),
        (forall|u: TypeV| !binop_typing(op, type_of(l), type_of(r), u)) ==> infer_spec(
            ctx,
            ExprV::BinOp(op, Box::new(el), Box::new(er)),
        ) is Err,
        infer_spec(ctx, ExprV::BinOp(op, Box::new(el), Box::new(er))) matches Ok(te) ==> binop_typing(
            op,
            type_of(l),
            type_of(r),
            type_of(te),
        ),
        ({
            let lt = type_of(l);
            let rt = type_of(r);
            let res = infer_spec(ctx, ExprV::BinOp(op, Box::new(el), Box::new(er)));
            &&& (lt == rt && (lt == TypeV::Int || lt == TypeV::Float) && (op == BinOp::Add || op == BinOp::Sub
                || op == BinOp::Mul || op == BinOp::Div)) ==> res == Ok::<TExprV, TypeErrorV>(
                TExprV::BinOp(op, Box::new(l), Box::new(r), lt),
            )
            &&& (lt == rt && (lt == TypeV::Int || lt == TypeV::Float) && (op == BinOp::Lt || op == BinOp::Gt
                || op == BinOp::Leq || op == BinOp::Geq)) ==> res == Ok::<TExprV, TypeErrorV>(
                TExprV::BinOp(op, Box::new(l), Box::new(r), TypeV::Bool),
            )
            &&& (lt == rt && (op == BinOp::Eq || op == BinOp::Neq)) ==> res == Ok::<TExprV, TypeErrorV>(
                TExprV::BinOp(op, Box::new(l), Box::new(r), TypeV::Bool),
            )
            &&& (lt == TypeV::Bool && rt == TypeV::Bool && (op == BinOp::And || op == BinOp::Or)) ==> res
                == Ok::<TExprV, TypeErrorV>(TExprV::BinOp(op, Box::new(l), Box::new(r), TypeV::Bool))
            &&& lt != rt ==> res is Err
        }),
{
    let lt = type_of(l);
    let rt = type_of(r);
    if forall|u: TypeV| !binop_typing(op, lt, rt, u) {
        assert(!binop_typing(op, lt, rt, TypeV::Int));
        assert(!binop_typing(op, lt, rt, TypeV::Float));
        assert(!binop_typing(op, lt, rt, TypeV::Bool));
    }
}

/// What type inference gives is a valid typing: under the context it was
/// inferred in, every node of the typed expression carries the type the
/// typing rules give it.
pub proof fn lemma_infer_well_typed(ctx: Map<Seq<char>, TypeV>, e: ExprV)
    requires
        infer_spec(ctx, e) is Ok,
    ensures
        well_typed(ctx, infer_spec(ctx, e)->Ok_0),
    decreases e,
{
    match e {
        ExprV::Ann(inner, _) => {
            lemma_infer_well_typed(ctx, *inner);
        },
        ExprV::Tuple(es) => {
            lemma_infer_list_well_typed(ctx, es);
            let tes = infer_list(ctx, es)->Ok_0;
            assert(Seq::new(tes.len(), |i: int| type_of(tes[i])) =~= types_of(tes));
        },
        ExprV::TupleProjection(inner, _) => {
            lemma_infer_well_typed(ctx, *inner);
        },
        ExprV::PrimIO(_, arg) => {
            if let Some(x) = arg {
                lemma_infer_well_typed(ctx, *x);
            }
        },
        ExprV::UnaryOp(_, x) => {
            lemma_infer_well_typed(ctx, *x);
        },
        ExprV::BinOp(_, l, r) => {
            lemma_infer_well_typed(ctx, *l);
            lemma_infer_well_typed(ctx, *r);
        },
        ExprV::If(c, t, f) => {
            lemma_infer_well_typed(ctx, *c);
            lemma_infer_well_typed(ctx, *t);
            lemma_infer_well_typed(ctx, *f);
        },
        ExprV::Let(x, _, rhs, body) => {
            lemma_infer_well_typed(ctx, *rhs);
            let rt = type_of(infer_spec(ctx, *rhs)->Ok_0);
            lemma_infer_well_typed(ctx.insert(x, rt), *body);
        },
        ExprV::LetRec(f, ps, rt, fbody, body) => {
            let fty = build_arrow(param_types(ps), rt);
            lemma_infer_well_typed(extend_params(ctx.insert(f, fty), ps), *fbody);
            lemma_infer_well_typed(ctx.insert(f, fty), *body);
        },
        ExprV::Lambda(ps, _, body) => {
            lemma_infer_well_typed(extend_params(ctx, ps), *body);
        },
        ExprV::App(fe, args) => {
            lemma_infer_well_typed(ctx, *fe);
            let tf = infer_spec(ctx, *fe)->Ok_0;
            lemma_infer_args_well_typed(ctx, type_of(tf), args);
        },
        _ => {},
    }
}

/// Each expression of a list inferred without error is typed validly.
proof fn lemma_infer_list_well_typed(ctx: Map<Seq<char>, TypeV>, es: Seq<ExprV>)
    requires
        infer_list(ctx, es) is Ok,
    ensures
        infer_list(ctx, es)->Ok_0.len() == es.len(),
        forall|i: int|
            0 <= i < es.len() ==> well_typed(ctx, #[trigger] infer_list(ctx, es)->Ok_0[i]),
    decreases es,
{
    if es.len() > 0 {
        lemma_infer_well_typed(ctx, es[0]);
        let rest = es.subrange(1, es.len() as int);
        lemma_infer_list_well_typed(ctx, rest);
        let tes = infer_list(ctx, es)->Ok_0;
        let trest = infer_list(ctx, rest)->Ok_0;
        assert forall|i: int| 0 <= i < es.len() implies well_typed(ctx, #[trigger] tes[i]) by {
            if i > 0 {
                assert(tes[i] == trest[i - 1]);
            }
        }
    }
}

/// The arguments of an application inferred without error are typed
/// validly, and the function type applies to their types.
proof fn lemma_infer_args_well_typed(ctx: Map<Seq<char>, TypeV>, fty: TypeV, args: Seq<ExprV>)
    requires
        infer_args(ctx, fty, args) is Ok,
    ensures
        infer_args(ctx, fty, args)->Ok_0.0.len() == args.len(),
        forall|i: int|
            0 <= i < args.len() ==> well_typed(ctx, #[trigger] infer_args(ctx, fty, args)->Ok_0.0[i]),
        applies_to(fty, types_of(infer_args(ctx, fty, args)->Ok_0.0), infer_args(ctx, fty, args)->Ok_0.1),
    decreases args,
{
    if args.len() > 0 {
        if let TypeV::Arrow(p, r) = fty {
            lemma_infer_well_typed(ctx, args[0]);
            let rest = args.subrange(1, args.len() as int);
            lemma_infer_args_well_typed(ctx, *r, rest);
            let (tas, t) = infer_args(ctx, fty, args)->Ok_0;
            let (trest, t2) = infer_args(ctx, *r, rest)->Ok_0;
            assert forall|i: int| 0 <= i < args.len() implies well_typed(ctx, #[trigger] tas[i]) by {
                if i > 0 {
                    assert(tas[i] == trest[i - 1]);
                }
            }
            assert(types_of(tas).drop_first() =~= types_of(trest));
        }
    } else {
        assert(types_of(infer_args(ctx, fty, args)->Ok_0.0) =~= Seq::<TypeV>::empty());
    }
}

/// The models of a sequence of expressions.
pub open spec fn exprs_model(es: Seq<Expr>) -> Seq<ExprV> {
    Seq::new(es.len(), |i: int| es[i]@)
}

/// The model of an inference outcome.
pub open spec fn result_model(r: Result<TypedExpr, TypeError>) -> Result<TExprV, TypeErrorV> {
    match r {
        Ok(te) => Ok(te@),
        Err(err) => Err(err@),
    }
}

impl Clone for Context {
    fn clone(&self) -> (c: Self)
        ensures
            c@ == self@,
    {
        let mut v: Vec<(Ident, Type)> = Vec::new();
        let mut i: usize = 0;
        while i < self.0.len()
            invariant
                i <= self.0.len(),
                v.len() == i,
                forall|j: int|
                    0 <= j < i ==> v[j].0@ == self.0@[j].0@ && v[j].1@ == self.0@[j].1@,
            decreases self.0.len() - i,
        {
            v.push((self.0[i].0.clone(), self.0[i].1.clone()));
            i += 1;
        }
        proof {
            lemma_bindings_map_congruent(v@, self.0@);
        }
        Context(v)
    }
}

/// The context extended by the parameters, in order.
fn extend_with_params(ctx: &Context, ps: &Vec<(Ident, Type)>) -> (c: Context)
    ensures
        c@ == extend_params(ctx@, params_model(ps@)),
{
    let ghost pm = params_model(ps@);
    let mut c = ctx.clone();
    let mut i: usize = 0;
    assert(pm.subrange(0, 0) =~= Seq::<(Seq<char>, TypeV)>::empty());
    while i < ps.len()
        invariant
            i <= ps.len(),
            pm == params_model(ps@),
            c@ == extend_params(ctx@, pm.subrange(0, i as int)),
        decreases ps.len() - i,
    {
        c = c.extend(ps[i].0.clone(), ps[i].1.clone());
        assert(pm.subrange(0, i + 1).drop_last() =~= pm.subrange(0, i as int));
        i += 1;
    }
    assert(pm.subrange(0, ps.len() as int) =~= pm);
    c
}

/// The types of a parameter list.
fn param_type_list(ps: &Vec<(Ident, Type)>) -> (ts: Vec<Type>)
    ensures
        types_model(ts@) == param_types(params_model(ps@)),
{
    let mut ts: Vec<Type> = Vec::new();
    let mut i: usize = 0;
    while i < ps.len()
        invariant
            i <= ps.len(),
            ts.len() == i,
            forall|j: int| 0 <= j < i ==> ts[j]@ == ps@[j].1@,
        decreases ps.len() - i,
    {
        ts.push(ps[i].1.clone());
        i += 1;
    }
    assert(types_model(ts@) =~= param_types(params_model(ps@)));
    ts
}

/// The curried function type with parameter types `params` and result `ret`.
fn build_arrow_type(params: Vec<Type>, ret: Type) -> (t: Type)
    ensures
        t@ == build_arrow(types_model(params@), ret@),
{
    let ghost pm = types_model(params@);
    let mut acc = ret;
    let mut i = params.len();
    assert(pm.subrange(i as int, i as int) =~= Seq::<TypeV>::empty());
    while i > 0
        invariant
            i <= params.len(),
            pm == types_model(params@),
            acc@ == build_arrow(pm.subrange(i as int, params.len() as int), ret@),
        decreases i,
    {
        i -= 1;
        let p = params[i].clone();
        let ghost old_acc = acc@;
        acc = Type::Arrow(Box::new(p), Box::new(acc));
        assert(pm.subrange(i as int, params.len() as int).drop_first() =~= pm.subrange(
            i + 1,
            params.len() as int,
        ));
    }
    assert(pm.subrange(0, params.len() as int) =~= pm);
    acc
}

fn type_error_mismatch(expected: Type, found: Type) -> (e: TypeError)
    ensures
        e@ == (TypeErrorV::Mismatch { expected: expected@, found: found@ }),
{
    TypeError::Mismatch { expected, found }
}

/// The typed binary operation, or the error for operands of the wrong types.
fn infer_binop(op: BinOp, left: TypedExpr, right: TypedExpr) -> (r: Result<TypedExpr, TypeError>)
    ensures
        result_model(r) == infer_binop_spec(op, left@, right@),
{
    let lt = left.type_of();
    let rt = right.type_of();
    let ok_ty: Option<Type> = match op {
        BinOp::Add | BinOp::Sub | BinOp::Mul | BinOp::Div => match (&lt, &rt) {
            (Type::Int, Type::Int) => Some(Type::Int),
            (Type::Float, Type::Float) => Some(Type::Float),
            _ => None,
        },
        BinOp::Lt | BinOp::Gt | BinOp::Leq | BinOp::Geq => match (&lt, &rt) {
            (Type::Int, Type::Int) | (Type::Float, Type::Float) => Some(Type::Bool),
            _ => None,
        },
        BinOp::Eq | BinOp::Neq => if type_eq(&lt, &rt) {
            Some(Type::Bool)
        } else {
            None
        },
        BinOp::And | BinOp::Or => match (&lt, &rt) {
            (Type::Bool, Type::Bool) => Some(Type::Bool),
            _ => None,
        },
    };
    match ok_ty {
        Some(t) => Ok(TypedExpr::BinOp(op, Box::new(left), Box::new(right), t)),
        None => Err(TypeError::InvalidOperands { op: op.name(), left: lt, right: rt }),
    }
}

/// Inference of a list of expressions, left to right.
#[verifier::loop_isolation(false)]
fn infer_list_exec(ctx: &Context, es: &Vec<Expr>) -> (r: Result<Vec<TypedExpr>, TypeError>)
    requires
        forall|i: int| 0 <= i < es.len() ==> prim_io_well_formed(#[trigger] es[i]@),
    ensures
        match r {
            Ok(v) => infer_list(ctx@, exprs_model(es@)) == Ok::<Seq<TExprV>, TypeErrorV>(
                texprs_model(v@),
            ),
            Err(err) => infer_list(ctx@, exprs_model(es@)) == Err::<Seq<TExprV>, TypeErrorV>(
                err@,
            ),
        },
    decreases es, 0nat,
{
    let ghost esv = exprs_model(es@);
    let mut out: Vec<TypedExpr> = Vec::new();
    let mut i: usize = 0;
    proof {
        assert(esv.subrange(0, es.len() as int) =~= esv);
        match infer_list(ctx@, esv) {
            Ok(rest) => {
                assert(texprs_model(out@) + rest =~= rest);
            },
            Err(_) => {},
        }
    }
    while i < es.len()
        invariant
            i <= es.len(),
            esv == exprs_model(es@),
            out.len() == i,
            infer_list(ctx@, esv) == match infer_list(ctx@, esv.subrange(i as int, es.len() as int)) {
                Ok(rest) => Ok(texprs_model(out@) + rest),
                Err(err) => Err(err),
            },
        decreases es.len() - i,
    {
        let ghost tail = esv.subrange(i as int, es.len() as int);
        assert(tail[0] == es[i as int]@);
        assert(tail.subrange(1, tail.len() as int) =~= esv.subrange(i + 1, es.len() as int));
        match infer(ctx, &es[i]) {
            Err(err) => {
                return Err(err);
            },
            Ok(te) => {
                let ghost before = out@;
                out.push(te);
                proof {
                    assert(texprs_model(out@) =~= texprs_model(before) + seq![out@[i as int]@]);
                    match infer_list(ctx@, esv.subrange(i + 1, es.len() as int)) {
                        Ok(rest) => {
                            assert(texprs_model(out@) + rest =~= texprs_model(before) + (seq![
                                out@[i as int]@,
                            ] + rest));
                        },
                        Err(_) => {},
                    }
                }
            },
        }
        i += 1;
    }
    assert(esv.subrange(es.len() as int, es.len() as int) =~= Seq::<ExprV>::empty());
    assert(texprs_model(out@) + Seq::<TExprV>::empty() =~= texprs_model(out@));
    Ok(out)
}

/// Inference of the arguments of an application of a function of type `fty`.
#[verifier::loop_isolation(false)]
fn infer_args_exec(ctx: &Context, fty: Type, args: &Vec<Expr>) -> (r: Result<
    (Vec<TypedExpr>, Type),
    TypeError,
>)
    requires
        forall|i: int| 0 <= i < args.len() ==> prim_io_well_formed(#[trigger] args[i]@),
    ensures
        match r {
            Ok((v, t)) => infer_args(ctx@, fty@, exprs_model(args@)) == Ok::<
                (Seq<TExprV>, TypeV),
                TypeErrorV,
            >((texprs_model(v@), t@)),
            Err(err) => infer_args(ctx@, fty@, exprs_model(args@)) == Err::<
                (Seq<TExprV>, TypeV),
                TypeErrorV,
            >(err@),
        },
    decreases args, 0nat,
{
    let ghost av = exprs_model(args@);
    let mut out: Vec<TypedExpr> = Vec::new();
    let ghost fty_v = fty@;
    let mut curr = fty;
    let mut i: usize = 0;
    proof {
        assert(av.subrange(0, args.len() as int) =~= av);
        match infer_args(ctx@, fty_v, av) {
            Ok((rest, t)) => {
                assert(texprs_model(out@) + rest =~= rest);
            },
            Err(_) => {},
        }
    }
    while i < args.len()
        invariant
            i <= args.len(),
            av == exprs_model(args@),
            out.len() == i,
            infer_args(ctx@, fty_v, av) == match infer_args(
                ctx@,
                curr@,
                av.subrange(i as int, args.len() as int),
            ) {
                Ok((rest, t)) => Ok((texprs_model(out@) + rest, t)),
                Err(err) => Err(err),
            },
        decreases args.len() - i,
    {
        let ghost tail = av.subrange(i as int, args.len() as int);
        assert(tail[0] == args[i as int]@);
        assert(tail.subrange(1, tail.len() as int) =~= av.subrange(i + 1, args.len() as int));
        match curr {
            Type::Arrow(p, ret) => {
                match infer(ctx, &args[i]) {
                    Err(err) => {
                        return Err(err);
                    },
                    Ok(ta) => {
                        let at = ta.type_of();
                        if !type_eq(&at, &p) {
                            return Err(type_error_mismatch(*p, at));
                        }
                        let ghost before = out@;
                        out.push(ta);
                        curr = *ret;
                        proof {
                            assert(texprs_model(out@) =~= texprs_model(before) + seq![
                                out@[i as int]@,
                            ]);
                            match infer_args(ctx@, curr@, av.subrange(i + 1, args.len() as int)) {
                                Ok((rest, t)) => {
                                    assert(texprs_model(out@) + rest =~= texprs_model(before)
                                        + (seq![out@[i as int]@] + rest));
                                },
                                Err(_) => {},
                            }
                        }
                    },
                }
            },
            other => {
                return Err(TypeError::NotAFunction(other));
            },
        }
        i += 1;
    }
    assert(av.subrange(args.len() as int, args.len() as int) =~= Seq::<ExprV>::empty());
    assert(texprs_model(out@) + Seq::<TExprV>::empty() =~= texprs_model(out@));
    Ok((out, curr))
}

/// Type inference of `expr` under `ctx`.
fn infer(ctx: &Context, expr: &Expr) -> (r: Result<TypedExpr, TypeError>)
    requires
        prim_io_well_formed(expr@),
    ensures
        result_model(r) == infer_spec(ctx@, expr@),
    decreases expr, 1nat,
{
    match expr {
        Expr::Unit => Ok(TypedExpr::Unit),
        Expr::Bool(b) => Ok(TypedExpr::Bool(*b)),
        Expr::Int(i) => Ok(TypedExpr::Int(*i)),
        Expr::Float(f) => Ok(TypedExpr::Float(*f)),
        Expr::Var(name) => match ctx.lookup(name.as_str()) {
            Some(ty) => Ok(TypedExpr::Var(name.clone(), ty.clone())),
            None => Err(TypeError::UnboundVariable(name.clone())),
        },
        Expr::Ann(..) => infer_ann(ctx, expr),
        Expr::Tuple(..) => infer_tuple(ctx, expr),
        Expr::TupleProjection(..) => infer_projection(ctx, expr),
        Expr::PrimIO(..) => infer_prim_io(ctx, expr),
        Expr::UnaryOp(..) => infer_unary(ctx, expr),
        Expr::BinOp(..) => infer_binop_expr(ctx, expr),
        Expr::If(..) => infer_if(ctx, expr),
        Expr::Let(..) => infer_let(ctx, expr),
        Expr::LetRec(..) => infer_let_rec(ctx, expr),
        Expr::Lambda(..) => infer_lambda(ctx, expr),
        Expr::App(..) => infer_app(ctx, expr),
    }
}

fn infer_ann(ctx: &Context, expr: &Expr) -> (r: Result<TypedExpr, TypeError>)
    requires
        expr is Ann,
        prim_io_well_formed(expr@),
    ensures
        result_model(r) == infer_spec(ctx@, expr@),
    decreases expr, 0nat,
{
    match expr {
        Expr::Ann(inner, ann_ty) => {
            let typed_expr = infer(ctx, inner)?;
            let inferred = typed_expr.type_of();
            if !type_eq(&inferred, ann_ty) {
                return Err(TypeError::AnnotationMismatch { annotated: ann_ty.clone(), inferred });
            }
            Ok(typed_expr)
        },
        _ => {
            assert(false);
            Err(TypeError::NotATuple(Type::Unit))
        },
    }
}

fn infer_tuple(ctx: &Context, expr: &Expr) -> (r: Result<TypedExpr, TypeError>)
    requires
        expr is Tuple,
        prim_io_well_formed(expr@),
    ensures
        result_model(r) == infer_spec(ctx@, expr@),
    decreases expr, 0nat,
{
    match expr {
        Expr::Tuple(exprs) => {
            assert(expr@->Tuple_0 =~= exprs_model(exprs@));
            assert forall|i: int| 0 <= i < exprs.len() implies prim_io_well_formed(
                #[trigger] exprs[i]@,
            ) by {
                assert(expr@->Tuple_0[i] == exprs[i]@);
                assert(prim_io_well_formed(expr@->Tuple_0[i]));
            }
            let typed_exprs = infer_list_exec(ctx, exprs)?;
            let mut types: Vec<Type> = Vec::new();
            let mut i: usize = 0;
            while i < typed_exprs.len()
                invariant
                    i <= typed_exprs.len(),
                    types.len() == i,
                    forall|j: int| 0 <= j < i ==> types[j]@ == type_of(typed_exprs[j]@),
                decreases typed_exprs.len() - i,
            {
                types.push(typed_exprs[i].type_of());
                i += 1;
            }
            let r = TypedExpr::Tuple(typed_exprs, Type::Tuple(types));
            proof {
                let tes = texprs_model(typed_exprs@);
                assert(r@->Tuple_0 =~= tes);
                assert(r@->Tuple_1->Tuple_0 =~= Seq::new(tes.len(), |i: int| type_of(tes[i])));
            }
            Ok(r)
        },
        _ => {
            assert(false);
            Err(TypeError::NotATuple(Type::Unit))
        },
    }
}

fn infer_projection(ctx: &Context, expr: &Expr) -> (r: Result<TypedExpr, TypeError>)
    requires
        expr is TupleProjection,
        prim_io_well_formed(expr@),
    ensures
        result_model(r) == infer_spec(ctx@, expr@),
    decreases expr, 0nat,
{
    match expr {
        Expr::TupleProjection(inner, index) => {
            let typed_inner = infer(ctx, inner)?;
            let inner_ty = typed_inner.type_of();
            match inner_ty {
                Type::Tuple(types) => {
                    if *index >= types.len() {
                        return Err(
                            TypeError::TupleIndexOutOfBounds { len: types.len(), index: *index },
                        );
                    }
                    let elem_ty = types[*index].clone();
                    Ok(TypedExpr::TupleProjection(Box::new(typed_inner), *index, elem_ty))
                },
                other => Err(TypeError::NotATuple(other)),
            }
        },
        _ => {
            assert(false);
            Err(TypeError::NotATuple(Type::Unit))
        },
    }
}

fn infer_prim_io(ctx: &Context, expr: &Expr) -> (r: Result<TypedExpr, TypeError>)
    requires
        expr is PrimIO,
        prim_io_well_formed(expr@),
    ensures
        result_model(r) == infer_spec(ctx@, expr@),
    decreases expr, 0nat,
{
    match expr {
        Expr::PrimIO(prim_io, arg) => match arg {
            Some(x) => {
                let typed_expr = infer(ctx, x)?;
                let ty = typed_expr.type_of();
                Ok(TypedExpr::PrimIO(*prim_io, Some(Box::new(typed_expr)), ty))
            },
            None => Ok(TypedExpr::PrimIO(*prim_io, None, Type::Unit)),
        },
        _ => {
            assert(false);
            Err(TypeError::NotATuple(Type::Unit))
        },
    }
}

fn infer_unary(ctx: &Context, expr: &Expr) -> (r: Result<TypedExpr, TypeError>)
    requires
        expr is UnaryOp,
        prim_io_well_formed(expr@),
    ensures
        result_model(r) == infer_spec(ctx@, expr@),
    decreases expr, 0nat,
{
    match expr {
        Expr::UnaryOp(op, operand) => {
            let typed_operand = infer(ctx, operand)?;
            let ty = typed_operand.type_of();
            match op {
                UnaryOp::Neg => match &ty {
                    Type::Int | Type::Float => Ok(
                        TypedExpr::UnaryOp(*op, Box::new(typed_operand), ty),
                    ),
                    _ => Err(TypeError::InvalidUnary { op: "-".to_string(), ty }),
                },
                UnaryOp::Not => match &ty {
                    Type::Bool => Ok(TypedExpr::UnaryOp(*op, Box::new(typed_operand), ty)),
                    _ => Err(TypeError::InvalidUnary { op: "!".to_string(), ty }),
                },
            }
        },
        _ => {
            assert(false);
            Err(TypeError::NotATuple(Type::Unit))
        },
    }
}

fn infer_binop_expr(ctx: &Context, expr: &Expr) -> (r: Result<TypedExpr, TypeError>)
    requires
        expr is BinOp,
        prim_io_well_formed(expr@),
    ensures
        result_model(r) == infer_spec(ctx@, expr@),
    decreases expr, 0nat,
{
    match expr {
        Expr::BinOp(op, lhs, rhs) => {
            let left = infer(ctx, lhs)?;
            let right = infer(ctx, rhs)?;
            infer_binop(*op, left, right)
        },
        _ => {
            assert(false);
            Err(TypeError::NotATuple(Type::Unit))
        },
    }
}

fn infer_if(ctx: &Context, expr: &Expr) -> (r: Result<TypedExpr, TypeError>)
    requires
        expr is If,
        prim_io_well_formed(expr@),
    ensures
        result_model(r) == infer_spec(ctx@, expr@),
    decreases expr, 0nat,
{
    match expr {
        Expr::If(cond, thn, els) => {
            let typed_cond = infer(ctx, cond)?;
            let cond_ty = typed_cond.type_of();
            if !type_eq(&Type::Bool, &cond_ty) {
                return Err(type_error_mismatch(Type::Bool, cond_ty));
            }
            let typed_then = infer(ctx, thn)?;
            let then_ty = typed_then.type_of();
            let typed_else = infer(ctx, els)?;
            let else_ty = typed_else.type_of();
            if !type_eq(&then_ty, &else_ty) {
                return Err(TypeError::BranchMismatch { then_ty, else_ty });
            }
            Ok(TypedExpr::If(Box::new(typed_cond), Box::new(typed_then), Box::new(typed_else), then_ty))
        },
        _ => {
            assert(false);
            Err(TypeError::NotATuple(Type::Unit))
        },
    }
}

fn infer_let(ctx: &Context, expr: &Expr) -> (r: Result<TypedExpr, TypeError>)
    requires
        expr is Let,
        prim_io_well_formed(expr@),
    ensures
        result_model(r) == infer_spec(ctx@, expr@),
    decreases expr, 0nat,
{
    match expr {
        Expr::Let(name, ann, rhs, body) => {
            let typed_rhs = infer(ctx, rhs)?;
            let rhs_ty = typed_rhs.type_of();
            if let Some(ann_ty) = ann {
                if !type_eq(&rhs_ty, ann_ty) {
                    return Err(
                        TypeError::AnnotationMismatch { annotated: ann_ty.clone(), inferred: rhs_ty },
                    );
                }
            }
            let ctx2 = ctx.extend(name.clone(), rhs_ty.clone());
            let typed_body = infer(&ctx2, body)?;
            let body_ty = typed_body.type_of();
            Ok(TypedExpr::Let(name.clone(), rhs_ty, Box::new(typed_rhs), Box::new(typed_body), body_ty))
        },
        _ => {
            assert(false);
            Err(TypeError::NotATuple(Type::Unit))
        },
    }
}

fn infer_let_rec(ctx: &Context, expr: &Expr) -> (r: Result<TypedExpr, TypeError>)
    requires
        expr is LetRec,
        prim_io_well_formed(expr@),
    ensures
        result_model(r) == infer_spec(ctx@, expr@),
    decreases expr, 0nat,
{
    match expr {
        Expr::LetRec(fname, fparams, fret_ty, fbody, rest) => {
            let fn_ty = build_arrow_type(param_type_list(fparams), fret_ty.clone());
            let with_f = ctx.extend(fname.clone(), fn_ty.clone());
            let body_ctx = extend_with_params(&with_f, fparams);
            let typed_fbody = infer(&body_ctx, fbody)?;
            let fbody_ty = typed_fbody.type_of();
            if !type_eq(&fbody_ty, fret_ty) {
                return Err(
                    TypeError::AnnotationMismatch { annotated: fret_ty.clone(), inferred: fbody_ty },
                );
            }
            let rest_ctx = ctx.extend(fname.clone(), fn_ty);
            let typed_rest = infer(&rest_ctx, rest)?;
            let rest_ty = typed_rest.type_of();
            Ok(
                TypedExpr::LetRec(
                    fname.clone(),
                    clone_params(fparams),
                    fret_ty.clone(),
                    Box::new(typed_fbody),
                    Box::new(typed_rest),
                    rest_ty,
                ),
            )
        },
        _ => {
            assert(false);
            Err(TypeError::NotATuple(Type::Unit))
        },
    }
}

fn infer_lambda(ctx: &Context, expr: &Expr) -> (r: Result<TypedExpr, TypeError>)
    requires
        expr is Lambda,
        prim_io_well_formed(expr@),
    ensures
        result_model(r) == infer_spec(ctx@, expr@),
    decreases expr, 0nat,
{
    match expr {
        Expr::Lambda(params, opt_ret, body) => {
            let lam_ctx = extend_with_params(ctx, params);
            let typed_body = infer(&lam_ctx, body)?;
            let body_ty = typed_body.type_of();
            if let Some(rt_ty) = opt_ret {
                if !type_eq(&body_ty, rt_ty) {
                    return Err(
                        TypeError::ReturnTypeMismatch { expected: rt_ty.clone(), found: body_ty },
                    );
                }
            }
            let lambda_ty = build_arrow_type(param_type_list(params), body_ty.clone());
            Ok(TypedExpr::Lambda(clone_params(params), body_ty, Box::new(typed_body), lambda_ty))
        },
        _ => {
            assert(false);
            Err(TypeError::NotATuple(Type::Unit))
        },
    }
}

fn infer_app(ctx: &Context, expr: &Expr) -> (r: Result<TypedExpr, TypeError>)
    requires
        expr is App,
        prim_io_well_formed(expr@),
    ensures
        result_model(r) == infer_spec(ctx@, expr@),
    decreases expr, 0nat,
{
    match expr {
        Expr::App(func, args) => {
            assert(expr@->App_1 =~= exprs_model(args@));
            assert forall|i: int| 0 <= i < args.len() implies prim_io_well_formed(
                #[trigger] args[i]@,
            ) by {
                assert(expr@->App_1[i] == args[i]@);
                assert(prim_io_well_formed(expr@->App_1[i]));
            }
            let typed_fn = infer(ctx, func)?;
            let fn_ty = typed_fn.type_of();
            let (typed_args, ty) = infer_args_exec(ctx, fn_ty, args)?;
            let r = TypedExpr::App(Box::new(typed_fn), typed_args, ty);
            assert(r@->App_1 =~= texprs_model(typed_args@));
            Ok(r)
        },
        _ => {
            assert(false);
            Err(TypeError::NotATuple(Type::Unit))
        },
    }
}

/// Infers the type of a closed expression: the type and the typed expression.
pub fn typecheck(expr: Expr) -> (r: Result<(Type, TypedExpr), TypeError>)
    requires
        prim_io_well_formed(expr@),
    ensures
        match r {
            Ok((t, te)) => infer_spec(Map::empty(), expr@) == Ok::<TExprV, TypeErrorV>(te@)
                && t@ == type_of(te@) && well_typed(Map::empty(), te@),
            Err(err) => infer_spec(Map::empty(), expr@) == Err::<TExprV, TypeErrorV>(err@),
        },
{
    let ctx = Context::new();
    let typed_expr = infer(&ctx, &expr)?;
    proof {
        lemma_infer_well_typed(ctx@, expr@);
    }
    Ok((typed_expr.type_of(), typed_expr))
}

/// Infers the type of `expr` under the context `ctx`.
pub fn typecheck_with_ctx(ctx: &Context, expr: Expr) -> (r: Result<(Type, TypedExpr), TypeError>)
    requires
        prim_io_well_formed(expr@),
    ensures
        match r {
            Ok((t, te)) => infer_spec(ctx@, expr@) == Ok::<TExprV, TypeErrorV>(te@) && t@
                == type_of(te@) && well_typed(ctx@, te@),
            Err(err) => infer_spec(ctx@, expr@) == Err::<TExprV, TypeErrorV>(err@),
        },
{
    let typed_expr = infer(ctx, &expr)?;
    proof {
        lemma_infer_well_typed(ctx@, expr@);
    }
    Ok((typed_expr.type_of(), typed_expr))
}

/// Type-annotated top-level definitions.
#[derive(Debug, PartialEq)]
pub enum TypedDef {
    /// Name, optional type annotation and the defining expression.
    ValDef(Ident, Option<Type>, TypedExpr),
    /// Function name, parameters, return type and body.
    FunDef(Ident, Vec<(Ident, Type)>, Type, TypedExpr),
}

/// Mathematical model of [`TypedDef`].
pub enum TDefV {
    ValDef(Seq<char>, Option<TypeV>, TExprV),
    FunDef(Seq<char>, Seq<(Seq<char>, TypeV)>, TypeV, TExprV),
}

impl View for TypedDef {
    type V = TDefV;

    open spec fn view(&self) -> TDefV {
        match self {
            TypedDef::ValDef(x, t, e) => TDefV::ValDef(x@, opt_type_model(*t), e@),
            TypedDef::FunDef(f, ps, rt, body) => TDefV::FunDef(f@, params_model(ps@), rt@, body@),
        }
    }
}

/// The name a definition binds.
pub open spec fn def_name(d: TDefV) -> Seq<char> {
    match d {
        TDefV::ValDef(x, _, _) => x,
        TDefV::FunDef(f, _, _, _) => f,
    }
}

impl TypedDef {
    /// The name the definition binds.
    pub fn name(&self) -> (n: Ident)
        ensures
            n@ == def_name(self@),
    {
        match self {
            TypedDef::ValDef(x, _, _) => x.clone(),
            TypedDef::FunDef(f, _, _, _) => f.clone(),
        }
    }
}

/// A type-annotated program: definitions followed by the main expression.
#[derive(Debug, PartialEq)]
pub struct TypedProgram {
    pub defs: Vec<TypedDef>,
    pub main: TypedExpr,
}

} // verus!
