//! Surface syntax of the Intu language: types, operators, expressions,
//! definitions and programs, with their mathematical models.
use vstd::prelude::*;
use vstd::string::StringExecFns;

verus! {

broadcast use vstd::string::group_string_axioms;

/// Identifiers are plain strings.
pub type Ident = String;

/// Types of the surface language.
#[derive(Debug, PartialEq)]
pub enum Type {
    Unit,
    Bool,
    Float,
    Int,
    Tuple(Vec<Type>),
    Arrow(Box<Type>, Box<Type>),
    Var(Ident),
}

/// Mathematical model of [`Type`]: names are character sequences.
pub enum TypeV {
    Unit,
    Bool,
    Float,
    Int,
    Tuple(Seq<TypeV>),
    Arrow(Box<TypeV>, Box<TypeV>),
    Var(Seq<char>),
}

impl Type {
    pub open spec fn model(self) -> TypeV
        decreases self,
    {
        match self {
            Type::Unit => TypeV::Unit,
            Type::Bool => TypeV::Bool,
            Type::Float => TypeV::Float,
            Type::Int => TypeV::Int,
            Type::Tuple(ts) => TypeV::Tuple(
                Seq::new(
                    ts.len() as nat,
                    |i: int|
                        if 0 <= i < ts.len() {
                            ts[i].model()
                        } else {
                            TypeV::Unit
                        },
                ),
            ),
            Type::Arrow(a, b) => TypeV::Arrow(Box::new(a.model()), Box::new(b.model())),
            Type::Var(x) => TypeV::Var(x@),
        }
    }
}

impl View for Type {
    type V = TypeV;

    open spec fn view(&self) -> TypeV {
        self.model()
    }
}

/// The models of a sequence of types.
pub open spec fn types_model(ts: Seq<Type>) -> Seq<TypeV> {
    Seq::new(ts.len(), |i: int| ts[i]@)
}

/// The models of a parameter list.
pub open spec fn params_model(ps: Seq<(Ident, Type)>) -> Seq<(Seq<char>, TypeV)> {
    Seq::new(ps.len(), |i: int| (ps[i].0@, ps[i].1@))
}

pub open spec fn opt_type_model(t: Option<Type>) -> Option<TypeV> {
    match t {
        Some(t) => Some(t@),
        None => None,
    }
}

/// Structural equality of types, names compared by their characters.
#[verifier::loop_isolation(false)]
pub fn type_eq(a: &Type, b: &Type) -> (r: bool)
    ensures
        r == (a@ == b@),
    decreases a,
{
    match (a, b) {
        (Type::Unit, Type::Unit) => true,
        (Type::Bool, Type::Bool) => true,
        (Type::Float, Type::Float) => true,
        (Type::Int, Type::Int) => true,
        (Type::Var(x), Type::Var(y)) => x.eq(y),
        (Type::Arrow(a1, a2), Type::Arrow(b1, b2)) => {
            if !type_eq(a1, b1) {
                return false;
            }
            type_eq(a2, b2)
        },
        (Type::Tuple(xs), Type::Tuple(ys)) => {
            if xs.len() != ys.len() {
                assert(a@->Tuple_0.len() != b@->Tuple_0.len());
                return false;
            }
            let mut i: usize = 0;
            while i < xs.len()
                invariant
                    i <= xs.len() == ys.len(),
                    forall|j: int| 0 <= j < i ==> xs[j]@ == ys[j]@,
                decreases xs.len() - i,
            {
                if !type_eq(&xs[i], &ys[i]) {
                    assert(a@->Tuple_0[i as int] != b@->Tuple_0[i as int]);
                    return false;
                }
                i += 1;
            }
            assert(a@->Tuple_0 =~= b@->Tuple_0);
            true
        },
        _ => false,
    }
}

/// A copy of a list of types.
pub fn clone_types(ts: &Vec<Type>) -> (r: Vec<Type>)
    ensures
        types_model(r@) == types_model(ts@),
{
    let mut out: Vec<Type> = Vec::new();
    let mut i: usize = 0;
    while i < ts.len()
        invariant
            i <= ts.len(),
            out.len() == i,
            forall|j: int| 0 <= j < i ==> out[j]@ == ts[j]@,
        decreases ts.len() - i,
    {
        out.push(ts[i].clone());
        i += 1;
    }
    assert(types_model(out@) =~= types_model(ts@));
    out
}

/// A copy of a parameter list.
pub fn clone_params(ps: &Vec<(Ident, Type)>) -> (r: Vec<(Ident, Type)>)
    ensures
        params_model(r@) == params_model(ps@),
{
    let mut out: Vec<(Ident, Type)> = Vec::new();
    let mut i: usize = 0;
    while i < ps.len()
        invariant
            i <= ps.len(),
            out.len() == i,
            forall|j: int| 0 <= j < i ==> out[j].0@ == ps[j].0@ && out[j].1@ == ps[j].1@,
        decreases ps.len() - i,
    {
        out.push((ps[i].0.clone(), ps[i].1.clone()));
        i += 1;
    }
    assert(params_model(out@) =~= params_model(ps@));
    out
}

pub fn clone_opt_type(t: &Option<Type>) -> (r: Option<Type>)
    ensures
        opt_type_model(r) == opt_type_model(*t),
{
    match t {
        Some(t) => Some(t.clone()),
        None => None,
    }
}

impl Clone for Type {
    #[verifier::loop_isolation(false)]
    fn clone(&self) -> (r: Self)
        ensures
            r@ == self@,
        decreases self,
    {
        match self {
            Type::Unit => Type::Unit,
            Type::Bool => Type::Bool,
            Type::Float => Type::Float,
            Type::Int => Type::Int,
            Type::Var(x) => Type::Var(x.clone()),
            Type::Arrow(a, b) => Type::Arrow(Box::new((**a).clone()), Box::new((**b).clone())),
            Type::Tuple(ts) => {
                let mut out: Vec<Type> = Vec::new();
                let mut i: usize = 0;
                while i < ts.len()
                    invariant
                        i <= ts.len(),
                        out.len() == i,
                        forall|j: int| 0 <= j < i ==> out[j]@ == ts[j]@,
                    decreases ts.len() - i,
                {
                    out.push(ts[i].clone());
                    i += 1;
                }
                let r = Type::Tuple(out);
                assert(r@->Tuple_0 =~= self@->Tuple_0);
                r
            },
        }
    }
}

/// The printed form of a type: tuples as `(t1, t2)`, arrows right-nested with
/// a parenthesised arrow on the left.
pub open spec fn show_type(t: TypeV) -> Seq<char>
    decreases t,
{
    match t {
        TypeV::Unit => "Unit"@,
        TypeV::Bool => "Bool"@,
        TypeV::Int => "Int"@,
        TypeV::Float => "Float"@,
        TypeV::Tuple(ts) => "("@ + show_type_list(ts, ts.len() as int) + ")"@,
        TypeV::Var(x) => x,
        TypeV::Arrow(a, b) => {
            let from = match *a {
                TypeV::Arrow(_, _) => "("@ + show_type(*a) + ")"@,
                _ => show_type(*a),
            };
            from + " -> "@ + show_type(*b)
        },
    }
}

/// The first `n` types of `ts`, printed and separated by `", "`.
pub open spec fn show_type_list(ts: Seq<TypeV>, n: int) -> Seq<char>
    decreases ts, n,
{
    if n <= 0 || n > ts.len() {
        Seq::empty()
    } else if n == 1 {
        show_type(ts[0])
    } else {
        show_type_list(ts, n - 1) + ", "@ + show_type(ts[n - 1])
    }
}

impl Type {
    /// The printed form of the type, as `show_type` describes it.
    #[verifier::loop_isolation(false)]
    pub fn to_string(&self) -> (s: String)
        ensures
            s@ == show_type(self@),
        decreases self,
    {
        match self {
            Type::Unit => "Unit".to_string(),
            Type::Bool => "Bool".to_string(),
            Type::Int => "Int".to_string(),
            Type::Float => "Float".to_string(),
            Type::Var(name) => name.clone(),
            Type::Tuple(ts) => {
                let ghost tsv = self@->Tuple_0;
                let mut s = "(".to_string();
                let mut i: usize = 0;
                while i < ts.len()
                    invariant
                        i <= ts.len(),
                        tsv.len() == ts.len(),
                        s@ == "("@ + show_type_list(tsv, i as int),
                    decreases ts.len() - i,
                {
                    let part = ts[i].to_string();
                    if i > 0 {
                        s.append(", ");
                    }
                    s.append(part.as_str());
                    i += 1;
                    assert(tsv[i - 1] == ts[i - 1]@);
                }
                s.append(")");
                s
            },
            Type::Arrow(from, to) => {
                let mut s = match **from {
                    Type::Arrow(_, _) => {
                        let mut s = "(".to_string();
                        let inner = from.to_string();
                        s.append(inner.as_str());
                        s.append(")");
                        s
                    },
                    _ => from.to_string(),
                };
                s.append(" -> ");
                let right = to.to_string();
                s.append(right.as_str());
                s
            },
        }
    }
}

/// Primitive input and output operations.
#[derive(Debug, Clone, Copy, PartialEq, Eq, Structural)]
pub enum PrimIO {
    PrintInt,
    PrintFloat,
    PrintBool,
    ReadInt,
    ReadFloat,
}

impl PrimIO {
    /// Printing operations take an argument; reading operations take none.
    pub open spec fn takes_argument(self) -> bool {
        match self {
            PrimIO::PrintInt | PrimIO::PrintFloat | PrimIO::PrintBool => true,
            _ => false,
        }
    }
}

/// Binary operators.
#[derive(Debug, Clone, Copy, PartialEq, Eq, Structural)]
pub enum BinOp {
    Add,
    Sub,
    Mul,
    Div,
    And,
    Or,
    Eq,
    Neq,
    Lt,
    Gt,
    Leq,
    Geq,
}

/// The concrete syntax of a binary operator.
pub open spec fn binop_symbol(op: BinOp) -> Seq<char> {
    match op {
        BinOp::Add => "+"@,
        BinOp::Sub => "-"@,
        BinOp::Mul => "*"@,
        BinOp::Div => "/"@,
        BinOp::And => "&&"@,
        BinOp::Or => "||"@,
        BinOp::Eq => "="@,
        BinOp::Neq => "<>"@,
        BinOp::Lt => "<"@,
        BinOp::Gt => ">"@,
        BinOp::Leq => "<="@,
        BinOp::Geq => ">="@,
    }
}

/// The variant name of a binary operator.
pub open spec fn binop_name(op: BinOp) -> Seq<char> {
    match op {
        BinOp::Add => "Add"@,
        BinOp::Sub => "Sub"@,
        BinOp::Mul => "Mul"@,
        BinOp::Div => "Div"@,
        BinOp::And => "And"@,
        BinOp::Or => "Or"@,
        BinOp::Eq => "Eq"@,
        BinOp::Neq => "Neq"@,
        BinOp::Lt => "Lt"@,
        BinOp::Gt => "Gt"@,
        BinOp::Leq => "Leq"@,
        BinOp::Geq => "Geq"@,
    }
}

impl BinOp {
    /// The concrete syntax of the operator.
    pub fn to_string(&self) -> (s: String)
        ensures
            s@ == binop_symbol(*self),
    {
        let sym: &str = match self {
            BinOp::Add => "+",
            BinOp::Sub => "-",
            BinOp::Mul => "*",
            BinOp::Div => "/",
            BinOp::And => "&&",
            BinOp::Or => "||",
            BinOp::Eq => "=",
            BinOp::Neq => "<>",
            BinOp::Lt => "<",
            BinOp::Gt => ">",
            BinOp::Leq => "<=",
            BinOp::Geq => ">=",
        };
        sym.to_string()
    }

    /// The variant name of the operator.
    pub fn name(&self) -> (s: String)
        ensures
            s@ == binop_name(*self),
    {
        let n: &str = match self {
            BinOp::Add => "Add",
            BinOp::Sub => "Sub",
            BinOp::Mul => "Mul",
            BinOp::Div => "Div",
            BinOp::And => "And",
            BinOp::Or => "Or",
            BinOp::Eq => "Eq",
            BinOp::Neq => "Neq",
            BinOp::Lt => "Lt",
            BinOp::Gt => "Gt",
            BinOp::Leq => "Leq",
            BinOp::Geq => "Geq",
        };
        n.to_string()
    }
}

/// Unary operators.
#[derive(Debug, Clone, Copy, PartialEq, Eq, Structural)]
pub enum UnaryOp {
    Neg,
    Not,
}

/// The concrete syntax of a unary operator.
pub open spec fn unary_symbol(op: UnaryOp) -> Seq<char> {
    match op {
        UnaryOp::Neg => "-"@,
        UnaryOp::Not => "!"@,
    }
}

impl UnaryOp {
    /// The concrete syntax of the operator.
    pub fn to_string(&self) -> (s: String)
        ensures
            s@ == unary_symbol(*self),
    {
        match self {
            UnaryOp::Neg => "-".to_string(),
            UnaryOp::Not => "!".to_string(),
        }
    }
}

/// Expressions of the surface language.  A float literal is held by the bit
/// pattern of its IEEE 754 double value.
#[derive(Debug, PartialEq)]
pub enum Expr {
    Unit,
    Bool(bool),
    Int(i64),
    Float(u64),
    Var(Ident),
    Tuple(Vec<Expr>),
    TupleProjection(Box<Expr>, usize),
    PrimIO(PrimIO, Option<Box<Expr>>),
    BinOp(BinOp, Box<Expr>, Box<Expr>),
    UnaryOp(UnaryOp, Box<Expr>),
    Ann(Box<Expr>, Type),
    If(Box<Expr>, Box<Expr>, Box<Expr>),
    Let(Ident, Option<Type>, Box<Expr>, Box<Expr>),
    /// Function name, parameters with their types, return type, function body,
    /// and the expression after the binding.
    LetRec(Ident, Vec<(Ident, Type)>, Type, Box<Expr>, Box<Expr>),
    App(Box<Expr>, Vec<Expr>),
    Lambda(Vec<(Ident, Type)>, Option<Type>, Box<Expr>),
}

/// Mathematical model of [`Expr`].
pub enum ExprV {
    Unit,
    Bool(bool),
    Int(i64),
    Float(u64),
    Var(Seq<char>),
    Tuple(Seq<ExprV>),
    TupleProjection(Box<ExprV>, usize),
    PrimIO(PrimIO, Option<Box<ExprV>>),
    BinOp(BinOp, Box<ExprV>, Box<ExprV>),
    UnaryOp(UnaryOp, Box<ExprV>),
    Ann(Box<ExprV>, TypeV),
    If(Box<ExprV>, Box<ExprV>, Box<ExprV>),
    Let(Seq<char>, Option<TypeV>, Box<ExprV>, Box<ExprV>),
    LetRec(Seq<char>, Seq<(Seq<char>, TypeV)>, TypeV, Box<ExprV>, Box<ExprV>),
    App(Box<ExprV>, Seq<ExprV>),
    Lambda(Seq<(Seq<char>, TypeV)>, Option<TypeV>, Box<ExprV>),
}

impl Expr {
    pub open spec fn model(self) -> ExprV
        decreases self,
    {
        match self {
            Expr::Unit => ExprV::Unit,
            Expr::Bool(b) => ExprV::Bool(b),
            Expr::Int(n) => ExprV::Int(n),
            Expr::Float(f) => ExprV::Float(f),
            Expr::Var(x) => ExprV::Var(x@),
            Expr::Tuple(es) => ExprV::Tuple(
                Seq::new(
                    es.len() as nat,
                    |i: int|
                        if 0 <= i < es.len() {
                            es[i].model()
                        } else {
                            ExprV::Unit
                        },
                ),
            ),
            Expr::TupleProjection(e, i) => ExprV::TupleProjection(Box::new(e.model()), i),
            Expr::PrimIO(p, arg) => ExprV::PrimIO(
                p,
                match arg {
                    Some(e) => Some(Box::new(e.model())),
                    None => None,
                },
            ),
            Expr::BinOp(op, l, r) => ExprV::BinOp(op, Box::new(l.model()), Box::new(r.model())),
            Expr::UnaryOp(op, e) => ExprV::UnaryOp(op, Box::new(e.model())),
            Expr::Ann(e, t) => ExprV::Ann(Box::new(e.model()), t@),
            Expr::If(c, t, e) => ExprV::If(
                Box::new(c.model()),
                Box::new(t.model()),
                Box::new(e.model()),
            ),
            Expr::Let(x, t, rhs, body) => ExprV::Let(
                x@,
                opt_type_model(t),
                Box::new(rhs.model()),
                Box::new(body.model()),
            ),
            Expr::LetRec(f, ps, rt, fbody, body) => ExprV::LetRec(
                f@,
                params_model(ps@),
                rt@,
                Box::new(fbody.model()),
                Box::new(body.model()),
            ),
            Expr::App(f, args) => ExprV::App(
                Box::new(f.model()),
                Seq::new(
                    args.len() as nat,
                    |i: int|
                        if 0 <= i < args.len() {
                            args[i].model()
                        } else {
                            ExprV::Unit
                        },
                ),
            ),
            Expr::Lambda(ps, rt, body) => ExprV::Lambda(
                params_model(ps@),
                opt_type_model(rt),
                Box::new(body.model()),
            ),
        }
    }
}

impl View for Expr {
    type V = ExprV;

    open spec fn view(&self) -> ExprV {
        self.model()
    }
}

/// Copies of a list of expressions.
fn clone_exprs(es: &Vec<Expr>) -> (r: Vec<Expr>)
    ensures
        r@.len() == es@.len(),
        forall|i: int| 0 <= i < es@.len() ==> #[trigger] r@[i]@ == es@[i]@,
    decreases es@,
{
    let mut out: Vec<Expr> = Vec::new();
    let mut i: usize = 0;
    while i < es.len()
        invariant
            i <= es.len(),
            out.len() == i,
            forall|j: int| 0 <= j < i ==> #[trigger] out@[j]@ == es@[j]@,
        decreases es.len() - i,
    {
        assert(decreases_to!(es@ => es@[i as int]));
        out.push(es[i].clone());
        i += 1;
    }
    out
}

impl Clone for Expr {
    fn clone(&self) -> (r: Self)
        ensures
            r@ == self@,
        decreases self,
    {
        match self {
            Expr::Unit => Expr::Unit,
            Expr::Bool(b) => Expr::Bool(*b),
            Expr::Int(n) => Expr::Int(*n),
            Expr::Float(f) => Expr::Float(*f),
            Expr::Var(x) => Expr::Var(x.clone()),
            Expr::Tuple(es) => {
                let v = clone_exprs(es);
                assert forall|i: int| 0 <= i < v.len() implies v[i].model() == es[i].model() by {
                    assert(v@[i]@ == es@[i]@);
                }
                let r = Expr::Tuple(v);
                assert(r@->Tuple_0 =~= self@->Tuple_0);
                r
            },
            Expr::TupleProjection(e, i) => Expr::TupleProjection(Box::new((**e).clone()), *i),
            Expr::PrimIO(p, arg) => {
                let a = match arg {
                    Some(e) => Some(Box::new((**e).clone())),
                    None => None,
                };
                Expr::PrimIO(*p, a)
            },
            Expr::BinOp(op, l, r) => Expr::BinOp(*op, Box::new((**l).clone()), Box::new((**r).clone())),
            Expr::UnaryOp(op, e) => Expr::UnaryOp(*op, Box::new((**e).clone())),
            Expr::Ann(e, t) => Expr::Ann(Box::new((**e).clone()), t.clone()),
            Expr::If(c, t, e) => Expr::If(
                Box::new((**c).clone()),
                Box::new((**t).clone()),
                Box::new((**e).clone()),
            ),
            Expr::Let(x, t, rhs, body) => Expr::Let(
                x.clone(),
                clone_opt_type(t),
                Box::new((**rhs).clone()),
                Box::new((**body).clone()),
            ),
            Expr::LetRec(f, ps, rt, fb, b) => Expr::LetRec(
                f.clone(),
                clone_params(ps),
                rt.clone(),
                Box::new((**fb).clone()),
                Box::new((**b).clone()),
            ),
            Expr::App(f, args) => {
                let v = clone_exprs(args);
                assert forall|i: int| 0 <= i < v.len() implies v[i].model() == args[i].model() by {
                    assert(v@[i]@ == args@[i]@);
                }
                let r = Expr::App(Box::new((**f).clone()), v);
                assert(r@->App_1 =~= self@->App_1);
                r
            },
            Expr::Lambda(ps, rt, body) => Expr::Lambda(
                clone_params(ps),
                clone_opt_type(rt),
                Box::new((**body).clone()),
            ),
        }
    }
}

/// Top-level definitions.
#[derive(Debug, PartialEq)]
pub enum Def {
    /// Name, optional type annotation and the defining expression.
    ValDef(Ident, Option<Type>, Expr),
    /// Function name, parameters with their types, optional return type and body.
    FunDef(Ident, Vec<(Ident, Type)>, Option<Type>, Expr),
}

/// A program: definitions followed by the main expression.
#[derive(Debug, PartialEq)]
pub struct Program {
    pub defs: Vec<Def>,
    pub main: Expr,
}

pub fn ty_unit() -> (t: Type)
    ensures
        t == Type::Unit,
{
    Type::Unit
}

pub fn ty_bool() -> (t: Type)
    ensures
        t == Type::Bool,
{
    Type::Bool
}

pub fn ty_int() -> (t: Type)
    ensures
        t == Type::Int,
{
    Type::Int
}

pub fn ty_float() -> (t: Type)
    ensures
        t == Type::Float,
{
    Type::Float
}

pub fn ty_tuple(types: Vec<Type>) -> (t: Type)
    ensures
        t == Type::Tuple(types),
{
    Type::Tuple(types)
}

pub fn ty_arrow(from: Type, to: Type) -> (t: Type)
    ensures
        t == Type::Arrow(Box::new(from), Box::new(to)),
{
    Type::Arrow(Box::new(from), Box::new(to))
}

pub fn ty_var(name: &str) -> (t: Type)
    ensures
        t@ == TypeV::Var(name@),
{
    Type::Var(name.to_string())
}

pub fn val_def(name: &str, ann: Option<Type>, expr: Expr) -> (d: Def)
    ensures
        d matches Def::ValDef(n, a, e) && n@ == name@ && a == ann && e == expr,
{
    Def::ValDef(name.to_string(), ann, expr)
}

pub fn fun_def(name: &str, params: Vec<(Ident, Type)>, ret_ty: Option<Type>, body: Expr) -> (d: Def)
    ensures
        d matches Def::FunDef(n, ps, r, b) && n@ == name@ && ps == params && r == ret_ty && b
            == body,
{
    Def::FunDef(name.to_string(), params, ret_ty, body)
}

pub fn unit() -> (e: Expr)
    ensures
        e == Expr::Unit,
{
    Expr::Unit
}

pub fn bool(b: bool) -> (e: Expr)
    ensures
        e == Expr::Bool(b),
{
    Expr::Bool(b)
}

pub fn int_lit(n: i64) -> (e: Expr)
    ensures
        e == Expr::Int(n),
{
    Expr::Int(n)
}

/// A float literal given by the bit pattern of its value.
pub fn float(bits: u64) -> (e: Expr)
    ensures
        e == Expr::Float(bits),
{
    Expr::Float(bits)
}

pub fn var(name: &str) -> (e: Expr)
    ensures
        e@ == ExprV::Var(name@),
{
    Expr::Var(name.to_string())
}

pub fn tuple(exprs: Vec<Expr>) -> (e: Expr)
    ensures
        e == Expr::Tuple(exprs),
{
    Expr::Tuple(exprs)
}

pub fn tuple_projection(expr: Expr, index: usize) -> (e: Expr)
    ensures
        e == Expr::TupleProjection(Box::new(expr), index),
{
    Expr::TupleProjection(Box::new(expr), index)
}

pub fn bin_op(op: BinOp, left: Expr, right: Expr) -> (e: Expr)
    ensures
        e == Expr::BinOp(op, Box::new(left), Box::new(right)),
{
    Expr::BinOp(op, Box::new(left), Box::new(right))
}

pub fn unary(op: UnaryOp, expr: Expr) -> (e: Expr)
    ensures
        e == Expr::UnaryOp(op, Box::new(expr)),
{
    Expr::UnaryOp(op, Box::new(expr))
}

pub fn ann(expr: Expr, ty: Type) -> (e: Expr)
    ensures
        e == Expr::Ann(Box::new(expr), ty),
{
    Expr::Ann(Box::new(expr), ty)
}

pub fn if_else(cond: Expr, then_branch: Expr, else_branch: Expr) -> (e: Expr)
    ensures
        e == Expr::If(Box::new(cond), Box::new(then_branch), Box::new(else_branch)),
{
    Expr::If(Box::new(cond), Box::new(then_branch), Box::new(else_branch))
}

pub fn a_let(name: &str, ann: Option<Type>, val: Expr, body: Expr) -> (e: Expr)
    ensures
        e matches Expr::Let(n, a, v, b) && n@ == name@ && a == ann && *v == val && *b == body,
{
    Expr::Let(name.to_string(), ann, Box::new(val), Box::new(body))
}

pub fn let_rec(name: &str, params: Vec<(Ident, Type)>, ret_ty: Type, body: Expr, next: Expr) -> (e:
    Expr)
    ensures
        e matches Expr::LetRec(n, ps, r, fb, b) && n@ == name@ && ps == params && r == ret_ty
            && *fb == body && *b == next,
{
    Expr::LetRec(name.to_string(), params, ret_ty, Box::new(body), Box::new(next))
}

pub fn app(func: Expr, args: Vec<Expr>) -> (e: Expr)
    ensures
        e == Expr::App(Box::new(func), args),
{
    Expr::App(Box::new(func), args)
}

pub fn lambda(params: Vec<(Ident, Type)>, ret_ty: Option<Type>, body: Expr) -> (e: Expr)
    ensures
        e == Expr::Lambda(params, ret_ty, Box::new(body)),
{
    Expr::Lambda(params, ret_ty, Box::new(body))
}

pub fn print_int(expr: Expr) -> (e: Expr)
    ensures
        e == Expr::PrimIO(PrimIO::PrintInt, Some(Box::new(expr))),
{
    Expr::PrimIO(PrimIO::PrintInt, Some(Box::new(expr)))
}

pub fn print_float(expr: Expr) -> (e: Expr)
    ensures
        e == Expr::PrimIO(PrimIO::PrintFloat, Some(Box::new(expr))),
{
    Expr::PrimIO(PrimIO::PrintFloat, Some(Box::new(expr)))
}

pub fn print_bool(expr: Expr) -> (e: Expr)
    ensures
        e == Expr::PrimIO(PrimIO::PrintBool, Some(Box::new(expr))),
{
    Expr::PrimIO(PrimIO::PrintBool, Some(Box::new(expr)))
}

pub fn read_int() -> (e: Expr)
    ensures
        e == Expr::PrimIO(PrimIO::ReadInt, None),
{
    Expr::PrimIO(PrimIO::ReadInt, None)
}

pub fn read_float() -> (e: Expr)
    ensures
        e == Expr::PrimIO(PrimIO::ReadFloat, None),
{
    Expr::PrimIO(PrimIO::ReadFloat, None)
}

} // verus!
