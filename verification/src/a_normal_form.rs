//! Conversion of typed expressions to A-normal form: every operand of an
//! operation is an atom, and intermediate results are bound by `let`.
use vstd::prelude::*;
use crate::gensym::{dollar_name, Gensym};
use crate::syntax::{clone_params, params_model, BinOp, Ident, PrimIO, Type, TypeV, UnaryOp};
use crate::typechecker::{texprs_model, type_of, TExprV, TypedExpr};

verus! {

broadcast use vstd::string::group_string_axioms;

/// Atomic expressions: they end up as immediate operands of instructions.
/// A float literal is held by the bit pattern of its value.
#[derive(Debug, PartialEq)]
pub enum AExpr {
    Unit,
    Bool(bool),
    Int(i64),
    Float(u64),
    Var(Ident, Type),
}

/// Mathematical model of [`AExpr`].
pub enum AExprV {
    Unit,
    Bool(bool),
    Int(i64),
    Float(u64),
    Var(Seq<char>, TypeV),
}

impl View for AExpr {
    type V = AExprV;

    open spec fn view(&self) -> AExprV {
        match self {
            AExpr::Unit => AExprV::Unit,
            AExpr::Bool(b) => AExprV::Bool(*b),
            AExpr::Int(n) => AExprV::Int(*n),
            AExpr::Float(f) => AExprV::Float(*f),
            AExpr::Var(x, t) => AExprV::Var(x@, t@),
        }
    }
}

/// The models of a sequence of atoms.
pub open spec fn aexprs_model(s: Seq<AExpr>) -> Seq<AExprV> {
    Seq::new(s.len(), |i: int| s[i]@)
}

/// Operations whose operands are atoms.
#[derive(Debug, PartialEq)]
pub enum CompExpr {
    Atom(AExpr),
    BinOp(BinOp, AExpr, AExpr),
    Tuple(Vec<AExpr>),
    PrimIO(PrimIO, Option<AExpr>),
    UnaryOp(UnaryOp, AExpr),
    App(AExpr, Vec<AExpr>),
    If(AExpr, Box<AnfExpr>, Box<AnfExpr>),
    Lambda(Vec<(Ident, Type)>, Type, Box<AnfExpr>),
}

/// Expressions in A-normal form: a chain of bindings ending in an operation.
#[derive(Debug, PartialEq)]
pub enum AnfExpr {
    Complex(CompExpr),
    Let(Ident, CompExpr, Box<AnfExpr>),
    LetRec(Ident, Vec<(Ident, Type)>, Type, Box<AnfExpr>, Box<AnfExpr>),
}

/// Mathematical model of [`CompExpr`].
pub enum CompExprV {
    Atom(AExprV),
    BinOp(BinOp, AExprV, AExprV),
    Tuple(Seq<AExprV>),
    PrimIO(PrimIO, Option<AExprV>),
    UnaryOp(UnaryOp, AExprV),
    App(AExprV, Seq<AExprV>),
    If(AExprV, Box<AnfExprV>, Box<AnfExprV>),
    Lambda(Seq<(Seq<char>, TypeV)>, TypeV, Box<AnfExprV>),
}

/// Mathematical model of [`AnfExpr`].
pub enum AnfExprV {
    Complex(CompExprV),
    Let(Seq<char>, CompExprV, Box<AnfExprV>),
    LetRec(Seq<char>, Seq<(Seq<char>, TypeV)>, TypeV, Box<AnfExprV>, Box<AnfExprV>),
}

pub open spec fn comp_model(c: CompExpr) -> CompExprV
    decreases c,
{
    match c {
        CompExpr::Atom(a) => CompExprV::Atom(a@),
        CompExpr::BinOp(op, l, r) => CompExprV::BinOp(op, l@, r@),
        CompExpr::Tuple(es) => CompExprV::Tuple(aexprs_model(es@)),
        CompExpr::PrimIO(p, arg) => CompExprV::PrimIO(
            p,
            match arg {
                Some(a) => Some(a@),
                None => None,
            },
        ),
        CompExpr::UnaryOp(op, a) => CompExprV::UnaryOp(op, a@),
        CompExpr::App(f, args) => CompExprV::App(f@, aexprs_model(args@)),
        CompExpr::If(c, t, e) => CompExprV::If(
            c@,
            Box::new(anf_model(*t)),
            Box::new(anf_model(*e)),
        ),
        CompExpr::Lambda(ps, rt, body) => CompExprV::Lambda(
            params_model(ps@),
            rt@,
            Box::new(anf_model(*body)),
        ),
    }
}

pub open spec fn anf_model(a: AnfExpr) -> AnfExprV
    decreases a,
{
    match a {
        AnfExpr::Complex(c) => AnfExprV::Complex(comp_model(c)),
        AnfExpr::Let(x, c, body) => AnfExprV::Let(x@, comp_model(c), Box::new(anf_model(*body))),
        AnfExpr::LetRec(f, ps, rt, fb, b) => AnfExprV::LetRec(
            f@,
            params_model(ps@),
            rt@,
            Box::new(anf_model(*fb)),
            Box::new(anf_model(*b)),
        ),
    }
}

impl View for CompExpr {
    type V = CompExprV;

    open spec fn view(&self) -> CompExprV {
        comp_model(*self)
    }
}

impl View for AnfExpr {
    type V = AnfExprV;

    open spec fn view(&self) -> AnfExprV {
        anf_model(*self)
    }
}

pub fn a_unit() -> (a: AExpr)
    ensures
        a == AExpr::Unit,
{
    AExpr::Unit
}

pub fn a_bool(b: bool) -> (a: AExpr)
    ensures
        a == AExpr::Bool(b),
{
    AExpr::Bool(b)
}

pub fn a_int(n: i64) -> (a: AExpr)
    ensures
        a == AExpr::Int(n),
{
    AExpr::Int(n)
}

/// A float atom given by the bit pattern of its value.
pub fn a_float(bits: u64) -> (a: AExpr)
    ensures
        a == AExpr::Float(bits),
{
    AExpr::Float(bits)
}

pub fn a_var(name: &str, ty: Type) -> (a: AExpr)
    ensures
        a matches AExpr::Var(n, t) && n@ == name@ && t == ty,
{
    AExpr::Var(name.to_string(), ty)
}

pub fn atom(a: AExpr) -> (c: CompExpr)
    ensures
        c == CompExpr::Atom(a),
{
    CompExpr::Atom(a)
}

pub fn c_bin_op(op: BinOp, left: AExpr, right: AExpr) -> (c: CompExpr)
    ensures
        c == CompExpr::BinOp(op, left, right),
{
    CompExpr::BinOp(op, left, right)
}

pub fn c_tuple(elems: Vec<AExpr>) -> (c: CompExpr)
    ensures
        c == CompExpr::Tuple(elems),
{
    CompExpr::Tuple(elems)
}

pub fn c_prim_io(prim: PrimIO, expr: Option<AExpr>) -> (c: CompExpr)
    ensures
        c == CompExpr::PrimIO(prim, expr),
{
    CompExpr::PrimIO(prim, expr)
}

pub fn c_unary(op: UnaryOp, expr: AExpr) -> (c: CompExpr)
    ensures
        c == CompExpr::UnaryOp(op, expr),
{
    CompExpr::UnaryOp(op, expr)
}

pub fn c_app(func: AExpr, args: Vec<AExpr>) -> (c: CompExpr)
    ensures
        c == CompExpr::App(func, args),
{
    CompExpr::App(func, args)
}

pub fn c_if(cond: AExpr, thn: AnfExpr, els: AnfExpr) -> (c: CompExpr)
    ensures
        c == CompExpr::If(cond, Box::new(thn), Box::new(els)),
{
    CompExpr::If(cond, Box::new(thn), Box::new(els))
}

pub fn c_lambda(params: Vec<(Ident, Type)>, ret_ty: Type, body: AnfExpr) -> (c: CompExpr)
    ensures
        c == CompExpr::Lambda(params, ret_ty, Box::new(body)),
{
    CompExpr::Lambda(params, ret_ty, Box::new(body))
}

pub fn complex(c: CompExpr) -> (a: AnfExpr)
    ensures
        a == AnfExpr::Complex(c),
{
    AnfExpr::Complex(c)
}

pub fn anf_let(name: &str, c: CompExpr, body: AnfExpr) -> (a: AnfExpr)
    ensures
        a matches AnfExpr::Let(n, cc, b) && n@ == name@ && cc == c && *b == body,
{
    AnfExpr::Let(name.to_string(), c, Box::new(body))
}

pub fn anf_let_rec(name: &str, params: Vec<(Ident, Type)>, ret_ty: Type, fbody: AnfExpr, body: AnfExpr) -> (a:
    AnfExpr)
    ensures
        a matches AnfExpr::LetRec(n, ps, r, fb, b) && n@ == name@ && ps == params && r == ret_ty
            && *fb == fbody && *b == body,
{
    AnfExpr::LetRec(name.to_string(), params, ret_ty, Box::new(fbody), Box::new(body))
}

/// A binding waiting to be wrapped around the rest of the computation.
enum Binding {
    Let(Ident, CompExpr),
    LetRec(Ident, Vec<(Ident, Type)>, Type, AnfExpr),
}

/// Mathematical model of a binding.
pub enum BindingV {
    Let(Seq<char>, CompExprV),
    LetRec(Seq<char>, Seq<(Seq<char>, TypeV)>, TypeV, AnfExprV),
}

impl View for Binding {
    type V = BindingV;

    closed spec fn view(&self) -> BindingV {
        match self {
            Binding::Let(x, c) => BindingV::Let(x@, c@),
            Binding::LetRec(f, ps, rt, fb) => BindingV::LetRec(f@, params_model(ps@), rt@, fb@),
        }
    }
}

spec fn bindings_model(bs: Seq<Binding>) -> Seq<BindingV> {
    Seq::new(bs.len(), |i: int| bs[i]@)
}

/// The expression with the bindings wrapped around `tail`, the first binding
/// outermost.
pub open spec fn wrap_bindings(bs: Seq<BindingV>, tail: AnfExprV) -> AnfExprV
    decreases bs.len(),
{
    if bs.len() == 0 {
        tail
    } else {
        let rest = wrap_bindings(bs.drop_first(), tail);
        match bs[0] {
            BindingV::Let(x, c) => AnfExprV::Let(x, c, Box::new(rest)),
            BindingV::LetRec(f, ps, rt, fb) => AnfExprV::LetRec(f, ps, rt, Box::new(fb), Box::new(rest)),
        }
    }
}

/// A fresh temporary can be drawn at counter `n` without overflow.
pub open spec fn can_draw_temp(n: nat) -> bool {
    n < u64::MAX
}

/// The operation `e` reduces to, with the bindings it needs (in order) and
/// the counter afterwards; `None` where a temporary would overflow the counter.
pub open spec fn collect_spec(n: nat, e: TExprV) -> Option<(nat, Seq<BindingV>, CompExprV)>
    decreases e, 0nat,
{
    match e {
        TExprV::Unit => Some((n, Seq::empty(), CompExprV::Atom(AExprV::Unit))),
        TExprV::Bool(b) => Some((n, Seq::empty(), CompExprV::Atom(AExprV::Bool(b)))),
        TExprV::Int(i) => Some((n, Seq::empty(), CompExprV::Atom(AExprV::Int(i)))),
        TExprV::Float(f) => Some((n, Seq::empty(), CompExprV::Atom(AExprV::Float(f)))),
        TExprV::Var(x, t) => Some((n, Seq::empty(), CompExprV::Atom(AExprV::Var(x, t)))),
        TExprV::Tuple(es, _) => match to_atoms_spec(n, es) {
            Some((n1, bs, atoms)) => Some((n1, bs, CompExprV::Tuple(atoms))),
            None => None,
        },
        TExprV::TupleProjection(..) => None,
        TExprV::PrimIO(p, arg, _) => match arg {
            Some(x) => match to_atom_spec(n, *x) {
                Some((n1, bs, a)) => Some((n1, bs, CompExprV::PrimIO(p, Some(a)))),
                None => None,
            },
            None => Some((n, Seq::empty(), CompExprV::PrimIO(p, None))),
        },
        TExprV::BinOp(op, l, r, _) => match to_atom_spec(n, *l) {
            Some((n1, bs1, la)) => match to_atom_spec(n1, *r) {
                Some((n2, bs2, ra)) => Some((n2, bs1 + bs2, CompExprV::BinOp(op, la, ra))),
                None => None,
            },
            None => None,
        },
        TExprV::UnaryOp(op, x, _) => match to_atom_spec(n, *x) {
            Some((n1, bs, a)) => Some((n1, bs, CompExprV::UnaryOp(op, a))),
            None => None,
        },
        TExprV::Ann(x, _) => collect_spec(n, *x),
        TExprV::If(c, a, b, _) => match to_atom_spec(n, *c) {
            Some((n1, bs, ca)) => match normalize_spec(n1, *a) {
                Some((n2, ta)) => match normalize_spec(n2, *b) {
                    Some((n3, tb)) => Some(
                        (n3, bs, CompExprV::If(ca, Box::new(ta), Box::new(tb))),
                    ),
                    None => None,
                },
                None => None,
            },
            None => None,
        },
        TExprV::App(f, args, _) => match to_atom_spec(n, *f) {
            Some((n1, bs1, fa)) => match to_atoms_spec(n1, args) {
                Some((n2, bs2, atoms)) => Some((n2, bs1 + bs2, CompExprV::App(fa, atoms))),
                None => None,
            },
            None => None,
        },
        TExprV::Lambda(ps, rt, body, _) => match normalize_spec(n, *body) {
            Some((n1, tb)) => Some((n1, Seq::empty(), CompExprV::Lambda(ps, rt, Box::new(tb)))),
            None => None,
        },
        TExprV::Let(x, _, rhs, body, _) => match collect_spec(n, *rhs) {
            Some((n1, bs1, c1)) => match collect_spec(n1, *body) {
                Some((n2, bs2, c2)) => Some((n2, bs1 + seq![BindingV::Let(x, c1)] + bs2, c2)),
                None => None,
            },
            None => None,
        },
        TExprV::LetRec(f, ps, rt, fb, b, _) => match normalize_spec(n, *fb) {
            Some((n1, tfb)) => match collect_spec(n1, *b) {
                Some((n2, bs2, c2)) => Some(
                    (n2, seq![BindingV::LetRec(f, ps, rt, tfb)] + bs2, c2),
                ),
                None => None,
            },
            None => None,
        },
    }
}

/// The atom standing for `e`: a literal or variable as it is, the atom an
/// operation reduces to, or a fresh temporary `$n` bound to the operation.
pub open spec fn to_atom_spec(n: nat, e: TExprV) -> Option<(nat, Seq<BindingV>, AExprV)>
    decreases e, 1nat,
{
    match e {
        TExprV::Unit => Some((n, Seq::empty(), AExprV::Unit)),
        TExprV::Bool(b) => Some((n, Seq::empty(), AExprV::Bool(b))),
        TExprV::Int(i) => Some((n, Seq::empty(), AExprV::Int(i))),
        TExprV::Float(f) => Some((n, Seq::empty(), AExprV::Float(f))),
        TExprV::Var(x, t) => Some((n, Seq::empty(), AExprV::Var(x, t))),
        _ => match collect_spec(n, e) {
            Some((n1, bs, c)) => match c {
                CompExprV::Atom(a) => Some((n1, bs, a)),
                _ => if can_draw_temp(n1) {
                    let name = dollar_name(Seq::empty(), n1);
                    Some((n1 + 1, bs + seq![BindingV::Let(name, c)], AExprV::Var(name, type_of(e))))
                } else {
                    None
                },
            },
            None => None,
        },
    }
}

/// Atoms for a list of expressions, left to right.
pub open spec fn to_atoms_spec(n: nat, es: Seq<TExprV>) -> Option<(nat, Seq<BindingV>, Seq<AExprV>)>
    decreases es, 0nat,
{
    if es.len() == 0 {
        Some((n, Seq::empty(), Seq::empty()))
    } else {
        match to_atom_spec(n, es[0]) {
            Some((n1, bs1, a)) => match to_atoms_spec(n1, es.subrange(1, es.len() as int)) {
                Some((n2, bs2, rest)) => Some((n2, bs1 + bs2, seq![a] + rest)),
                None => None,
            },
            None => None,
        }
    }
}

/// The A-normal form of `e`: its bindings wrapped around its operation.
pub open spec fn normalize_spec(n: nat, e: TExprV) -> Option<(nat, AnfExprV)>
    decreases e, 1nat,
{
    match collect_spec(n, e) {
        Some((n1, bs, c)) => Some((n1, wrap_bindings(bs, AnfExprV::Complex(c)))),
        None => None,
    }
}

/// `b` is a `let` of the temporary `$k`.
pub open spec fn binds_temp(b: BindingV, k: nat) -> bool {
    b is Let && b->Let_0 == dollar_name(Seq::empty(), k)
}

/// Every temporary `$k` that `bs` binds has `lo <= k < hi`, and the
/// temporaries come in strictly increasing order, so none is bound twice.
pub open spec fn temps_in_order(bs: Seq<BindingV>, lo: nat, hi: nat) -> bool {
    &&& forall|i: int, k: nat| 0 <= i < bs.len() && #[trigger] binds_temp(bs[i], k) ==> lo <= k < hi
    &&& forall|i: int, j: int, k1: nat, k2: nat|
        0 <= i < j < bs.len() && #[trigger] binds_temp(bs[i], k1) && #[trigger] binds_temp(bs[j], k2)
            ==> k1 < k2
}

/// No `let` in `e` binds a name of the form `$k`.
pub open spec fn binds_no_temp(e: TExprV) -> bool
    decreases e, 1nat,
{
    match e {
        TExprV::BinOp(_, l, r, _) => binds_no_temp(*l) && binds_no_temp(*r),
        TExprV::Tuple(es, _) => all_bind_no_temp(es),
        TExprV::TupleProjection(x, _, _) => binds_no_temp(*x),
        TExprV::PrimIO(_, arg, _) => match arg {
            Some(x) => binds_no_temp(*x),
            None => true,
        },
        TExprV::UnaryOp(_, x, _) => binds_no_temp(*x),
        TExprV::Ann(x, _) => binds_no_temp(*x),
        TExprV::If(c, a, b, _) => binds_no_temp(*c) && binds_no_temp(*a) && binds_no_temp(*b),
        TExprV::Let(x, _, rhs, body, _) => (forall|k: nat| x != #[trigger] dollar_name(Seq::empty(), k))
            && binds_no_temp(*rhs) && binds_no_temp(*body),
        TExprV::LetRec(_, _, _, fb, b, _) => binds_no_temp(*fb) && binds_no_temp(*b),
        TExprV::App(f, args, _) => binds_no_temp(*f) && all_bind_no_temp(args),
        TExprV::Lambda(_, _, body, _) => binds_no_temp(*body),
        _ => true,
    }
}

/// No `let` in any of `es` binds a name of the form `$k`.
pub open spec fn all_bind_no_temp(es: Seq<TExprV>) -> bool
    decreases es, 0nat,
{
    if es.len() == 0 {
        true
    } else {
        binds_no_temp(es[0]) && all_bind_no_temp(es.subrange(1, es.len() as int))
    }
}

proof fn lemma_temps_concat(b1: Seq<BindingV>, b2: Seq<BindingV>, lo: nat, mid: nat, hi: nat)
    requires
        temps_in_order(b1, lo, mid),
        temps_in_order(b2, mid, hi),
        lo <= mid <= hi,
    ensures
        temps_in_order(b1 + b2, lo, hi),
{
    let s = b1 + b2;
    assert forall|i: int, k: nat| 0 <= i < s.len() && #[trigger] binds_temp(s[i], k) implies lo <= k < hi by {
        if i < b1.len() {
            assert(s[i] == b1[i]);
        } else {
            assert(s[i] == b2[i - b1.len()]);
        }
    }
    assert forall|i: int, j: int, k1: nat, k2: nat|
        0 <= i < j < s.len() && #[trigger] binds_temp(s[i], k1) && #[trigger] binds_temp(s[j], k2)
        implies k1 < k2 by {
        if j < b1.len() {
            assert(s[i] == b1[i]);
            assert(s[j] == b1[j]);
        } else if i >= b1.len() {
            assert(s[i] == b2[i - b1.len()]);
            assert(s[j] == b2[j - b1.len()]);
        } else {
            assert(s[i] == b1[i]);
            assert(s[j] == b2[j - b1.len()]);
            assert(binds_temp(b1[i], k1));
            assert(binds_temp(b2[j - b1.len()], k2));
        }
    }
}

proof fn lemma_temps_widen(bs: Seq<BindingV>, lo: nat, hi: nat, lo2: nat, hi2: nat)
    requires
        temps_in_order(bs, lo, hi),
        lo2 <= lo,
        hi <= hi2,
    ensures
        temps_in_order(bs, lo2, hi2),
{
}

/// The conversion of `e` draws its temporaries from the counter upwards: the
/// counter never goes down, and the `let`s it collects bind each temporary
/// `$k` it drew once, in increasing order, with `k` between the counter
/// before and after; provided no `let` of `e` itself binds such a name.
pub proof fn lemma_collect_temps(n: nat, e: TExprV)
    requires
        binds_no_temp(e),
        collect_spec(n, e) is Some,
    ensures
        collect_spec(n, e) matches Some((n1, bs, _)) && n <= n1 && temps_in_order(bs, n, n1),
    decreases e, 0nat,
{
    match e {
        TExprV::Tuple(es, _) => {
            lemma_to_atoms_temps(n, es);
        },
        TExprV::PrimIO(_, arg, _) => {
            if let Some(x) = arg {
                lemma_to_atom_temps(n, *x);
            }
        },
        TExprV::BinOp(_, l, r, _) => {
            lemma_to_atom_temps(n, *l);
            let (n1, bs1, _) = to_atom_spec(n, *l).unwrap();
            lemma_to_atom_temps(n1, *r);
            let (n2, bs2, _) = to_atom_spec(n1, *r).unwrap();
            lemma_temps_concat(bs1, bs2, n, n1, n2);
        },
        TExprV::UnaryOp(_, x, _) => {
            lemma_to_atom_temps(n, *x);
        },
        TExprV::Ann(x, _) => {
            lemma_collect_temps(n, *x);
        },
        TExprV::If(c, a, b, _) => {
            lemma_to_atom_temps(n, *c);
            let (n1, bs, _) = to_atom_spec(n, *c).unwrap();
            lemma_normalize_temps(n1, *a);
            let (n2, _) = normalize_spec(n1, *a).unwrap();
            lemma_normalize_temps(n2, *b);
            let (n3, _) = normalize_spec(n2, *b).unwrap();
            lemma_temps_widen(bs, n, n1, n, n3);
        },
        TExprV::App(f, args, _) => {
            lemma_to_atom_temps(n, *f);
            let (n1, bs1, _) = to_atom_spec(n, *f).unwrap();
            lemma_to_atoms_temps(n1, args);
            let (n2, bs2, _) = to_atoms_spec(n1, args).unwrap();
            lemma_temps_concat(bs1, bs2, n, n1, n2);
        },
        TExprV::Lambda(_, _, body, _) => {
            lemma_normalize_temps(n, *body);
        },
        TExprV::Let(x, _, rhs, body, _) => {
            lemma_collect_temps(n, *rhs);
            let (n1, bs1, c1) = collect_spec(n, *rhs).unwrap();
            lemma_collect_temps(n1, *body);
            let (n2, bs2, _) = collect_spec(n1, *body).unwrap();
            let mid = seq![BindingV::Let(x, c1)];
            assert forall|i: int, k: nat| 0 <= i < mid.len() && #[trigger] binds_temp(mid[i], k)
                implies n1 <= k < n1 by {
                assert(x != dollar_name(Seq::empty(), k));
            }
            lemma_temps_concat(bs1, mid, n, n1, n1);
            lemma_temps_concat(bs1 + mid, bs2, n, n1, n2);
        },
        TExprV::LetRec(f, ps, rt, fb, b, _) => {
            lemma_normalize_temps(n, *fb);
            let (n1, tfb) = normalize_spec(n, *fb).unwrap();
            lemma_collect_temps(n1, *b);
            let (n2, bs2, _) = collect_spec(n1, *b).unwrap();
            let first = seq![BindingV::LetRec(f, ps, rt, tfb)];
            lemma_temps_concat(first, bs2, n, n1, n2);
        },
        _ => {},
    }
}

/// [`lemma_collect_temps`] for the atom of an expression.
pub proof fn lemma_to_atom_temps(n: nat, e: TExprV)
    requires
        binds_no_temp(e),
        to_atom_spec(n, e) is Some,
    ensures
        to_atom_spec(n, e) matches Some((n1, bs, _)) && n <= n1 && temps_in_order(bs, n, n1),
    decreases e, 1nat,
{
    match e {
        TExprV::Unit | TExprV::Bool(_) | TExprV::Int(_) | TExprV::Float(_) | TExprV::Var(..) => {},
        _ => {
            lemma_collect_temps(n, e);
            let (n1, bs, c) = collect_spec(n, e).unwrap();
            if !(c is Atom) {
                let last = seq![BindingV::Let(dollar_name(Seq::empty(), n1), c)];
                assert forall|i: int, k: nat| 0 <= i < last.len() && #[trigger] binds_temp(last[i], k)
                    implies n1 <= k < n1 + 1 by {
                    crate::gensym::lemma_dollar_name_injective(Seq::empty(), k, n1);
                }
                lemma_temps_concat(bs, last, n, n1, n1 + 1);
            }
        },
    }
}

/// [`lemma_collect_temps`] for the atoms of a list of expressions.
pub proof fn lemma_to_atoms_temps(n: nat, es: Seq<TExprV>)
    requires
        all_bind_no_temp(es),
        to_atoms_spec(n, es) is Some,
    ensures
        to_atoms_spec(n, es) matches Some((n1, bs, _)) && n <= n1 && temps_in_order(bs, n, n1),
    decreases es, 0nat,
{
    if es.len() > 0 {
        lemma_to_atom_temps(n, es[0]);
        let (n1, bs1, _) = to_atom_spec(n, es[0]).unwrap();
        let rest = es.subrange(1, es.len() as int);
        lemma_to_atoms_temps(n1, rest);
        let (n2, bs2, _) = to_atoms_spec(n1, rest).unwrap();
        lemma_temps_concat(bs1, bs2, n, n1, n2);
    }
}

/// The counter never goes down in the normal form of an expression.
pub proof fn lemma_normalize_temps(n: nat, e: TExprV)
    requires
        binds_no_temp(e),
        normalize_spec(n, e) is Some,
    ensures
        normalize_spec(n, e) matches Some((n1, _)) && n <= n1,
    decreases e, 1nat,
{
    lemma_collect_temps(n, e);
}

/// Wrapping bindings `s` followed by `b` is wrapping `s` around the
/// expression `b` wraps.
proof fn lemma_wrap_snoc(s: Seq<BindingV>, b: BindingV, t: AnfExprV)
    ensures
        wrap_bindings(s.push(b), t) == wrap_bindings(s, wrap_bindings(seq![b], t)),
    decreases s.len(),
{
    if s.len() > 0 {
        assert(s.push(b).drop_first() =~= s.drop_first().push(b));
        lemma_wrap_snoc(s.drop_first(), b, t);
    } else {
        assert(s.push(b) =~= seq![b]);
    }
}

/// Wraps the bindings around `tail`, the first binding outermost.
fn bindings_to_lets(bindings: Vec<Binding>, tail: AnfExpr) -> (r: AnfExpr)
    ensures
        r@ == wrap_bindings(bindings_model(bindings@), tail@),
{
    let ghost all = bindings_model(bindings@);
    let mut rest = bindings;
    let mut acc = tail;
    assert(bindings_model(rest@) =~= all);
    assert(wrap_bindings(Seq::<BindingV>::empty(), acc@) == acc@);
    while rest.len() > 0
        invariant
            wrap_bindings(all, tail@) == wrap_bindings(bindings_model(rest@), acc@),
        decreases rest.len(),
    {
        let ghost before = bindings_model(rest@);
        let b = rest.pop().unwrap();
        let ghost bv = b@;
        let ghost old_acc = acc@;
        proof {
            assert(before =~= bindings_model(rest@).push(bv));
            lemma_wrap_snoc(bindings_model(rest@), bv, old_acc);
            assert(seq![bv].drop_first() =~= Seq::<BindingV>::empty());
            assert(seq![bv][0] == bv);
        }
        acc = match b {
            Binding::Let(name, c) => AnfExpr::Let(name, c, Box::new(acc)),
            Binding::LetRec(fname, fparams, fty, fbody) => AnfExpr::LetRec(
                fname,
                fparams,
                fty,
                Box::new(fbody),
                Box::new(acc),
            ),
        };
        assert(wrap_bindings(seq![bv].drop_first(), old_acc) == old_acc);
        assert(acc@ == wrap_bindings(seq![bv], old_acc));
    }
    proof {
        assert(bindings_model(rest@) =~= Seq::<BindingV>::empty());
    }
    acc
}

/// The atom standing for `expr`; the bindings it needs are appended.
fn to_atom(expr: TypedExpr, gs: &mut Gensym, bindings: &mut Vec<Binding>) -> (a: AExpr)
    requires
        to_atom_spec(old(gs)@, expr@) is Some,
    ensures
        to_atom_spec(old(gs)@, expr@) matches Some((n1, bs, a0)) && final(gs)@ == n1
            && bindings_model(final(bindings)@) == bindings_model(old(bindings)@) + bs && a@ == a0,
    decreases expr, 3nat,
{
    let ghost b0 = bindings_model(bindings@);
    match expr {
        TypedExpr::Unit => {
            assert(bindings_model(bindings@) =~= b0 + Seq::<BindingV>::empty());
            AExpr::Unit
        },
        TypedExpr::Bool(b) => {
            assert(bindings_model(bindings@) =~= b0 + Seq::<BindingV>::empty());
            AExpr::Bool(b)
        },
        TypedExpr::Int(i) => {
            assert(bindings_model(bindings@) =~= b0 + Seq::<BindingV>::empty());
            AExpr::Int(i)
        },
        TypedExpr::Float(f) => {
            assert(bindings_model(bindings@) =~= b0 + Seq::<BindingV>::empty());
            AExpr::Float(f)
        },
        TypedExpr::Var(name, ty) => {
            assert(bindings_model(bindings@) =~= b0 + Seq::<BindingV>::empty());
            AExpr::Var(name, ty)
        },
        _ => {
            let ty = expr.type_of();
            let c = collect_bindings(expr, gs, bindings);
            if let CompExpr::Atom(a) = c {
                return a;
            }
            let name = gs.fresh();
            let ghost mid = bindings_model(bindings@);
            bindings.push(Binding::Let(name.clone(), c));
            assert(bindings_model(bindings@) =~= mid.push(bindings@.last()@));
            AExpr::Var(name, ty)
        },
    }
}

/// The operation `expr` reduces to; the bindings it needs are appended.
fn collect_bindings(expr: TypedExpr, gs: &mut Gensym, bindings: &mut Vec<Binding>) -> (c: CompExpr)
    requires
        collect_spec(old(gs)@, expr@) is Some,
    ensures
        collect_spec(old(gs)@, expr@) matches Some((n1, bs, c0)) && final(gs)@ == n1
            && bindings_model(final(bindings)@) == bindings_model(old(bindings)@) + bs && c@ == c0,
    decreases expr, 2nat,
{
    let ghost b0 = bindings_model(bindings@);
    match expr {
        TypedExpr::Unit => {
            assert(bindings_model(bindings@) =~= b0 + Seq::<BindingV>::empty());
            CompExpr::Atom(AExpr::Unit)
        },
        TypedExpr::Bool(b) => {
            assert(bindings_model(bindings@) =~= b0 + Seq::<BindingV>::empty());
            CompExpr::Atom(AExpr::Bool(b))
        },
        TypedExpr::Int(i) => {
            assert(bindings_model(bindings@) =~= b0 + Seq::<BindingV>::empty());
            CompExpr::Atom(AExpr::Int(i))
        },
        TypedExpr::Float(f) => {
            assert(bindings_model(bindings@) =~= b0 + Seq::<BindingV>::empty());
            CompExpr::Atom(AExpr::Float(f))
        },
        TypedExpr::Var(name, ty) => {
            assert(bindings_model(bindings@) =~= b0 + Seq::<BindingV>::empty());
            CompExpr::Atom(AExpr::Var(name, ty))
        },
        TypedExpr::Ann(inner, _) => collect_bindings(*inner, gs, bindings),
        TypedExpr::Tuple(..) => collect_tuple(expr, gs, bindings),
        TypedExpr::App(..) => collect_app(expr, gs, bindings),
        TypedExpr::TupleProjection(..) => {
            assert(false);
            CompExpr::Atom(AExpr::Unit)
        },
        _ => collect_compound(expr, gs, bindings),
    }
}

fn collect_compound(expr: TypedExpr, gs: &mut Gensym, bindings: &mut Vec<Binding>) -> (c: CompExpr)
    requires
        expr is PrimIO || expr is BinOp || expr is UnaryOp || expr is If || expr is Lambda
            || expr is Let || expr is LetRec,
        collect_spec(old(gs)@, expr@) is Some,
    ensures
        collect_spec(old(gs)@, expr@) matches Some((n1, bs, c0)) && final(gs)@ == n1
            && bindings_model(final(bindings)@) == bindings_model(old(bindings)@) + bs && c@ == c0,
    decreases expr, 1nat,
{
    let ghost b0 = bindings_model(bindings@);
    match expr {
        TypedExpr::PrimIO(prim_io, arg, _) => match arg {
            Some(inner) => {
                let a = to_atom(*inner, gs, bindings);
                CompExpr::PrimIO(prim_io, Some(a))
            },
            None => {
                assert(bindings_model(bindings@) =~= b0 + Seq::<BindingV>::empty());
                CompExpr::PrimIO(prim_io, None)
            },
        },
        TypedExpr::BinOp(op, left, right, _) => {
            let left_atom = to_atom(*left, gs, bindings);
            let ghost b1 = bindings_model(bindings@);
            let right_atom = to_atom(*right, gs, bindings);
            proof {
                let bs1 = b1.subrange(b0.len() as int, b1.len() as int);
                assert(b1 =~= b0 + bs1);
                let b2 = bindings_model(bindings@);
                assert(b2 =~= b0 + (bs1 + b2.subrange(b1.len() as int, b2.len() as int)));
            }
            CompExpr::BinOp(op, left_atom, right_atom)
        },
        TypedExpr::UnaryOp(op, operand, _) => {
            let a = to_atom(*operand, gs, bindings);
            CompExpr::UnaryOp(op, a)
        },
        TypedExpr::If(cond, thn, els, _) => {
            let cond_atom = to_atom(*cond, gs, bindings);
            let then_anf = normalize(*thn, gs);
            let else_anf = normalize(*els, gs);
            CompExpr::If(cond_atom, Box::new(then_anf), Box::new(else_anf))
        },
        TypedExpr::Lambda(params, ret_ty, body, _) => {
            let body_anf = normalize(*body, gs);
            assert(bindings_model(bindings@) =~= b0 + Seq::<BindingV>::empty());
            CompExpr::Lambda(params, ret_ty, Box::new(body_anf))
        },
        TypedExpr::Let(name, _, rhs, body, _) => {
            let rhs_comp = collect_bindings(*rhs, gs, bindings);
            let ghost b1 = bindings_model(bindings@);
            bindings.push(Binding::Let(name, rhs_comp));
            let ghost b2 = bindings_model(bindings@);
            assert(b2 =~= b1.push(bindings@.last()@));
            let c = collect_bindings(*body, gs, bindings);
            proof {
                let bs1 = b1.subrange(b0.len() as int, b1.len() as int);
                assert(b1 =~= b0 + bs1);
                let b3 = bindings_model(bindings@);
                let bs2 = b3.subrange(b2.len() as int, b3.len() as int);
                assert(b3 =~= b2 + bs2);
                assert(b3 =~= b0 + (bs1 + seq![b2.last()] + bs2));
            }
            c
        },
        TypedExpr::LetRec(fname, fparams, fty, fbody, body, _) => {
            let fbody_anf = normalize(*fbody, gs);
            let ghost b1 = bindings_model(bindings@);
            bindings.push(Binding::LetRec(fname, fparams, fty, fbody_anf));
            let ghost b2 = bindings_model(bindings@);
            assert(b2 =~= b1.push(bindings@.last()@));
            let c = collect_bindings(*body, gs, bindings);
            proof {
                let b3 = bindings_model(bindings@);
                let bs2 = b3.subrange(b2.len() as int, b3.len() as int);
                assert(b3 =~= b2 + bs2);
                assert(b3 =~= b0 + (seq![b2.last()] + bs2));
            }
            c
        },
        _ => {
            assert(false);
            CompExpr::Atom(AExpr::Unit)
        },
    }
}

#[verifier::loop_isolation(false)]
fn collect_tuple(expr: TypedExpr, gs: &mut Gensym, bindings: &mut Vec<Binding>) -> (c: CompExpr)
    requires
        expr is Tuple,
        collect_spec(old(gs)@, expr@) is Some,
    ensures
        collect_spec(old(gs)@, expr@) matches Some((n1, bs, c0)) && final(gs)@ == n1
            && bindings_model(final(bindings)@) == bindings_model(old(bindings)@) + bs && c@ == c0,
    decreases expr, 1nat,
{
    let ghost ev = expr@;
    let ghost orig = expr;
    let ghost b0 = bindings_model(bindings@);
    let ghost n0 = gs@;
    match expr {
        TypedExpr::Tuple(typed_exprs, _) => {
            proof {
                assert forall|j: int| 0 <= j < typed_exprs.len() implies decreases_to!(
                    orig => typed_exprs@[j]
                ) by {
                    assert(decreases_to!(orig => typed_exprs));
                    assert(decreases_to!(typed_exprs => typed_exprs[j]));
                }
            }
            let ghost esv = texprs_model(typed_exprs@);
            let ghost len = typed_exprs.len();
            assert(ev->Tuple_0 =~= esv);
            let atoms = to_atoms(typed_exprs, gs, bindings, Ghost(orig));
            CompExpr::Tuple(atoms)
        },
        _ => {
            assert(false);
            CompExpr::Atom(AExpr::Unit)
        },
    }
}

#[verifier::loop_isolation(false)]
fn collect_app(expr: TypedExpr, gs: &mut Gensym, bindings: &mut Vec<Binding>) -> (c: CompExpr)
    requires
        expr is App,
        collect_spec(old(gs)@, expr@) is Some,
    ensures
        collect_spec(old(gs)@, expr@) matches Some((n1, bs, c0)) && final(gs)@ == n1
            && bindings_model(final(bindings)@) == bindings_model(old(bindings)@) + bs && c@ == c0,
    decreases expr, 1nat,
{
    let ghost ev = expr@;
    let ghost orig = expr;
    let ghost b0 = bindings_model(bindings@);
    match expr {
        TypedExpr::App(func, args, _) => {
            proof {
                assert forall|j: int| 0 <= j < args.len() implies decreases_to!(
                    orig => args@[j]
                ) by {
                    assert(decreases_to!(orig => args));
                    assert(decreases_to!(args => args[j]));
                }
            }
            assert(ev->App_1 =~= texprs_model(args@));
            let func_atom = to_atom(*func, gs, bindings);
            let ghost b1 = bindings_model(bindings@);
            let atoms = to_atoms(args, gs, bindings, Ghost(orig));
            proof {
                let bs1 = b1.subrange(b0.len() as int, b1.len() as int);
                assert(b1 =~= b0 + bs1);
                let b2 = bindings_model(bindings@);
                assert(b2 =~= b0 + (bs1 + b2.subrange(b1.len() as int, b2.len() as int)));
            }
            CompExpr::App(func_atom, atoms)
        },
        _ => {
            assert(false);
            CompExpr::Atom(AExpr::Unit)
        },
    }
}

/// Atoms for the expressions, left to right; the bindings they need are appended.
#[verifier::loop_isolation(false)]
fn to_atoms(exprs: Vec<TypedExpr>, gs: &mut Gensym, bindings: &mut Vec<Binding>, Ghost(orig): Ghost<TypedExpr>) -> (atoms: Vec<AExpr>)
    requires
        forall|j: int| 0 <= j < exprs.len() ==> decreases_to!(orig => exprs@[j]),
        to_atoms_spec(old(gs)@, texprs_model(exprs@)) is Some,
    ensures
        to_atoms_spec(old(gs)@, texprs_model(exprs@)) matches Some((n1, bs, a0)) && final(gs)@ == n1
            && bindings_model(final(bindings)@) == bindings_model(old(bindings)@) + bs
            && aexprs_model(atoms@) == a0,
    decreases orig, 0nat,
{
    let ghost esv = texprs_model(exprs@);
    let ghost len = exprs.len();
    let ghost n0 = gs@;
    let ghost b0 = bindings_model(bindings@);
    let ghost mut bs_done: Seq<BindingV> = Seq::empty();
    let mut rest = exprs;
    let mut out: Vec<AExpr> = Vec::new();
    proof {
        assert(esv.subrange(0, len as int) =~= esv);
        assert(bindings_model(bindings@) =~= b0 + bs_done);
        match to_atoms_spec(n0, esv) {
            Some((n1, bs1, a1)) => {
                assert(bs_done + bs1 =~= bs1);
                assert(aexprs_model(out@) + a1 =~= a1);
            },
            None => {},
        }
    }
    while rest.len() > 0
        invariant
            out.len() + rest.len() == len,
            esv.len() == len,
            forall|j: int| 0 <= j < rest.len() ==> decreases_to!(orig => rest@[j]),
            texprs_model(rest@) == esv.subrange(out.len() as int, len as int),
            bindings_model(bindings@) == b0 + bs_done,
            to_atoms_spec(gs@, esv.subrange(out.len() as int, len as int)) is Some,
            to_atoms_spec(n0, esv) == match to_atoms_spec(
                gs@,
                esv.subrange(out.len() as int, len as int),
            ) {
                Some((n1, bs1, a1)) => Some((n1, bs_done + bs1, aexprs_model(out@) + a1)),
                None => None,
            },
        decreases rest.len(),
    {
        let ghost i = out.len() as int;
        let ghost tail = esv.subrange(i, len as int);
        assert(tail.subrange(1, tail.len() as int) =~= esv.subrange(i + 1, len as int));
        assert(tail[0] == rest@[0]@);
        let ghost rest_before = rest@;
        let e = rest.remove(0);
        assert(decreases_to!(orig => e)) by {
            assert(e == rest_before[0]);
        }
        assert forall|j: int| 0 <= j < rest.len() implies decreases_to!(orig => rest@[j]) by {
            assert(rest@[j] == rest_before[j + 1]);
        }
        assert(texprs_model(rest@) =~= esv.subrange(i + 1, len as int)) by {
            assert forall|j: int| 0 <= j < rest@.len() implies texprs_model(rest@)[j]
                == esv.subrange(i + 1, len as int)[j] by {
                assert(rest@[j] == rest_before[j + 1]);
                assert(texprs_model(rest_before)[j + 1] == tail[j + 1]);
            }
        }
        let ghost bm_before = bindings_model(bindings@);
        let a = to_atom(e, gs, bindings);
        let ghost out_before = out@;
        out.push(a);
        proof {
            let bm_after = bindings_model(bindings@);
            let new_bs = bm_after.subrange(bm_before.len() as int, bm_after.len() as int);
            assert(bm_after =~= bm_before + new_bs);
            let old_done = bs_done;
            bs_done = bs_done + new_bs;
            assert(bm_after =~= b0 + bs_done);
            assert(aexprs_model(out@) =~= aexprs_model(out_before) + seq![out@[i]@]);
            match to_atoms_spec(gs@, esv.subrange(i + 1, len as int)) {
                Some((n1, bs1, a1)) => {
                    assert(bs_done + bs1 =~= old_done + (new_bs + bs1));
                    assert(aexprs_model(out@) + a1 =~= aexprs_model(out_before) + (seq![
                        out@[i]@,
                    ] + a1));
                },
                None => {},
            }
        }
    }
    proof {
        assert(esv.subrange(len as int, len as int) =~= Seq::<TExprV>::empty());
        assert(bs_done + Seq::<BindingV>::empty() =~= bs_done);
        assert(aexprs_model(out@) + Seq::<AExprV>::empty() =~= aexprs_model(out@));
    }
    out
}

/// The A-normal form of `expr`.
fn normalize(expr: TypedExpr, gs: &mut Gensym) -> (r: AnfExpr)
    requires
        normalize_spec(old(gs)@, expr@) is Some,
    ensures
        normalize_spec(old(gs)@, expr@) == Some((final(gs)@, r@)),
    decreases expr, 3nat,
{
    let mut bindings: Vec<Binding> = Vec::new();
    assert(bindings_model(bindings@) =~= Seq::<BindingV>::empty());
    let c_expr = collect_bindings(expr, gs, &mut bindings);
    assert(bindings_model(bindings@) =~= Seq::<BindingV>::empty() + bindings_model(bindings@));
    let tail = AnfExpr::Complex(c_expr);
    bindings_to_lets(bindings, tail)
}

/// Converts a typed expression to A-normal form, numbering temporaries `$0`,
/// `$1`, ... in the order they are introduced.
pub fn anf_convert(expr: TypedExpr) -> (r: AnfExpr)
    requires
        normalize_spec(0, expr@) is Some,
    ensures
        normalize_spec(0, expr@) matches Some((_, a)) && r@ == a,
{
    let mut gs = Gensym::new();
    normalize(expr, &mut gs)
}

} // verus!
