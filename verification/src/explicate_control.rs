//! Explication of control flow: A-normal form becomes a tail of statements,
//! conditionals and returns.
use vstd::prelude::*;
use crate::a_normal_form::{aexprs_model, AExpr, AExprV, AnfExpr, AnfExprV, CompExpr, CompExprV};
use crate::syntax::{BinOp, Ident, Type, TypeV, UnaryOp};
use crate::typechecker::{applies_to, binop_typing};

verus! {

broadcast use vstd::string::group_string_axioms;

/// Atoms of the control language.  A float literal is held by the bit
/// pattern of its value.
#[derive(Debug, PartialEq)]
pub enum CAtom {
    Unit,
    Bool(bool),
    Int(i64),
    Float(u64),
    Var(Ident, Type),
}

/// Right-hand sides of assignments.
#[derive(Debug, PartialEq)]
pub enum CExpr {
    Atom(CAtom),
    BinOp(BinOp, CAtom, CAtom),
    UnaryOp(UnaryOp, CAtom),
    /// A call that is not in tail position.
    Call(CAtom, Vec<CAtom>),
}

/// Statements.
#[derive(Debug, PartialEq)]
pub enum CStmt {
    Assign(Ident, CExpr, Type),
}

/// Tails: what a block does, ending in a return or a tail call.
#[derive(Debug, PartialEq)]
pub enum CTail {
    Return(CExpr),
    TailCall(CAtom, Vec<CAtom>),
    Sequence(CStmt, Box<CTail>),
    If(CAtom, Box<CTail>, Box<CTail>),
}

/// Mathematical model of an atom: atoms of both languages share it.
pub type CAtomV = AExprV;

/// Mathematical model of [`CExpr`].
pub enum CExprV {
    Atom(CAtomV),
    BinOp(BinOp, CAtomV, CAtomV),
    UnaryOp(UnaryOp, CAtomV),
    Call(CAtomV, Seq<CAtomV>),
}

/// Mathematical model of [`CStmt`].
pub enum CStmtV {
    Assign(Seq<char>, CExprV, TypeV),
}

/// Mathematical model of [`CTail`].
pub enum CTailV {
    Return(CExprV),
    TailCall(CAtomV, Seq<CAtomV>),
    Sequence(CStmtV, Box<CTailV>),
    If(CAtomV, Box<CTailV>, Box<CTailV>),
}

impl View for CAtom {
    type V = CAtomV;

    open spec fn view(&self) -> CAtomV {
        match self {
            CAtom::Unit => AExprV::Unit,
            CAtom::Bool(b) => AExprV::Bool(*b),
            CAtom::Int(n) => AExprV::Int(*n),
            CAtom::Float(f) => AExprV::Float(*f),
            CAtom::Var(x, t) => AExprV::Var(x@, t@),
        }
    }
}

/// The models of a sequence of atoms.
pub open spec fn catoms_model(s: Seq<CAtom>) -> Seq<CAtomV> {
    Seq::new(s.len(), |i: int| s[i]@)
}

impl View for CExpr {
    type V = CExprV;

    open spec fn view(&self) -> CExprV {
        match self {
            CExpr::Atom(a) => CExprV::Atom(a@),
            CExpr::BinOp(op, l, r) => CExprV::BinOp(*op, l@, r@),
            CExpr::UnaryOp(op, a) => CExprV::UnaryOp(*op, a@),
            CExpr::Call(f, args) => CExprV::Call(f@, catoms_model(args@)),
        }
    }
}

impl View for CStmt {
    type V = CStmtV;

    open spec fn view(&self) -> CStmtV {
        match self {
            CStmt::Assign(x, e, t) => CStmtV::Assign(x@, e@, t@),
        }
    }
}

pub open spec fn ctail_model(t: CTail) -> CTailV
    decreases t,
{
    match t {
        CTail::Return(e) => CTailV::Return(e@),
        CTail::TailCall(f, args) => CTailV::TailCall(f@, catoms_model(args@)),
        CTail::Sequence(s, rest) => CTailV::Sequence(s@, Box::new(ctail_model(*rest))),
        CTail::If(c, a, b) => CTailV::If(c@, Box::new(ctail_model(*a)), Box::new(ctail_model(*b))),
    }
}

impl View for CTail {
    type V = CTailV;

    open spec fn view(&self) -> CTailV {
        ctail_model(*self)
    }
}

impl Clone for CAtom {
    fn clone(&self) -> (r: Self)
        ensures
            r@ == self@,
    {
        match self {
            CAtom::Unit => CAtom::Unit,
            CAtom::Bool(b) => CAtom::Bool(*b),
            CAtom::Int(n) => CAtom::Int(*n),
            CAtom::Float(f) => CAtom::Float(*f),
            CAtom::Var(x, t) => CAtom::Var(x.clone(), t.clone()),
        }
    }
}

fn clone_catoms(v: &Vec<CAtom>) -> (r: Vec<CAtom>)
    ensures
        catoms_model(r@) == catoms_model(v@),
{
    let mut out: Vec<CAtom> = Vec::new();
    let mut i: usize = 0;
    while i < v.len()
        invariant
            i <= v.len(),
            out.len() == i,
            forall|j: int| 0 <= j < i ==> out[j]@ == v[j]@,
        decreases v.len() - i,
    {
        out.push(v[i].clone());
        i += 1;
    }
    assert(catoms_model(out@) =~= catoms_model(v@));
    out
}

impl Clone for CExpr {
    fn clone(&self) -> (r: Self)
        ensures
            r@ == self@,
    {
        match self {
            CExpr::Atom(a) => CExpr::Atom(a.clone()),
            CExpr::BinOp(op, l, r) => CExpr::BinOp(*op, l.clone(), r.clone()),
            CExpr::UnaryOp(op, a) => CExpr::UnaryOp(*op, a.clone()),
            CExpr::Call(f, args) => CExpr::Call(f.clone(), clone_catoms(args)),
        }
    }
}

impl Clone for CStmt {
    fn clone(&self) -> (r: Self)
        ensures
            r@ == self@,
    {
        match self {
            CStmt::Assign(x, e, t) => CStmt::Assign(x.clone(), e.clone(), t.clone()),
        }
    }
}

impl Clone for CTail {
    fn clone(&self) -> (r: Self)
        ensures
            r@ == self@,
        decreases self,
    {
        match self {
            CTail::Return(e) => CTail::Return(e.clone()),
            CTail::TailCall(f, args) => CTail::TailCall(f.clone(), clone_catoms(args)),
            CTail::Sequence(s, rest) => CTail::Sequence(s.clone(), Box::new((**rest).clone())),
            CTail::If(c, a, b) => CTail::If(c.clone(), Box::new((**a).clone()), Box::new((**b).clone())),
        }
    }
}

/// The type of an atom.
pub open spec fn catom_type(a: CAtomV) -> TypeV {
    match a {
        AExprV::Unit => TypeV::Unit,
        AExprV::Bool(_) => TypeV::Bool,
        AExprV::Int(_) => TypeV::Int,
        AExprV::Float(_) => TypeV::Float,
        AExprV::Var(_, t) => t,
    }
}

/// The result type of applying a function of type `fty` to arguments of the
/// types of `args`, or `None` where an argument does not fit.
pub open spec fn call_type(fty: TypeV, args: Seq<CAtomV>) -> Option<TypeV>
    decreases args.len(),
{
    if args.len() == 0 {
        Some(fty)
    } else {
        match fty {
            TypeV::Arrow(input, output) => if *input == catom_type(args[0]) {
                call_type(*output, args.drop_first())
            } else {
                None
            },
            _ => None,
        }
    }
}

/// The type recorded for an assignment of `e`, or `None` for a call whose
/// arguments do not fit the function.
pub open spec fn cexpr_type(e: CExprV) -> Option<TypeV> {
    match e {
        CExprV::Atom(a) => Some(catom_type(a)),
        CExprV::BinOp(op, l, _) => match op {
            BinOp::Add | BinOp::Sub | BinOp::Mul | BinOp::Div | BinOp::Neq => Some(catom_type(l)),
            _ => Some(TypeV::Bool),
        },
        CExprV::UnaryOp(op, a) => match op {
            UnaryOp::Neg => Some(catom_type(a)),
            UnaryOp::Not => Some(TypeV::Bool),
        },
        CExprV::Call(f, args) => call_type(catom_type(f), args),
    }
}

fn type_of_catom(atom: &CAtom) -> (t: Type)
    ensures
        t@ == catom_type(atom@),
{
    match atom {
        CAtom::Unit => Type::Unit,
        CAtom::Bool(_) => Type::Bool,
        CAtom::Int(_) => Type::Int,
        CAtom::Float(_) => Type::Float,
        CAtom::Var(_, ty) => ty.clone(),
    }
}

/// The type recorded for an assignment of `cexpr`.
pub fn type_of_cexpr(cexpr: &CExpr) -> (t: Type)
    requires
        cexpr_type(cexpr@) is Some,
    ensures
        cexpr_type(cexpr@) == Some(t@),
{
    match cexpr {
        CExpr::Atom(catom) => type_of_catom(catom),
        CExpr::BinOp(op, left, _) => match op {
            BinOp::Add | BinOp::Sub | BinOp::Mul | BinOp::Div | BinOp::Neq => type_of_catom(left),
            _ => Type::Bool,
        },
        CExpr::UnaryOp(op, catom) => match op {
            UnaryOp::Neg => type_of_catom(catom),
            UnaryOp::Not => Type::Bool,
        },
        CExpr::Call(func, args) => {
            let ghost av = catoms_model(args@);
            let mut curr_ty = type_of_catom(func);
            let mut i: usize = 0;
            assert(av.subrange(0, av.len() as int) =~= av);
            while i < args.len()
                invariant
                    i <= args.len(),
                    av == catoms_model(args@),
                    call_type(curr_ty@, av.subrange(i as int, av.len() as int)) == cexpr_type(
                        cexpr@,
                    ),
                    cexpr_type(cexpr@) is Some,
                decreases args.len() - i,
            {
                let ghost tail = av.subrange(i as int, av.len() as int);
                assert(tail.drop_first() =~= av.subrange(i + 1, av.len() as int));
                let arg_ty = type_of_catom(&args[i]);
                match curr_ty {
                    Type::Arrow(_, output_ty) => {
                        curr_ty = *output_ty;
                    },
                    _ => {
                        assert(false);
                    },
                }
                i += 1;
            }
            curr_ty
        },
    }
}

fn aexpr_to_catom(aexpr: AExpr) -> (c: CAtom)
    ensures
        c@ == aexpr@,
{
    match aexpr {
        AExpr::Unit => CAtom::Unit,
        AExpr::Bool(b) => CAtom::Bool(b),
        AExpr::Int(i) => CAtom::Int(i),
        AExpr::Float(f) => CAtom::Float(f),
        AExpr::Var(name, ty) => CAtom::Var(name, ty),
    }
}

fn aexprs_to_catoms(args: Vec<AExpr>) -> (r: Vec<CAtom>)
    ensures
        catoms_model(r@) == aexprs_model(args@),
{
    let mut out: Vec<CAtom> = Vec::new();
    let mut i: usize = 0;
    while i < args.len()
        invariant
            i <= args.len(),
            out.len() == i,
            forall|j: int| 0 <= j < i ==> out[j]@ == args[j]@,
        decreases args.len() - i,
    {
        let a = match &args[i] {
            AExpr::Unit => CAtom::Unit,
            AExpr::Bool(b) => CAtom::Bool(*b),
            AExpr::Int(n) => CAtom::Int(*n),
            AExpr::Float(f) => CAtom::Float(*f),
            AExpr::Var(x, t) => CAtom::Var(x.clone(), t.clone()),
        };
        out.push(a);
        i += 1;
    }
    assert(catoms_model(out@) =~= aexprs_model(args@));
    out
}

/// The right-hand side an operation of A-normal form becomes, when it is one
/// that assigns directly.
pub open spec fn comp_to_cexpr(c: CompExprV) -> Option<CExprV> {
    match c {
        CompExprV::Atom(a) => Some(CExprV::Atom(a)),
        CompExprV::BinOp(op, l, r) => Some(CExprV::BinOp(op, l, r)),
        CompExprV::UnaryOp(op, a) => Some(CExprV::UnaryOp(op, a)),
        CompExprV::App(f, args) => Some(CExprV::Call(f, args)),
        _ => None,
    }
}

/// The tail that assigns the value of `a` to `name` and continues with `cont`;
/// `None` where the conversion does not handle `a` (tuples, input and output,
/// functions) or a call's arguments do not fit the function.
pub open spec fn assign_spec(a: AnfExprV, name: Seq<char>, cont: CTailV) -> Option<CTailV>
    decreases a, 1nat,
{
    match a {
        AnfExprV::Complex(c) => assign_comp_spec(c, name, cont),
        AnfExprV::Let(x, c, body) => match assign_spec(*body, name, cont) {
            Some(inner) => assign_comp_spec(c, x, inner),
            None => None,
        },
        AnfExprV::LetRec(..) => None,
    }
}

/// The tail that assigns the value of the operation `c` to `name` and
/// continues with `cont`.
pub open spec fn assign_comp_spec(c: CompExprV, name: Seq<char>, cont: CTailV) -> Option<CTailV>
    decreases c, 0nat,
{
    match c {
        CompExprV::If(cond, t, e) => match assign_spec(*t, name, cont) {
            Some(tt) => match assign_spec(*e, name, cont) {
                Some(te) => Some(CTailV::If(cond, Box::new(tt), Box::new(te))),
                None => None,
            },
            None => None,
        },
        _ => match comp_to_cexpr(c) {
            Some(ce) => match cexpr_type(ce) {
                Some(t) => Some(CTailV::Sequence(CStmtV::Assign(name, ce, t), Box::new(cont))),
                None => None,
            },
            None => None,
        },
    }
}

/// The tail that computes `a` and returns it; `None` where the conversion
/// does not handle `a`.
pub open spec fn tail_spec(a: AnfExprV) -> Option<CTailV>
    decreases a,
{
    match a {
        AnfExprV::Complex(c) => match c {
            CompExprV::Atom(x) => Some(CTailV::Return(CExprV::Atom(x))),
            CompExprV::BinOp(op, l, r) => Some(CTailV::Return(CExprV::BinOp(op, l, r))),
            CompExprV::UnaryOp(op, x) => Some(CTailV::Return(CExprV::UnaryOp(op, x))),
            CompExprV::App(f, args) => Some(CTailV::TailCall(f, args)),
            CompExprV::If(cond, t, e) => match tail_spec(*t) {
                Some(tt) => match tail_spec(*e) {
                    Some(te) => Some(CTailV::If(cond, Box::new(tt), Box::new(te))),
                    None => None,
                },
                None => None,
            },
            _ => None,
        },
        AnfExprV::Let(x, c, body) => match tail_spec(*body) {
            Some(inner) => assign_comp_spec(c, x, inner),
            None => None,
        },
        AnfExprV::LetRec(..) => None,
    }
}

fn assign_comp(c: CompExpr, name: &str, cont: CTail) -> (r: CTail)
    requires
        assign_comp_spec(c@, name@, cont@) is Some,
    ensures
        assign_comp_spec(c@, name@, cont@) == Some(r@),
    decreases c, 0nat,
{
    let ghost cv = c@;
    match c {
        CompExpr::If(cond, thn, els) => {
            let cond_catom = aexpr_to_catom(cond);
            let then_tail = assign_anf(*thn, name, cont.clone());
            let else_tail = assign_anf(*els, name, cont);
            CTail::If(cond_catom, Box::new(then_tail), Box::new(else_tail))
        },
        CompExpr::Atom(aexpr) => {
            let cexpr = CExpr::Atom(aexpr_to_catom(aexpr));
            let ty = type_of_cexpr(&cexpr);
            CTail::Sequence(CStmt::Assign(name.to_string(), cexpr, ty), Box::new(cont))
        },
        CompExpr::BinOp(op, left, right) => {
            let cexpr = CExpr::BinOp(op, aexpr_to_catom(left), aexpr_to_catom(right));
            let ty = type_of_cexpr(&cexpr);
            CTail::Sequence(CStmt::Assign(name.to_string(), cexpr, ty), Box::new(cont))
        },
        CompExpr::UnaryOp(op, operand) => {
            let cexpr = CExpr::UnaryOp(op, aexpr_to_catom(operand));
            let ty = type_of_cexpr(&cexpr);
            CTail::Sequence(CStmt::Assign(name.to_string(), cexpr, ty), Box::new(cont))
        },
        CompExpr::App(func, args) => {
            let cexpr = CExpr::Call(aexpr_to_catom(func), aexprs_to_catoms(args));
            let ty = type_of_cexpr(&cexpr);
            CTail::Sequence(CStmt::Assign(name.to_string(), cexpr, ty), Box::new(cont))
        },
        _ => {
            assert(false);
            cont
        },
    }
}

fn assign_anf(expr: AnfExpr, name: &str, cont: CTail) -> (r: CTail)
    requires
        assign_spec(expr@, name@, cont@) is Some,
    ensures
        assign_spec(expr@, name@, cont@) == Some(r@),
    decreases expr, 1nat,
{
    match expr {
        AnfExpr::Complex(c) => assign_comp(c, name, cont),
        AnfExpr::Let(name1, c, body) => {
            let inner_cont = assign_anf(*body, name, cont);
            assign_comp(c, name1.as_str(), inner_cont)
        },
        AnfExpr::LetRec(..) => {
            assert(false);
            cont
        },
    }
}

/// The tail that assigns the value of `expr` to `name` and continues with `cont`.
pub fn explicate_assign(expr: AnfExpr, name: &str, cont: CTail) -> (r: CTail)
    requires
        assign_spec(expr@, name@, cont@) is Some,
    ensures
        assign_spec(expr@, name@, cont@) == Some(r@),
{
    assign_anf(expr, name, cont)
}

/// The tail that computes `anf` and returns its value.
pub fn explicate_tail(anf: AnfExpr) -> (r: CTail)
    requires
        tail_spec(anf@) is Some,
    ensures
        tail_spec(anf@) == Some(r@),
    decreases anf,
{
    let ghost av = anf@;
    proof {
        reveal_with_fuel(crate::a_normal_form::anf_model, 2);
    }
    match anf {
        AnfExpr::Complex(cexpr) => match cexpr {
            CompExpr::Atom(aexpr) => CTail::Return(CExpr::Atom(aexpr_to_catom(aexpr))),
            CompExpr::BinOp(op, left, right) => {
                let cleft = aexpr_to_catom(left);
                let cright = aexpr_to_catom(right);
                CTail::Return(CExpr::BinOp(op, cleft, cright))
            },
            CompExpr::UnaryOp(op, aexpr) => {
                let catom = aexpr_to_catom(aexpr);
                CTail::Return(CExpr::UnaryOp(op, catom))
            },
            CompExpr::App(func, args) => {
                let func_catom = aexpr_to_catom(func);
                let args_catom = aexprs_to_catoms(args);
                CTail::TailCall(func_catom, args_catom)
            },
            CompExpr::If(cond, thn, els) => {
                assert(av == AnfExprV::Complex(
                    CompExprV::If(cond@, Box::new((*thn)@), Box::new((*els)@)),
                ));
                let cond_catom = aexpr_to_catom(cond);
                let then_tail = explicate_tail(*thn);
                let else_tail = explicate_tail(*els);
                CTail::If(cond_catom, Box::new(then_tail), Box::new(else_tail))
            },
            _ => {
                assert(false);
                CTail::Return(CExpr::Atom(CAtom::Unit))
            },
        },
        AnfExpr::Let(name, rhs, body) => {
            let tail = explicate_tail(*body);
            assign_comp(rhs, name.as_str(), tail)
        },
        AnfExpr::LetRec(..) => {
            assert(false);
            CTail::Return(CExpr::Atom(CAtom::Unit))
        },
    }
}

/// The types of a list of atoms.
pub open spec fn catom_types(args: Seq<CAtomV>) -> Seq<TypeV> {
    Seq::new(args.len(), |i: int| catom_type(args[i]))
}

/// The type recorded for an operator's result is the type the typing rules
/// give it on its operands' types: the operand type for arithmetic, and a
/// boolean for comparisons, equality, conjunction and disjunction.  For
/// inequality this holds of boolean operands; on other operands the type
/// recorded is that of the left operand.
pub proof fn lemma_binop_type_follows_typing(op: BinOp, l: CAtomV, r: CAtomV, t: TypeV)
    requires
        binop_typing(op, catom_type(l), catom_type(r), t),
        op == BinOp::Neq ==> catom_type(l) == TypeV::Bool,
    ensures
        cexpr_type(CExprV::BinOp(op, l, r)) == Some(t),
{
}

/// The type recorded for a unary operator's result: the operand's type for
/// the negation of an integer or a float, a boolean for logical negation of
/// a boolean.
pub proof fn lemma_unary_type_follows_typing(a: CAtomV)
    ensures
        (catom_type(a) == TypeV::Int || catom_type(a) == TypeV::Float) ==> cexpr_type(
            CExprV::UnaryOp(UnaryOp::Neg, a),
        ) == Some(catom_type(a)),
        catom_type(a) == TypeV::Bool ==> cexpr_type(CExprV::UnaryOp(UnaryOp::Not, a)) == Some(TypeV::Bool),
{
}

/// The type recorded for a call is the result type the typing rules give a
/// function of the callee's type applied to arguments of the atoms' types.
pub proof fn lemma_call_type_follows_typing(fty: TypeV, args: Seq<CAtomV>, t: TypeV)
    requires
        applies_to(fty, catom_types(args), t),
    ensures
        call_type(fty, args) == Some(t),
    decreases args.len(),
{
    if args.len() > 0 {
        let rest = args.drop_first();
        assert(catom_types(args).drop_first() =~= catom_types(rest));
        match fty {
            TypeV::Arrow(p, r) => {
                lemma_call_type_follows_typing(*r, rest, t);
            },
            _ => {},
        }
    }
}

} // verus!
