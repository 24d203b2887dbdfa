//! Monadic normal form: every operand of an operation becomes an atom, the
//! complex ones bound to fresh temporaries `$n` first.
use vstd::prelude::*;
use crate::gensym::{decimal_string, dollar_name};
use crate::syntax::{
    clone_opt_type, clone_params, opt_type_model, params_model, BinOp, Expr, ExprV, Ident, Type,
    TypeV, UnaryOp,
};
use crate::typechecker::exprs_model;

verus! {

broadcast use vstd::string::group_string_axioms;

/// An operand that needs no computation.
#[derive(Debug, PartialEq)]
pub enum MonAtom {
    Unit,
    Bool(bool),
    Int(i64),
    /// A floating-point literal, held by the bits of its `f64`.
    Float(u64),
    Var(Ident),
}

/// An expression whose operations take atoms only.
#[derive(Debug, PartialEq)]
pub enum MonExpr {
    Atom(MonAtom),
    BinOp(BinOp, MonAtom, MonAtom),
    UnaryOp(UnaryOp, MonAtom),
    If(MonAtom, Box<MonExpr>, Box<MonExpr>),
    Let(Ident, Option<Type>, Box<MonExpr>, Box<MonExpr>),
    LetRec(Ident, Vec<(Ident, Type)>, Type, Box<MonExpr>, Box<MonExpr>),
    App(MonAtom, Vec<MonAtom>),
    Lambda(Vec<(Ident, Type)>, Option<Type>, Box<MonExpr>),
}

/// Mathematical model of [`MonAtom`].
pub enum MonAtomV {
    Unit,
    Bool(bool),
    Int(i64),
    Float(u64),
    Var(Seq<char>),
}

/// Mathematical model of [`MonExpr`].
pub enum MonExprV {
    Atom(MonAtomV),
    BinOp(BinOp, MonAtomV, MonAtomV),
    UnaryOp(UnaryOp, MonAtomV),
    If(MonAtomV, Box<MonExprV>, Box<MonExprV>),
    Let(Seq<char>, Option<TypeV>, Box<MonExprV>, Box<MonExprV>),
    LetRec(Seq<char>, Seq<(Seq<char>, TypeV)>, TypeV, Box<MonExprV>, Box<MonExprV>),
    App(MonAtomV, Seq<MonAtomV>),
    Lambda(Seq<(Seq<char>, TypeV)>, Option<TypeV>, Box<MonExprV>),
}

impl View for MonAtom {
    type V = MonAtomV;

    open spec fn view(&self) -> MonAtomV {
        match self {
            MonAtom::Unit => MonAtomV::Unit,
            MonAtom::Bool(b) => MonAtomV::Bool(*b),
            MonAtom::Int(n) => MonAtomV::Int(*n),
            MonAtom::Float(f) => MonAtomV::Float(*f),
            MonAtom::Var(x) => MonAtomV::Var(x@),
        }
    }
}

/// The models of a sequence of atoms.
pub open spec fn mon_atoms_model(s: Seq<MonAtom>) -> Seq<MonAtomV> {
    Seq::new(s.len(), |i: int| s[i]@)
}

impl MonExpr {
    pub open spec fn model(self) -> MonExprV
        decreases self,
    {
        match self {
            MonExpr::Atom(a) => MonExprV::Atom(a@),
            MonExpr::BinOp(op, l, r) => MonExprV::BinOp(op, l@, r@),
            MonExpr::UnaryOp(op, a) => MonExprV::UnaryOp(op, a@),
            MonExpr::If(c, t, f) => MonExprV::If(c@, Box::new(t.model()), Box::new(f.model())),
            MonExpr::Let(x, t, rhs, body) => MonExprV::Let(
                x@,
                opt_type_model(t),
                Box::new(rhs.model()),
                Box::new(body.model()),
            ),
            MonExpr::LetRec(f, ps, rt, fb, b) => MonExprV::LetRec(
                f@,
                params_model(ps@),
                rt@,
                Box::new(fb.model()),
                Box::new(b.model()),
            ),
            MonExpr::App(f, args) => MonExprV::App(f@, mon_atoms_model(args@)),
            MonExpr::Lambda(ps, rt, body) => MonExprV::Lambda(
                params_model(ps@),
                opt_type_model(rt),
                Box::new(body.model()),
            ),
        }
    }
}

impl View for MonExpr {
    type V = MonExprV;

    open spec fn view(&self) -> MonExprV {
        self.model()
    }
}

/// Whether `e` is a literal or a variable.
pub open spec fn is_atom_spec(e: ExprV) -> bool {
    e is Unit || e is Bool || e is Int || e is Float || e is Var
}

/// The atom that a literal or a variable stands for.
pub open spec fn atom_of(e: ExprV) -> MonAtomV
    recommends
        is_atom_spec(e),
{
    match e {
        ExprV::Bool(b) => MonAtomV::Bool(b),
        ExprV::Int(n) => MonAtomV::Int(n),
        ExprV::Float(f) => MonAtomV::Float(f),
        ExprV::Var(x) => MonAtomV::Var(x),
        _ => MonAtomV::Unit,
    }
}

/// The temporary drawn at counter `n`: `$n`.
pub open spec fn temp_name(n: nat) -> Seq<char> {
    dollar_name(Seq::empty(), n)
}

/// A temporary can be drawn at counter `n` without overflowing the counter.
pub open spec fn can_draw_temp(n: nat) -> bool {
    n < u64::MAX
}

/// Monadic normal form of `e` with the counter at `n`: the counter
/// afterwards and the result, or `None` where `e` holds a tuple, a tuple
/// projection, a primitive operation or an application without arguments
/// (none of which this pass handles), or where the counter would overflow.
pub open spec fn rc_spec(n: nat, e: ExprV) -> Option<(nat, MonExprV)>
    decreases e, 1nat,
{
    match e {
        ExprV::BinOp(op, l, r) => if is_atom_spec(*l) && is_atom_spec(*r) {
            Some((n, MonExprV::BinOp(op, atom_of(*l), atom_of(*r))))
        } else if is_atom_spec(*l) {
            match rc_spec(n, *r) {
                Some((n1, rm)) => if can_draw_temp(n1) {
                    Some(
                        (
                            n1 + 1,
                            MonExprV::Let(
                                temp_name(n1),
                                None,
                                Box::new(rm),
                                Box::new(
                                    MonExprV::BinOp(op, atom_of(*l), MonAtomV::Var(temp_name(n1))),
                                ),
                            ),
                        ),
                    )
                } else {
                    None
                },
                None => None,
            }
        } else if is_atom_spec(*r) {
            match rc_spec(n, *l) {
                Some((n1, lm)) => if can_draw_temp(n1) {
                    Some(
                        (
                            n1 + 1,
                            MonExprV::Let(
                                temp_name(n1),
                                None,
                                Box::new(lm),
                                Box::new(
                                    MonExprV::BinOp(op, MonAtomV::Var(temp_name(n1)), atom_of(*r)),
                                ),
                            ),
                        ),
                    )
                } else {
                    None
                },
                None => None,
            }
        } else {
            match rc_spec(n, *l) {
                Some((n1, lm)) => if can_draw_temp(n1) {
                    match rc_spec(n1 + 1, *r) {
                        Some((n2, rm)) => if can_draw_temp(n2) {
                            Some(
                                (
                                    n2 + 1,
                                    MonExprV::Let(
                                        temp_name(n1),
                                        None,
                                        Box::new(lm),
                                        Box::new(
                                            MonExprV::Let(
                                                temp_name(n2),
                                                None,
                                                Box::new(rm),
                                                Box::new(
                                                    MonExprV::BinOp(
                                                        op,
                                                        MonAtomV::Var(temp_name(n1)),
                                                        MonAtomV::Var(temp_name(n2)),
                                                    ),
                                                ),
                                            ),
                                        ),
                                    ),
                                ),
                            )
                        } else {
                            None
                        },
                        None => None,
                    }
                } else {
                    None
                },
                None => None,
            }
        },
        ExprV::UnaryOp(op, x) => if is_atom_spec(*x) {
            Some((n, MonExprV::UnaryOp(op, atom_of(*x))))
        } else {
            match rc_spec(n, *x) {
                Some((n1, xm)) => if can_draw_temp(n1) {
                    Some(
                        (
                            n1 + 1,
                            MonExprV::Let(
                                temp_name(n1),
                                None,
                                Box::new(xm),
                                Box::new(MonExprV::UnaryOp(op, MonAtomV::Var(temp_name(n1)))),
                            ),
                        ),
                    )
                } else {
                    None
                },
                None => None,
            }
        },
        ExprV::If(c, t, f) => if !is_atom_spec(*c) {
            match rc_spec(n, *c) {
                Some((n1, cm)) => if can_draw_temp(n1) {
                    match rc_spec(n1 + 1, *t) {
                        Some((n2, tm)) => match rc_spec(n2, *f) {
                            Some((n3, fm)) => Some(
                                (
                                    n3,
                                    MonExprV::Let(
                                        temp_name(n1),
                                        None,
                                        Box::new(cm),
                                        Box::new(
                                            MonExprV::If(
                                                MonAtomV::Var(temp_name(n1)),
                                                Box::new(tm),
                                                Box::new(fm),
                                            ),
                                        ),
                                    ),
                                ),
                            ),
                            None => None,
                        },
                        None => None,
                    }
                } else {
                    None
                },
                None => None,
            }
        } else {
            match rc_spec(n, *t) {
                Some((n1, tm)) => match rc_spec(n1, *f) {
                    Some((n2, fm)) => Some(
                        (n2, MonExprV::If(atom_of(*c), Box::new(tm), Box::new(fm))),
                    ),
                    None => None,
                },
                None => None,
            }
        },
        ExprV::Let(x, t, rhs, body) => match rc_spec(n, *rhs) {
            Some((n1, rm)) => match rc_spec(n1, *body) {
                Some((n2, bm)) => Some((n2, MonExprV::Let(x, t, Box::new(rm), Box::new(bm)))),
                None => None,
            },
            None => None,
        },
        ExprV::LetRec(f, ps, rt, fb, b) => match rc_spec(n, *fb) {
            Some((n1, fbm)) => match rc_spec(n1, *b) {
                Some((n2, bm)) => Some(
                    (n2, MonExprV::LetRec(f, ps, rt, Box::new(fbm), Box::new(bm))),
                ),
                None => None,
            },
            None => None,
        },
        ExprV::App(func, args) => if args.len() == 0 {
            None
        } else if is_atom_spec(*func) {
            rc_app_spec(n, atom_of(*func), args)
        } else {
            match rc_spec(n, *func) {
                Some((n1, fm)) => if can_draw_temp(n1) {
                    match rc_app_spec(n1 + 1, MonAtomV::Var(temp_name(n1)), args) {
                        Some((n2, body)) => Some(
                            (n2, MonExprV::Let(temp_name(n1), None, Box::new(fm), Box::new(body))),
                        ),
                        None => None,
                    }
                } else {
                    None
                },
                None => None,
            }
        },
        ExprV::Lambda(ps, rt, body) => match rc_spec(n, *body) {
            Some((n1, bm)) => Some((n1, MonExprV::Lambda(ps, rt, Box::new(bm)))),
            None => None,
        },
        ExprV::Ann(x, _) => rc_spec(n, *x),
        ExprV::Unit | ExprV::Bool(_) | ExprV::Int(_) | ExprV::Float(_) | ExprV::Var(_) => Some(
            (n, MonExprV::Atom(atom_of(e))),
        ),
        ExprV::Tuple(_) | ExprV::TupleProjection(..) | ExprV::PrimIO(..) => None,
    }
}

/// The atoms for the arguments of an application, left to right, and the
/// temporaries bound for the complex ones, in the order they are drawn.
pub open spec fn rc_args_spec(n: nat, args: Seq<ExprV>) -> Option<
    (nat, Seq<MonAtomV>, Seq<(Seq<char>, MonExprV)>),
>
    decreases args, 0nat,
{
    if args.len() == 0 {
        Some((n, Seq::empty(), Seq::empty()))
    } else if is_atom_spec(args[0]) {
        match rc_args_spec(n, args.subrange(1, args.len() as int)) {
            Some((n1, atoms, lets)) => Some((n1, seq![atom_of(args[0])] + atoms, lets)),
            None => None,
        }
    } else {
        match rc_spec(n, args[0]) {
            Some((n1, m)) => if can_draw_temp(n1) {
                match rc_args_spec(n1 + 1, args.subrange(1, args.len() as int)) {
                    Some((n2, atoms, lets)) => Some(
                        (
                            n2,
                            seq![MonAtomV::Var(temp_name(n1))] + atoms,
                            seq![(temp_name(n1), m)] + lets,
                        ),
                    ),
                    None => None,
                }
            } else {
                None
            },
            None => None,
        }
    }
}

/// `body` under the given bindings, the first one outermost.
pub open spec fn wrap_lets(lets: Seq<(Seq<char>, MonExprV)>, body: MonExprV) -> MonExprV
    decreases lets.len(),
{
    if lets.len() == 0 {
        body
    } else {
        MonExprV::Let(
            lets[0].0,
            None,
            Box::new(lets[0].1),
            Box::new(wrap_lets(lets.drop_first(), body)),
        )
    }
}

/// An application of `f` to the arguments, each complex one bound first.
pub open spec fn rc_app_spec(n: nat, f: MonAtomV, args: Seq<ExprV>) -> Option<(nat, MonExprV)>
    decreases args, 1nat,
{
    match rc_args_spec(n, args) {
        Some((n1, atoms, lets)) => Some((n1, wrap_lets(lets, MonExprV::App(f, atoms)))),
        None => None,
    }
}

proof fn lemma_wrap_lets_snoc(
    s: Seq<(Seq<char>, MonExprV)>,
    b: (Seq<char>, MonExprV),
    t: MonExprV,
)
    ensures
        wrap_lets(s.push(b), t) == wrap_lets(s, wrap_lets(seq![b], t)),
    decreases s.len(),
{
    if s.len() > 0 {
        assert(s.push(b).drop_first() =~= s.drop_first().push(b));
        lemma_wrap_lets_snoc(s.drop_first(), b, t);
    } else {
        assert(s.push(b) =~= seq![b]);
    }
}

/// The state of the pass: the counter for temporaries.
struct RemoveComplex {
    next_id: u64,
}

impl View for RemoveComplex {
    type V = nat;

    closed spec fn view(&self) -> nat {
        self.next_id as nat
    }
}

impl RemoveComplex {
    fn new() -> (r: RemoveComplex)
        ensures
            r@ == 0,
    {
        RemoveComplex { next_id: 0 }
    }

    /// The temporary `$n` for the current counter `n`; the counter moves on.
    fn fresh(&mut self) -> (name: Ident)
        requires
            can_draw_temp(old(self)@),
        ensures
            name@ == temp_name(old(self)@),
            final(self)@ == old(self)@ + 1,
    {
        let id = self.next_id;
        self.next_id += 1;
        proof {
            reveal_strlit("$");
        }
        let mut name = "$".to_string();
        let digits = decimal_string(id);
        name.append(digits.as_str());
        assert(name@ =~= temp_name(id as nat));
        name
    }

    fn is_atom(&self, expr: &Expr) -> (b: bool)
        ensures
            b == is_atom_spec(expr@),
    {
        match expr {
            Expr::Unit | Expr::Bool(_) | Expr::Int(_) | Expr::Float(_) | Expr::Var(_) => true,
            _ => false,
        }
    }

    fn remove_complex_atom(&self, expr: &Expr) -> (a: MonAtom)
        requires
            is_atom_spec(expr@),
        ensures
            a@ == atom_of(expr@),
    {
        match expr {
            Expr::Bool(b) => MonAtom::Bool(*b),
            Expr::Int(i) => MonAtom::Int(*i),
            Expr::Float(f) => MonAtom::Float(*f),
            Expr::Var(name) => MonAtom::Var(name.clone()),
            _ => MonAtom::Unit,
        }
    }

    /// The monadic normal form of `expr`, temporaries drawn from the counter.
    fn remove_complex(&mut self, expr: &Expr) -> (r: MonExpr)
        requires
            rc_spec(old(self)@, expr@) is Some,
        ensures
            rc_spec(old(self)@, expr@) == Some((final(self)@, r@)),
        decreases expr, 1nat,
    {
        match expr {
            Expr::BinOp(op, left, right) => self.remove_complex_binop(*op, left, right, Ghost(expr)),
            Expr::UnaryOp(op, inner) => {
                if self.is_atom(inner) {
                    let a = self.remove_complex_atom(inner);
                    MonExpr::UnaryOp(*op, a)
                } else {
                    let m = self.remove_complex(inner);
                    let name = self.fresh();
                    let expr_atom = MonAtom::Var(name.clone());
                    let body = MonExpr::UnaryOp(*op, expr_atom);
                    assert(body@ == MonExprV::UnaryOp(*op, MonAtomV::Var(name@)));
                    MonExpr::Let(name, None, Box::new(m), Box::new(body))
                }
            },
            Expr::If(cond, then_e, else_e) => {
                if !self.is_atom(cond) {
                    let cond_mon = self.remove_complex(cond);
                    let name = self.fresh();
                    let then_mon = self.remove_complex(then_e);
                    let else_mon = self.remove_complex(else_e);
                    let body = MonExpr::If(
                        MonAtom::Var(name.clone()),
                        Box::new(then_mon),
                        Box::new(else_mon),
                    );
                    assert(body@ == MonExprV::If(
                        MonAtomV::Var(name@),
                        Box::new(body->If_1@),
                        Box::new(body->If_2@),
                    ));
                    MonExpr::Let(name, None, Box::new(cond_mon), Box::new(body))
                } else {
                    let c = self.remove_complex_atom(cond);
                    let t = self.remove_complex(then_e);
                    let f = self.remove_complex(else_e);
                    MonExpr::If(c, Box::new(t), Box::new(f))
                }
            },
            Expr::Let(name, ty, rhs, body) => {
                let rhs = self.remove_complex(rhs);
                let body = self.remove_complex(body);
                MonExpr::Let(name.clone(), clone_opt_type(ty), Box::new(rhs), Box::new(body))
            },
            Expr::LetRec(fname, fargs, ty, fbody, body) => {
                let fbody = self.remove_complex(fbody);
                let body = self.remove_complex(body);
                MonExpr::LetRec(
                    fname.clone(),
                    clone_params(fargs),
                    ty.clone(),
                    Box::new(fbody),
                    Box::new(body),
                )
            },
            Expr::App(func, args) => {
                assert(expr@->App_1 =~= exprs_model(args@));
                if self.is_atom(func) {
                    let f = self.remove_complex_atom(func);
                    self.remove_complex_app(f, args, Ghost(expr))
                } else {
                    let f = self.remove_complex(func);
                    let name = self.fresh();
                    let body = self.remove_complex_app(MonAtom::Var(name.clone()), args, Ghost(expr));
                    MonExpr::Let(name, None, Box::new(f), Box::new(body))
                }
            },
            Expr::Lambda(params, ty, body) => {
                let body = self.remove_complex(body);
                MonExpr::Lambda(clone_params(params), clone_opt_type(ty), Box::new(body))
            },
            Expr::Ann(inner, _) => self.remove_complex(inner),
            _ => MonExpr::Atom(self.remove_complex_atom(expr)),
        }
    }

    /// A binary operation on the monadic forms of its operands, each
    /// complex operand bound to a temporary first, the left one outermost.
    fn remove_complex_binop(&mut self, op: BinOp, left: &Expr, right: &Expr, Ghost(orig): Ghost<&Expr>) -> (r: MonExpr)
        requires
            decreases_to!(orig => left),
            decreases_to!(orig => right),
            rc_spec(old(self)@, ExprV::BinOp(op, Box::new(left@), Box::new(right@))) is Some,
        ensures
            rc_spec(old(self)@, ExprV::BinOp(op, Box::new(left@), Box::new(right@))) == Some(
                (final(self)@, r@),
            ),
        decreases orig, 0nat,
    {
        let la = self.is_atom(left);
        let ra = self.is_atom(right);
        if la && ra {
            let left_a = self.remove_complex_atom(left);
            let right_a = self.remove_complex_atom(right);
            MonExpr::BinOp(op, left_a, right_a)
        } else if la {
            let left_a = self.remove_complex_atom(left);
            let right_m = self.remove_complex(right);
            let name = self.fresh();
            let right_atom = MonAtom::Var(name.clone());
            let body = MonExpr::BinOp(op, left_a, right_atom);
            assert(body@ == MonExprV::BinOp(op, atom_of(left@), MonAtomV::Var(name@)));
            MonExpr::Let(name, None, Box::new(right_m), Box::new(body))
        } else if ra {
            let left = self.remove_complex(left);
            let name = self.fresh();
            let left_atom = MonAtom::Var(name.clone());
            let right = self.remove_complex_atom(right);
            let body = MonExpr::BinOp(op, left_atom, right);
            assert(body@ == MonExprV::BinOp(op, MonAtomV::Var(name@), right@));
            MonExpr::Let(name, None, Box::new(left), Box::new(body))
        } else {
            let left = self.remove_complex(left);
            let name_left = self.fresh();
            let left_atom = MonAtom::Var(name_left.clone());
            let right = self.remove_complex(right);
            let name_right = self.fresh();
            let right_atom = MonAtom::Var(name_right.clone());
            let body_inner = MonExpr::BinOp(op, left_atom, right_atom);
            assert(body_inner@ == MonExprV::BinOp(
                op,
                MonAtomV::Var(name_left@),
                MonAtomV::Var(name_right@),
            ));
            let body_outer = MonExpr::Let(
                name_right,
                None,
                Box::new(right),
                Box::new(body_inner),
            );
            assert(body_outer@ == MonExprV::Let(
                body_outer->Let_0@,
                None,
                Box::new(right@),
                Box::new(body_inner@),
            ));
            MonExpr::Let(name_left, None, Box::new(left), Box::new(body_outer))
        }
    }

    /// The application of `func` to the arguments, each complex argument
    /// bound to a temporary first, the first one outermost.
    fn remove_complex_app(&mut self, func: MonAtom, args: &Vec<Expr>, Ghost(orig): Ghost<&Expr>) -> (r: MonExpr)
        requires
            forall|j: int| 0 <= j < args.len() ==> decreases_to!(orig => args@[j]),
            rc_app_spec(old(self)@, func@, exprs_model(args@)) is Some,
        ensures
            rc_app_spec(old(self)@, func@, exprs_model(args@)) == Some((final(self)@, r@)),
        decreases orig, 0nat,
    {
        let ghost argsv = exprs_model(args@);
        let ghost len = args.len();
        let ghost n0 = self@;
        let ghost mut lets_done: Seq<(Seq<char>, MonExprV)> = Seq::empty();
        let mut atom_args: Vec<MonAtom> = Vec::new();
        let mut lets: Vec<(Ident, MonExpr)> = Vec::new();
        let mut i: usize = 0;
        proof {
            assert(argsv.subrange(0, len as int) =~= argsv);
            match rc_args_spec(n0, argsv) {
                Some((n1, a1, l1)) => {
                    assert(lets_done + l1 =~= l1);
                    assert(mon_atoms_model(atom_args@) + a1 =~= a1);
                },
                None => {},
            }
        }
        while i < args.len()
            invariant
                i <= args.len(),
                len == args.len(),
                argsv == exprs_model(args@),
                forall|j: int| 0 <= j < args.len() ==> decreases_to!(orig => args@[j]),
                atom_args.len() == i,
                lets.len() == lets_done.len(),
                forall|j: int| 0 <= j < lets.len() ==> (#[trigger] lets@[j]).0@ == lets_done[j].0
                    && lets@[j].1@ == lets_done[j].1,
                rc_args_spec(self@, argsv.subrange(i as int, len as int)) is Some,
                rc_args_spec(n0, argsv) == match rc_args_spec(
                    self@,
                    argsv.subrange(i as int, len as int),
                ) {
                    Some((n1, a1, l1)) => Some(
                        (n1, mon_atoms_model(atom_args@) + a1, lets_done + l1),
                    ),
                    None => None,
                },
            decreases args.len() - i,
        {
            let ghost tail = argsv.subrange(i as int, len as int);
            assert(tail.subrange(1, tail.len() as int) =~= argsv.subrange(i + 1, len as int));
            assert(tail[0] == args@[i as int]@);
            let ghost before = atom_args@;
            let arg = &args[i];
            if self.is_atom(arg) {
                let a = self.remove_complex_atom(arg);
                atom_args.push(a);
                proof {
                    assert(mon_atoms_model(atom_args@) =~= mon_atoms_model(before) + seq![
                        atom_of(tail[0]),
                    ]);
                    match rc_args_spec(self@, argsv.subrange(i + 1, len as int)) {
                        Some((n1, a1, l1)) => {
                            assert(mon_atoms_model(atom_args@) + a1 =~= mon_atoms_model(before) + (
                            seq![atom_of(tail[0])] + a1));
                        },
                        None => {},
                    }
                }
            } else {
                let mon = self.remove_complex(arg);
                let name = self.fresh();
                atom_args.push(MonAtom::Var(name.clone()));
                let ghost entry = (name@, mon@);
                lets.push((name, mon));
                proof {
                    assert(mon_atoms_model(atom_args@) =~= mon_atoms_model(before) + seq![
                        atom_args@[i as int]@,
                    ]);
                    let ghost prev = lets_done;
                    lets_done = lets_done.push(entry);
                    match rc_args_spec(self@, argsv.subrange(i + 1, len as int)) {
                        Some((n1, a1, l1)) => {
                            assert(mon_atoms_model(atom_args@) + a1 =~= mon_atoms_model(before) + (
                            seq![atom_args@[i as int]@] + a1));
                            assert(lets_done + l1 =~= prev + (seq![entry] + l1));
                        },
                        None => {},
                    }
                }
            }
            i += 1;
        }
        proof {
            assert(argsv.subrange(len as int, len as int) =~= Seq::<ExprV>::empty());
            assert(mon_atoms_model(atom_args@) + Seq::<MonAtomV>::empty() =~= mon_atoms_model(
                atom_args@,
            ));
            assert(lets_done + Seq::<(Seq<char>, MonExprV)>::empty() =~= lets_done);
        }
        let ghost app = MonExprV::App(func@, mon_atoms_model(atom_args@));
        let mut body = MonExpr::App(func, atom_args);
        assert(body@ == app);
        proof {
            assert(lets_done.subrange(0, lets.len() as int) =~= lets_done);
        }
        while lets.len() > 0
            invariant
                lets.len() <= lets_done.len(),
                forall|j: int| 0 <= j < lets.len() ==> (#[trigger] lets@[j]).0@ == lets_done[j].0
                    && lets@[j].1@ == lets_done[j].1,
                wrap_lets(lets_done, app) == wrap_lets(
                    lets_done.subrange(0, lets.len() as int),
                    body@,
                ),
            decreases lets.len(),
        {
            let ghost k = lets.len() - 1;
            let ghost prefix = lets_done.subrange(0, k);
            let ghost b = lets_done[k];
            let ghost old_body = body@;
            let (name, mon) = lets.pop().unwrap();
            proof {
                assert(lets_done.subrange(0, k + 1) =~= prefix.push(b));
                lemma_wrap_lets_snoc(prefix, b, old_body);
                assert(seq![b].drop_first() =~= Seq::<(Seq<char>, MonExprV)>::empty());
                assert(seq![b][0] == b);
            }
            body = MonExpr::Let(name, None, Box::new(mon), Box::new(body));
            assert(wrap_lets(seq![b].drop_first(), old_body) == old_body);
            assert(body@ == wrap_lets(seq![b], old_body));
        }
        proof {
            assert(lets_done.subrange(0, 0) =~= Seq::<(Seq<char>, MonExprV)>::empty());
        }
        body
    }
}

/// The monadic normal form of `expr`, its temporaries numbered from `$0`.
pub fn remove_complex(expr: &Expr) -> (r: MonExpr)
    requires
        rc_spec(0, expr@) is Some,
    ensures
        rc_spec(0, expr@) matches Some((_, m)) && r@ == m,
{
    let mut rc = RemoveComplex::new();
    rc.remove_complex(expr)
}

} // verus!
