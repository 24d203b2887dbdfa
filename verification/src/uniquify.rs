//! Renaming of bound variables so that every binder gets a fresh name.
use vstd::prelude::*;
use crate::gensym::{dotted_name, Gensym};
use crate::syntax::{clone_opt_type, params_model, Ident, Type, TypeV};
use crate::typechecker::{texprs_model, type_of, TDefV, TExprV, TypedDef, TypedExpr, TypedProgram};

verus! {

broadcast use vstd::string::group_string_axioms;

/// The map from names to names that a list of pairs denotes: a later pair
/// for a name hides an earlier one.
pub open spec fn names_map(s: Seq<(Ident, Ident)>) -> Map<Seq<char>, Seq<char>>
    decreases s.len(),
{
    if s.len() == 0 {
        Map::empty()
    } else {
        names_map(s.drop_last()).insert(s.last().0@, s.last().1@)
    }
}

proof fn lemma_names_map_last(s: Seq<(Ident, Ident)>, k: Seq<char>, i: int)
    requires
        -1 <= i < s.len(),
        forall|j: int| i < j < s.len() ==> s[j].0@ != k,
        0 <= i ==> s[i].0@ == k,
    ensures
        0 <= i ==> names_map(s).contains_key(k) && names_map(s)[k] == s[i].1@,
        i == -1 ==> !names_map(s).contains_key(k),
    decreases s.len(),
{
    if s.len() > 0 && i < s.len() - 1 {
        lemma_names_map_last(s.drop_last(), k, i);
    }
}

proof fn lemma_names_map_congruent(a: Seq<(Ident, Ident)>, b: Seq<(Ident, Ident)>)
    requires
        a.len() == b.len(),
        forall|j: int| 0 <= j < a.len() ==> a[j].0@ == b[j].0@ && a[j].1@ == b[j].1@,
    ensures
        names_map(a) == names_map(b),
    decreases a.len(),
{
    if a.len() > 0 {
        lemma_names_map_congruent(a.drop_last(), b.drop_last());
    }
}

/// The renaming environment: the current name of each source name.
#[derive(Debug)]
pub struct NameEnv(Vec<(Ident, Ident)>);

impl View for NameEnv {
    type V = Map<Seq<char>, Seq<char>>;

    closed spec fn view(&self) -> Map<Seq<char>, Seq<char>> {
        names_map(self.0@)
    }
}

impl NameEnv {
    /// The empty environment.
    pub fn new() -> (e: Self)
        ensures
            e@ == Map::<Seq<char>, Seq<char>>::empty(),
    {
        NameEnv(Vec::new())
    }

    /// Binds `name` to `new_name`.
    pub fn insert(&mut self, name: Ident, new_name: Ident)
        ensures
            final(self)@ == old(self)@.insert(name@, new_name@),
    {
        let ghost before = self.0@;
        self.0.push((name, new_name));
        assert(self.0@.drop_last() == before);
    }

    /// The name bound to `name`, if any.
    pub fn get(&self, name: &str) -> (r: Option<&Ident>)
        ensures
            r is Some <==> self@.contains_key(name@),
            r matches Some(n) ==> n@ == self@[name@],
    {
        let key = name.to_string();
        let mut i = self.0.len();
        while i > 0
            invariant
                i <= self.0.len(),
                key@ == name@,
                forall|j: int| i <= j < self.0.len() ==> self.0@[j].0@ != name@,
            decreases i,
        {
            i -= 1;
            if self.0[i].0.eq(&key) {
                proof {
                    lemma_names_map_last(self.0@, name@, i as int);
                }
                return Some(&self.0[i].1);
            }
        }
        proof {
            lemma_names_map_last(self.0@, name@, -1);
        }
        None
    }
}

impl Clone for NameEnv {
    fn clone(&self) -> (c: Self)
        ensures
            c@ == self@,
    {
        let mut v: Vec<(Ident, Ident)> = Vec::new();
        let mut i: usize = 0;
        while i < self.0.len()
            invariant
                i <= self.0.len(),
                v.len() == i,
                forall|j: int|
                    0 <= j < i ==> v[j].0@ == self.0@[j].0@ && v[j].1@ == self.0@[j].1@,
            decreases self.0.len() - i,
        {
            v.push((self.0[i].0.clone(), self.0[i].1.clone()));
            i += 1;
        }
        proof {
            lemma_names_map_congruent(v@, self.0@);
        }
        NameEnv(v)
    }
}

/// A fresh name can be drawn at counter `n` without overflowing the counter.
pub open spec fn can_draw(n: nat) -> bool {
    n < u64::MAX
}

/// Renaming of `e` with the counter at `n` and environment `env`: the
/// counter and environment afterwards and the renamed expression, or `None`
/// where a variable is unbound or the counter would overflow.
pub open spec fn rename_spec(n: nat, env: Map<Seq<char>, Seq<char>>, e: TExprV) -> Option<
    (nat, Map<Seq<char>, Seq<char>>, TExprV),
>
    decreases e,
{
    match e {
        TExprV::Unit | TExprV::Bool(_) | TExprV::Int(_) | TExprV::Float(_) => Some((n, env, e)),
        TExprV::Tuple(es, t) => match rename_shared(n, env, es) {
            Some((n1, es1)) => Some((n1, env, TExprV::Tuple(es1, t))),
            None => None,
        },
        TExprV::TupleProjection(x, i, t) => match rename_spec(n, env, *x) {
            Some((n1, env1, x1)) => Some((n1, env1, TExprV::TupleProjection(Box::new(x1), i, t))),
            None => None,
        },
        TExprV::PrimIO(p, arg, t) => match arg {
            Some(x) => match rename_spec(n, env, *x) {
                Some((n1, env1, x1)) => Some((n1, env1, TExprV::PrimIO(p, Some(Box::new(x1)), t))),
                None => None,
            },
            None => Some((n, env, e)),
        },
        TExprV::BinOp(op, l, r, t) => match rename_spec(n, env, *l) {
            Some((n1, _, l1)) => match rename_spec(n1, env, *r) {
                Some((n2, env2, r1)) => Some(
                    (n2, env2, TExprV::BinOp(op, Box::new(l1), Box::new(r1), t)),
                ),
                None => None,
            },
            None => None,
        },
        TExprV::UnaryOp(op, x, t) => match rename_spec(n, env, *x) {
            Some((n1, env1, x1)) => Some((n1, env1, TExprV::UnaryOp(op, Box::new(x1), t))),
            None => None,
        },
        TExprV::Ann(x, t) => match rename_spec(n, env, *x) {
            Some((n1, env1, x1)) => Some((n1, env1, TExprV::Ann(Box::new(x1), t))),
            None => None,
        },
        TExprV::If(c, a, b, t) => match rename_spec(n, env, *c) {
            Some((n1, _, c1)) => match rename_spec(n1, env, *a) {
                Some((n2, _, a1)) => match rename_spec(n2, env, *b) {
                    Some((n3, _, b1)) => Some(
                        (n3, env, TExprV::If(Box::new(c1), Box::new(a1), Box::new(b1), t)),
                    ),
                    None => None,
                },
                None => None,
            },
            None => None,
        },
        TExprV::Let(x, xt, rhs, body, t) => match rename_spec(n, env, *rhs) {
            Some((n1, _, rhs1)) => if can_draw(n1) {
                let nx = dotted_name(x, n1);
                match rename_spec(n1 + 1, env.insert(x, nx), *body) {
                    Some((n2, env2, body1)) => Some(
                        (n2, env2, TExprV::Let(nx, xt, Box::new(rhs1), Box::new(body1), t)),
                    ),
                    None => None,
                }
            } else {
                None
            },
            None => None,
        },
        TExprV::Var(x, t) => if env.contains_key(x) {
            Some((n, env, TExprV::Var(env[x], t)))
        } else {
            None
        },
        TExprV::LetRec(f, ps, rt, fb, b, t) => if can_draw(n) {
            let nf = dotted_name(f, n);
            match fresh_params(n + 1, env.insert(f, nf), ps) {
                Some((n1, fenv, ps1)) => match rename_spec(n1, fenv, *fb) {
                    Some((n2, _, fb1)) => match rename_spec(n2, env.insert(f, nf), *b) {
                        Some((n3, env3, b1)) => Some(
                            (
                                n3,
                                env3,
                                TExprV::LetRec(nf, ps1, rt, Box::new(fb1), Box::new(b1), t),
                            ),
                        ),
                        None => None,
                    },
                    None => None,
                },
                None => None,
            }
        } else {
            None
        },
        TExprV::App(f, args, t) => match rename_spec(n, env, *f) {
            Some((n1, _, f1)) => match rename_shared(n1, env, args) {
                Some((n2, args1)) => Some((n2, env, TExprV::App(Box::new(f1), args1, t))),
                None => None,
            },
            None => None,
        },
        TExprV::Lambda(ps, rt, body, t) => match fresh_params(n, env, ps) {
            Some((n1, env1, ps1)) => match rename_spec(n1, env1, *body) {
                Some((n2, env2, body1)) => Some(
                    (n2, env2, TExprV::Lambda(ps1, rt, Box::new(body1), t)),
                ),
                None => None,
            },
            None => None,
        },
    }
}

/// Renaming of a list of expressions, each under the same environment.
pub open spec fn rename_shared(n: nat, env: Map<Seq<char>, Seq<char>>, es: Seq<TExprV>) -> Option<
    (nat, Seq<TExprV>),
>
    decreases es,
{
    if es.len() == 0 {
        Some((n, Seq::empty()))
    } else {
        match rename_spec(n, env, es[0]) {
            Some((n1, _, e1)) => match rename_shared(n1, env, es.subrange(1, es.len() as int)) {
                Some((n2, rest)) => Some((n2, seq![e1] + rest)),
                None => None,
            },
            None => None,
        }
    }
}

/// Fresh names for parameters, in order, each bound in the environment.
pub open spec fn fresh_params(
    n: nat,
    env: Map<Seq<char>, Seq<char>>,
    ps: Seq<(Seq<char>, TypeV)>,
) -> Option<(nat, Map<Seq<char>, Seq<char>>, Seq<(Seq<char>, TypeV)>)>
    decreases ps.len(),
{
    if ps.len() == 0 {
        Some((n, env, Seq::empty()))
    } else if !can_draw(n) {
        None
    } else {
        let nm = dotted_name(ps[0].0, n);
        match fresh_params(n + 1, env.insert(ps[0].0, nm), ps.drop_first()) {
            Some((n1, env1, rest)) => Some((n1, env1, seq![(nm, ps[0].1)] + rest)),
            None => None,
        }
    }
}

/// Draws fresh names for the parameters and binds them in `env`.
fn fresh_params_exec(gensym: &mut Gensym, env: &mut NameEnv, params: &Vec<(Ident, Type)>) -> (r: Vec<
    (Ident, Type),
>)
    requires
        fresh_params(old(gensym)@, old(env)@, params_model(params@)) is Some,
    ensures
        fresh_params(old(gensym)@, old(env)@, params_model(params@)) == Some(
            (final(gensym)@, final(env)@, params_model(r@)),
        ),
{
    let ghost pm = params_model(params@);
    let ghost n0 = gensym@;
    let ghost env0 = env@;
    let mut out: Vec<(Ident, Type)> = Vec::new();
    let mut i: usize = 0;
    proof {
        assert(pm.subrange(0, pm.len() as int) =~= pm);
        match fresh_params(n0, env0, pm) {
            Some((n1, e1, rest)) => {
                assert(params_model(out@) + rest =~= rest);
            },
            None => {},
        }
    }
    while i < params.len()
        invariant
            i <= params.len(),
            pm == params_model(params@),
            out.len() == i,
            fresh_params(gensym@, env@, pm.subrange(i as int, pm.len() as int)) is Some,
            fresh_params(n0, env0, pm) == match fresh_params(
                gensym@,
                env@,
                pm.subrange(i as int, pm.len() as int),
            ) {
                Some((n1, e1, rest)) => Some((n1, e1, params_model(out@) + rest)),
                None => None,
            },
        decreases params.len() - i,
    {
        let ghost tail = pm.subrange(i as int, pm.len() as int);
        assert(tail.drop_first() =~= pm.subrange(i + 1, pm.len() as int));
        assert(tail[0] == (params@[i as int].0@, params@[i as int].1@));
        let name = &params[i].0;
        let new_name = gensym.inc_fresh(name.as_str());
        env.insert(name.clone(), new_name.clone());
        let ghost before = out@;
        out.push((new_name, params[i].1.clone()));
        proof {
            assert(params_model(out@) =~= params_model(before) + seq![params_model(out@)[i as int]]);
            match fresh_params(gensym@, env@, pm.subrange(i + 1, pm.len() as int)) {
                Some((n1, e1, rest)) => {
                    assert(params_model(out@) + rest =~= params_model(before) + (seq![
                        params_model(out@)[i as int],
                    ] + rest));
                },
                None => {},
            }
        }
        i += 1;
    }
    proof {
        assert(pm.subrange(pm.len() as int, pm.len() as int) =~= Seq::<(Seq<char>, TypeV)>::empty());
        assert(params_model(out@) + Seq::<(Seq<char>, TypeV)>::empty() =~= params_model(out@));
    }
    out
}

/// Renames the bound variables of `expr`: every binder gets a fresh name
/// `x.n`, and every use of a variable the name its binder got.
pub fn rename(gensym: &mut Gensym, env: &mut NameEnv, expr: TypedExpr) -> (r: TypedExpr)
    requires
        rename_spec(old(gensym)@, old(env)@, expr@) is Some,
    ensures
        rename_spec(old(gensym)@, old(env)@, expr@) == Some((final(gensym)@, final(env)@, r@)),
    decreases expr, 1nat,
{
    match expr {
        TypedExpr::Unit | TypedExpr::Bool(_) | TypedExpr::Int(_) | TypedExpr::Float(_) => expr,
        TypedExpr::Tuple(..) => rename_tuple(gensym, env, expr),
        TypedExpr::TupleProjection(..) | TypedExpr::PrimIO(..) | TypedExpr::UnaryOp(..)
        | TypedExpr::Ann(..) => rename_one_child(gensym, env, expr),
        TypedExpr::BinOp(..) => rename_binop(gensym, env, expr),
        TypedExpr::If(..) => rename_if(gensym, env, expr),
        TypedExpr::Let(..) => rename_let(gensym, env, expr),
        TypedExpr::Var(..) => rename_var(env, expr),
        TypedExpr::LetRec(..) => rename_let_rec(gensym, env, expr),
        TypedExpr::App(..) => rename_app(gensym, env, expr),
        TypedExpr::Lambda(..) => rename_lambda(gensym, env, expr),
    }
}

fn rename_var(env: &mut NameEnv, expr: TypedExpr) -> (r: TypedExpr)
    requires
        expr is Var,
        rename_spec(0, old(env)@, expr@) is Some,
    ensures
        final(env)@ == old(env)@,
        forall|n: nat| rename_spec(n, old(env)@, expr@) == Some((n, final(env)@, r@)),
{
    match expr {
        TypedExpr::Var(name, ty) => {
            let new_name = match env.get(name.as_str()) {
                Some(x) => x.clone(),
                None => {
                    assert(false);
                    name
                },
            };
            TypedExpr::Var(new_name, ty)
        },
        _ => {
            assert(false);
            expr
        },
    }
}

fn rename_one_child(gensym: &mut Gensym, env: &mut NameEnv, expr: TypedExpr) -> (r: TypedExpr)
    requires
        expr is TupleProjection || expr is PrimIO || expr is UnaryOp || expr is Ann,
        rename_spec(old(gensym)@, old(env)@, expr@) is Some,
    ensures
        rename_spec(old(gensym)@, old(env)@, expr@) == Some((final(gensym)@, final(env)@, r@)),
    decreases expr, 0nat,
{
    match expr {
        TypedExpr::TupleProjection(inner, index, ty) => {
            let inner = rename(gensym, env, *inner);
            TypedExpr::TupleProjection(Box::new(inner), index, ty)
        },
        TypedExpr::PrimIO(prim_io, arg, ty) => match arg {
            Some(inner) => {
                let renamed = rename(gensym, env, *inner);
                TypedExpr::PrimIO(prim_io, Some(Box::new(renamed)), ty)
            },
            None => TypedExpr::PrimIO(prim_io, None, ty),
        },
        TypedExpr::UnaryOp(op, inner, ty) => {
            let inner = rename(gensym, env, *inner);
            TypedExpr::UnaryOp(op, Box::new(inner), ty)
        },
        TypedExpr::Ann(inner, ty) => {
            let inner = rename(gensym, env, *inner);
            TypedExpr::Ann(Box::new(inner), ty)
        },
        _ => {
            assert(false);
            expr
        },
    }
}

fn rename_binop(gensym: &mut Gensym, env: &mut NameEnv, expr: TypedExpr) -> (r: TypedExpr)
    requires
        expr is BinOp,
        rename_spec(old(gensym)@, old(env)@, expr@) is Some,
    ensures
        rename_spec(old(gensym)@, old(env)@, expr@) == Some((final(gensym)@, final(env)@, r@)),
    decreases expr, 0nat,
{
    match expr {
        TypedExpr::BinOp(op, left, right, ty) => {
            let left = rename(gensym, &mut env.clone(), *left);
            let right = rename(gensym, env, *right);
            TypedExpr::BinOp(op, Box::new(left), Box::new(right), ty)
        },
        _ => {
            assert(false);
            expr
        },
    }
}

fn rename_if(gensym: &mut Gensym, env: &mut NameEnv, expr: TypedExpr) -> (r: TypedExpr)
    requires
        expr is If,
        rename_spec(old(gensym)@, old(env)@, expr@) is Some,
    ensures
        rename_spec(old(gensym)@, old(env)@, expr@) == Some((final(gensym)@, final(env)@, r@)),
    decreases expr, 0nat,
{
    match expr {
        TypedExpr::If(cond, thn, els, ty) => {
            let cond = rename(gensym, &mut env.clone(), *cond);
            let thn = rename(gensym, &mut env.clone(), *thn);
            let els = rename(gensym, &mut env.clone(), *els);
            TypedExpr::If(Box::new(cond), Box::new(thn), Box::new(els), ty)
        },
        _ => {
            assert(false);
            expr
        },
    }
}

fn rename_let(gensym: &mut Gensym, env: &mut NameEnv, expr: TypedExpr) -> (r: TypedExpr)
    requires
        expr is Let,
        rename_spec(old(gensym)@, old(env)@, expr@) is Some,
    ensures
        rename_spec(old(gensym)@, old(env)@, expr@) == Some((final(gensym)@, final(env)@, r@)),
    decreases expr, 0nat,
{
    match expr {
        TypedExpr::Let(name, ty, rhs, body, let_ty) => {
            let rhs = rename(gensym, &mut env.clone(), *rhs);
            let new_name = gensym.inc_fresh(name.as_str());
            env.insert(name, new_name.clone());
            let body = rename(gensym, env, *body);
            TypedExpr::Let(new_name, ty, Box::new(rhs), Box::new(body), let_ty)
        },
        _ => {
            assert(false);
            expr
        },
    }
}

fn rename_let_rec(gensym: &mut Gensym, env: &mut NameEnv, expr: TypedExpr) -> (r: TypedExpr)
    requires
        expr is LetRec,
        rename_spec(old(gensym)@, old(env)@, expr@) is Some,
    ensures
        rename_spec(old(gensym)@, old(env)@, expr@) == Some((final(gensym)@, final(env)@, r@)),
    decreases expr, 0nat,
{
    match expr {
        TypedExpr::LetRec(fname, fparams, fty, fbody, body, letrec_ty) => {
            let new_fname = gensym.inc_fresh(fname.as_str());
            let mut fbody_env = env.clone();
            fbody_env.insert(fname.clone(), new_fname.clone());
            let new_fparams = fresh_params_exec(gensym, &mut fbody_env, &fparams);
            let fbody = rename(gensym, &mut fbody_env, *fbody);
            env.insert(fname, new_fname.clone());
            let body = rename(gensym, env, *body);
            TypedExpr::LetRec(new_fname, new_fparams, fty, Box::new(fbody), Box::new(body), letrec_ty)
        },
        _ => {
            assert(false);
            expr
        },
    }
}

fn rename_lambda(gensym: &mut Gensym, env: &mut NameEnv, expr: TypedExpr) -> (r: TypedExpr)
    requires
        expr is Lambda,
        rename_spec(old(gensym)@, old(env)@, expr@) is Some,
    ensures
        rename_spec(old(gensym)@, old(env)@, expr@) == Some((final(gensym)@, final(env)@, r@)),
    decreases expr, 0nat,
{
    match expr {
        TypedExpr::Lambda(params, ty, body, lambda_ty) => {
            let new_params = fresh_params_exec(gensym, env, &params);
            let body = rename(gensym, env, *body);
            TypedExpr::Lambda(new_params, ty, Box::new(body), lambda_ty)
        },
        _ => {
            assert(false);
            expr
        },
    }
}

#[verifier::loop_isolation(false)]
fn rename_tuple(gensym: &mut Gensym, env: &mut NameEnv, expr: TypedExpr) -> (r: TypedExpr)
    requires
        expr is Tuple,
        rename_spec(old(gensym)@, old(env)@, expr@) is Some,
    ensures
        rename_spec(old(gensym)@, old(env)@, expr@) == Some((final(gensym)@, final(env)@, r@)),
    decreases expr, 0nat,
{
    let ghost ev = expr@;
    let ghost orig = expr;
    match expr {
        TypedExpr::Tuple(typed_exprs, ty) => {
            proof {
                assert forall|j: int| 0 <= j < typed_exprs.len() implies decreases_to!(
                    orig => typed_exprs@[j]
                ) by {
                    assert(decreases_to!(orig => typed_exprs));
                    assert(decreases_to!(typed_exprs => typed_exprs[j]));
                }
            }
            let ghost esv = texprs_model(typed_exprs@);
            let ghost n0 = gensym@;
            let ghost len = typed_exprs.len();
            assert(ev->Tuple_0 =~= esv);
            let mut rest = typed_exprs;
            let mut out: Vec<TypedExpr> = Vec::new();
            proof {
                assert(esv.subrange(0, len as int) =~= esv);
                match rename_shared(n0, env@, esv) {
                    Some((n1, es1)) => {
                        assert(texprs_model(out@) + es1 =~= es1);
                    },
                    None => {},
                }
            }
            while rest.len() > 0
                invariant
                    out.len() + rest.len() == len,
                    esv.len() == len,
                    forall|j: int| 0 <= j < rest.len() ==> decreases_to!(orig => rest@[j]),
                    texprs_model(rest@) == esv.subrange(out.len() as int, len as int),
                    rename_shared(gensym@, env@, esv.subrange(out.len() as int, len as int)) is Some,
                    rename_shared(n0, env@, esv) == match rename_shared(
                        gensym@,
                        env@,
                        esv.subrange(out.len() as int, len as int),
                    ) {
                        Some((n1, es1)) => Some((n1, texprs_model(out@) + es1)),
                        None => None,
                    },
                decreases rest.len(),
            {
                let ghost i = out.len() as int;
                let ghost tail = esv.subrange(i, len as int);
                assert(tail.subrange(1, tail.len() as int) =~= esv.subrange(i + 1, len as int));
                assert(tail[0] == rest@[0]@);
                let ghost rest_before = rest@;
                let e = rest.remove(0);
                assert(decreases_to!(orig => e)) by {
                    assert(e == rest_before[0]);
                }
                assert forall|j: int| 0 <= j < rest.len() implies decreases_to!(orig => rest@[j]) by {
                    assert(rest@[j] == rest_before[j + 1]);
                }
                assert(texprs_model(rest@) =~= esv.subrange(i + 1, len as int)) by {
                    assert forall|j: int| 0 <= j < rest@.len() implies texprs_model(rest@)[j]
                        == esv.subrange(i + 1, len as int)[j] by {
                        assert(rest@[j] == rest_before[j + 1]);
                        assert(texprs_model(rest_before)[j + 1] == tail[j + 1]);
                    }
                }
                let renamed = rename(gensym, &mut env.clone(), e);
                let ghost out_before = out@;
                out.push(renamed);
                proof {
                    assert(texprs_model(out@) =~= texprs_model(out_before) + seq![out@[i]@]);
                    match rename_shared(gensym@, env@, esv.subrange(i + 1, len as int)) {
                        Some((n1, es1)) => {
                            assert(texprs_model(out@) + es1 =~= texprs_model(out_before) + (seq![
                                out@[i]@,
                            ] + es1));
                        },
                        None => {},
                    }
                }
            }
            proof {
                assert(esv.subrange(len as int, len as int) =~= Seq::<TExprV>::empty());
                assert(texprs_model(out@) + Seq::<TExprV>::empty() =~= texprs_model(out@));
            }
            let r = TypedExpr::Tuple(out, ty);
            assert(r@->Tuple_0 =~= texprs_model(out@));
            r
        },
        _ => {
            assert(false);
            expr
        },
    }
}

#[verifier::loop_isolation(false)]
fn rename_app(gensym: &mut Gensym, env: &mut NameEnv, expr: TypedExpr) -> (r: TypedExpr)
    requires
        expr is App,
        rename_spec(old(gensym)@, old(env)@, expr@) is Some,
    ensures
        rename_spec(old(gensym)@, old(env)@, expr@) == Some((final(gensym)@, final(env)@, r@)),
    decreases expr, 0nat,
{
    let ghost ev = expr@;
    let ghost orig = expr;
    match expr {
        TypedExpr::App(func, args, ty) => {
            proof {
                assert forall|j: int| 0 <= j < args.len() implies decreases_to!(
                    orig => args@[j]
                ) by {
                    assert(decreases_to!(orig => args));
                    assert(decreases_to!(args => args[j]));
                }
            }
            let ghost esv = texprs_model(args@);
            let ghost len = args.len();
            assert(ev->App_1 =~= esv);
            let func = rename(gensym, &mut env.clone(), *func);
            let ghost n0 = gensym@;
            let mut rest = args;
            let mut out: Vec<TypedExpr> = Vec::new();
            proof {
                assert(esv.subrange(0, len as int) =~= esv);
                match rename_shared(n0, env@, esv) {
                    Some((n1, es1)) => {
                        assert(texprs_model(out@) + es1 =~= es1);
                    },
                    None => {},
                }
            }
            while rest.len() > 0
                invariant
                    out.len() + rest.len() == len,
                    esv.len() == len,
                    forall|j: int| 0 <= j < rest.len() ==> decreases_to!(orig => rest@[j]),
                    texprs_model(rest@) == esv.subrange(out.len() as int, len as int),
                    rename_shared(gensym@, env@, esv.subrange(out.len() as int, len as int)) is Some,
                    rename_shared(n0, env@, esv) == match rename_shared(
                        gensym@,
                        env@,
                        esv.subrange(out.len() as int, len as int),
                    ) {
                        Some((n1, es1)) => Some((n1, texprs_model(out@) + es1)),
                        None => None,
                    },
                decreases rest.len(),
            {
                let ghost i = out.len() as int;
                let ghost tail = esv.subrange(i, len as int);
                assert(tail.subrange(1, tail.len() as int) =~= esv.subrange(i + 1, len as int));
                assert(tail[0] == rest@[0]@);
                let ghost rest_before = rest@;
                let e = rest.remove(0);
                assert(decreases_to!(orig => e)) by {
                    assert(e == rest_before[0]);
                }
                assert forall|j: int| 0 <= j < rest.len() implies decreases_to!(orig => rest@[j]) by {
                    assert(rest@[j] == rest_before[j + 1]);
                }
                assert(texprs_model(rest@) =~= esv.subrange(i + 1, len as int)) by {
                    assert forall|j: int| 0 <= j < rest@.len() implies texprs_model(rest@)[j]
                        == esv.subrange(i + 1, len as int)[j] by {
                        assert(rest@[j] == rest_before[j + 1]);
                        assert(texprs_model(rest_before)[j + 1] == tail[j + 1]);
                    }
                }
                let renamed = rename(gensym, &mut env.clone(), e);
                let ghost out_before = out@;
                out.push(renamed);
                proof {
                    assert(texprs_model(out@) =~= texprs_model(out_before) + seq![out@[i]@]);
                    match rename_shared(gensym@, env@, esv.subrange(i + 1, len as int)) {
                        Some((n1, es1)) => {
                            assert(texprs_model(out@) + es1 =~= texprs_model(out_before) + (seq![
                                out@[i]@,
                            ] + es1));
                        },
                        None => {},
                    }
                }
            }
            proof {
                assert(esv.subrange(len as int, len as int) =~= Seq::<TExprV>::empty());
                assert(texprs_model(out@) + Seq::<TExprV>::empty() =~= texprs_model(out@));
            }
            let r = TypedExpr::App(Box::new(func), out, ty);
            assert(r@->App_1 =~= texprs_model(out@));
            r
        },
        _ => {
            assert(false);
            expr
        },
    }
}

/// Renames a whole expression, starting from an empty environment and a
/// fresh counter.
pub fn uniquify_expr(expr: TypedExpr) -> (r: TypedExpr)
    requires
        rename_spec(0, Map::empty(), expr@) is Some,
    ensures
        rename_spec(0, Map::empty(), expr@) matches Some((_, _, e)) && r@ == e,
{
    let mut gensym = Gensym::new();
    let mut env = NameEnv::new();
    rename(&mut gensym, &mut env, expr)
}

/// Renaming of a definition under `env`: the counter afterwards and the
/// renamed definition.  A value definition's own name is not in scope in its
/// expression; a function's name and parameters are in scope in its body.
pub open spec fn uniquify_def_spec(n: nat, env: Map<Seq<char>, Seq<char>>, d: TDefV) -> Option<
    (nat, TDefV),
> {
    if !can_draw(n) {
        None
    } else {
        match d {
            TDefV::ValDef(x, t, e) => match rename_spec(n + 1, env, e) {
                Some((n1, _, e1)) => Some((n1, TDefV::ValDef(dotted_name(x, n), t, e1))),
                None => None,
            },
            TDefV::FunDef(f, ps, rt, body) => {
                let nf = dotted_name(f, n);
                match fresh_params(n + 1, env.insert(f, nf), ps) {
                    Some((n1, fenv, ps1)) => match rename_spec(n1, fenv, body) {
                        Some((n2, _, body1)) => Some((n2, TDefV::FunDef(nf, ps1, rt, body1))),
                        None => None,
                    },
                    None => None,
                }
            },
        }
    }
}

/// Renames a definition: its name and parameters get fresh names.
pub fn uniquify_def(gensym: &mut Gensym, env: &NameEnv, def: TypedDef) -> (r: TypedDef)
    requires
        uniquify_def_spec(old(gensym)@, env@, def@) is Some,
    ensures
        uniquify_def_spec(old(gensym)@, env@, def@) == Some((final(gensym)@, r@)),
{
    match def {
        TypedDef::ValDef(name, ty, typed_expr) => {
            let mut val_env = env.clone();
            let new_name = gensym.inc_fresh(name.as_str());
            let renamed = rename(gensym, &mut val_env, typed_expr);
            TypedDef::ValDef(new_name, ty, renamed)
        },
        TypedDef::FunDef(name, param_tys, rt_ty, typed_expr) => {
            let mut fun_env = env.clone();
            let new_name = gensym.inc_fresh(name.as_str());
            fun_env.insert(name, new_name.clone());
            let new_param_tys = fresh_params_exec(gensym, &mut fun_env, &param_tys);
            let renamed = rename(gensym, &mut fun_env, typed_expr);
            TypedDef::FunDef(new_name, new_param_tys, rt_ty, renamed)
        },
    }
}

/// Renaming of the definitions of a program, in order, each name then bound
/// to its new name for what follows: the counter, environment and renamed
/// definitions afterwards.
pub open spec fn uniquify_defs_spec(n: nat, env: Map<Seq<char>, Seq<char>>, ds: Seq<TDefV>) -> Option<
    (nat, Map<Seq<char>, Seq<char>>, Seq<TDefV>),
>
    decreases ds.len(),
{
    if ds.len() == 0 {
        Some((n, env, Seq::empty()))
    } else {
        match uniquify_def_spec(n, env, ds[0]) {
            Some((n1, d1)) => match uniquify_defs_spec(
                n1,
                env.insert(crate::typechecker::def_name(ds[0]), crate::typechecker::def_name(d1)),
                ds.drop_first(),
            ) {
                Some((n2, env2, rest)) => Some((n2, env2, seq![d1] + rest)),
                None => None,
            },
            None => None,
        }
    }
}

/// The models of a sequence of definitions.
pub open spec fn defs_model(ds: Seq<TypedDef>) -> Seq<TDefV> {
    Seq::new(ds.len(), |i: int| ds[i]@)
}

/// Renaming of a whole program.
pub open spec fn uniquify_program_spec(defs: Seq<TDefV>, main: TExprV) -> Option<(Seq<TDefV>, TExprV)> {
    match uniquify_defs_spec(0, Map::empty(), defs) {
        Some((n1, env1, defs1)) => match rename_spec(n1, env1, main) {
            Some((_, _, main1)) => Some((defs1, main1)),
            None => None,
        },
        None => None,
    }
}

/// Renames a whole program: definitions in order, then the main expression.
pub fn uniquify_program(prog: TypedProgram) -> (r: TypedProgram)
    requires
        uniquify_program_spec(defs_model(prog.defs@), prog.main@) is Some,
    ensures
        uniquify_program_spec(defs_model(prog.defs@), prog.main@) == Some(
            (defs_model(r.defs@), r.main@),
        ),
{
    let ghost dsv = defs_model(prog.defs@);
    let ghost len = prog.defs.len();
    let mut gensym = Gensym::new();
    let mut env = NameEnv::new();
    let mut rest = prog.defs;
    let mut renamed_defs: Vec<TypedDef> = Vec::new();
    proof {
        assert(dsv.subrange(0, len as int) =~= dsv);
        match uniquify_defs_spec(0, Map::empty(), dsv) {
            Some((n1, e1, ds1)) => {
                assert(defs_model(renamed_defs@) + ds1 =~= ds1);
            },
            None => {},
        }
    }
    while rest.len() > 0
        invariant
            renamed_defs.len() + rest.len() == len,
            dsv.len() == len,
            defs_model(rest@) == dsv.subrange(renamed_defs.len() as int, len as int),
            uniquify_defs_spec(0, Map::empty(), dsv) == match uniquify_defs_spec(
                gensym@,
                env@,
                dsv.subrange(renamed_defs.len() as int, len as int),
            ) {
                Some((n1, e1, ds1)) => Some((n1, e1, defs_model(renamed_defs@) + ds1)),
                None => None,
            },
            uniquify_defs_spec(gensym@, env@, dsv.subrange(renamed_defs.len() as int, len as int))
                matches Some((n1, e1, _)) && rename_spec(n1, e1, prog.main@) is Some,
        decreases rest.len(),
    {
        let ghost i = renamed_defs.len() as int;
        let ghost tail = dsv.subrange(i, len as int);
        assert(tail.drop_first() =~= dsv.subrange(i + 1, len as int));
        assert(tail[0] == rest@[0]@);
        let ghost rest_before = rest@;
        let def = rest.remove(0);
        assert(defs_model(rest@) =~= dsv.subrange(i + 1, len as int)) by {
            assert forall|j: int| 0 <= j < rest@.len() implies defs_model(rest@)[j]
                == dsv.subrange(i + 1, len as int)[j] by {
                assert(rest@[j] == rest_before[j + 1]);
                assert(defs_model(rest_before)[j + 1] == tail[j + 1]);
            }
        }
        let name = def.name();
        let renamed_def = uniquify_def(&mut gensym, &env, def);
        let new_name = renamed_def.name();
        env.insert(name, new_name);
        let ghost out_before = renamed_defs@;
        renamed_defs.push(renamed_def);
        proof {
            assert(defs_model(renamed_defs@) =~= defs_model(out_before) + seq![renamed_defs@[i]@]);
            match uniquify_defs_spec(gensym@, env@, dsv.subrange(i + 1, len as int)) {
                Some((n1, e1, ds1)) => {
                    assert(defs_model(renamed_defs@) + ds1 =~= defs_model(out_before) + (seq![
                        renamed_defs@[i]@,
                    ] + ds1));
                },
                None => {},
            }
        }
    }
    proof {
        assert(dsv.subrange(len as int, len as int) =~= Seq::<TDefV>::empty());
        assert(defs_model(renamed_defs@) + Seq::<TDefV>::empty() =~= defs_model(renamed_defs@));
    }
    let renamed_main = rename(&mut gensym, &mut env, prog.main);
    TypedProgram { defs: renamed_defs, main: renamed_main }
}

/// The names that `e` binds, in the order in which renaming draws them.
pub open spec fn binders(e: TExprV) -> Seq<Seq<char>>
    decreases e,
{
    match e {
        TExprV::Unit | TExprV::Bool(_) | TExprV::Int(_) | TExprV::Float(_) | TExprV::Var(..) => Seq::empty(),
        TExprV::Tuple(es, _) => binders_list(es),
        TExprV::TupleProjection(x, _, _) => binders(*x),
        TExprV::PrimIO(_, arg, _) => match arg {
            Some(x) => binders(*x),
            None => Seq::empty(),
        },
        TExprV::BinOp(_, l, r, _) => binders(*l) + binders(*r),
        TExprV::UnaryOp(_, x, _) => binders(*x),
        TExprV::Ann(x, _) => binders(*x),
        TExprV::If(c, a, b, _) => binders(*c) + binders(*a) + binders(*b),
        TExprV::Let(x, _, rhs, body, _) => binders(*rhs) + seq![x] + binders(*body),
        TExprV::LetRec(f, ps, _, fb, b, _) => seq![f] + param_names(ps) + binders(*fb) + binders(*b),
        TExprV::App(f, args, _) => binders(*f) + binders_list(args),
        TExprV::Lambda(ps, _, body, _) => param_names(ps) + binders(*body),
    }
}

/// The names bound in a list of expressions, one after the other.
pub open spec fn binders_list(es: Seq<TExprV>) -> Seq<Seq<char>>
    decreases es,
{
    if es.len() == 0 {
        Seq::empty()
    } else {
        binders(es[0]) + binders_list(es.subrange(1, es.len() as int))
    }
}

/// The names of a parameter list.
pub open spec fn param_names(ps: Seq<(Seq<char>, TypeV)>) -> Seq<Seq<char>> {
    Seq::new(ps.len(), |i: int| ps[i].0)
}

/// Each name of `names` is some base name dotted with its own counter, the
/// counters running up from `n` one by one.
pub open spec fn numbered_from(names: Seq<Seq<char>>, n: nat) -> bool {
    forall|i: int| 0 <= i < names.len() ==> has_counter(#[trigger] names[i], (n + i) as nat)
}

/// `name` is some base name dotted with the counter `k`.
pub open spec fn has_counter(name: Seq<char>, k: nat) -> bool {
    exists|b: Seq<char>| name == #[trigger] dotted_name(b, k)
}

/// No name occurs twice.
pub open spec fn all_distinct(names: Seq<Seq<char>>) -> bool {
    forall|i: int, j: int| 0 <= i < j < names.len() ==> names[i] != names[j]
}

proof fn lemma_numbered_concat(a: Seq<Seq<char>>, b: Seq<Seq<char>>, n: nat)
    requires
        numbered_from(a, n),
        numbered_from(b, n + a.len()),
    ensures
        numbered_from(a + b, n),
{
    assert forall|i: int| 0 <= i < (a + b).len() implies has_counter(
        #[trigger] (a + b)[i],
        (n + i) as nat,
    ) by {
        if i < a.len() {
            assert((a + b)[i] == a[i]);
        } else {
            assert((a + b)[i] == b[i - a.len()]);
            assert(has_counter(b[i - a.len()], (n + a.len() + (i - a.len())) as nat));
        }
    }
}

proof fn lemma_numbered_empty(n: nat)
    ensures
        numbered_from(Seq::empty(), n),
{
}

proof fn lemma_numbered_single(x: Seq<char>, n: nat)
    ensures
        numbered_from(seq![dotted_name(x, n)], n),
{
    assert(seq![dotted_name(x, n)][0] == dotted_name(x, (n + 0) as nat));
    assert(has_counter(seq![dotted_name(x, n)][0], (n + 0) as nat));
}

proof fn lemma_fresh_params_numbered(
    n: nat,
    env: Map<Seq<char>, Seq<char>>,
    ps: Seq<(Seq<char>, TypeV)>,
)
    requires
        fresh_params(n, env, ps) is Some,
    ensures
        fresh_params(n, env, ps) matches Some((n1, _, ps1)) && n1 == n + ps.len()
            && numbered_from(param_names(ps1), n) && param_names(ps1).len() == ps.len(),
    decreases ps.len(),
{
    if ps.len() > 0 {
        let nm = dotted_name(ps[0].0, n);
        lemma_fresh_params_numbered(n + 1, env.insert(ps[0].0, nm), ps.drop_first());
        let (n1, _, rest) = fresh_params(n + 1, env.insert(ps[0].0, nm), ps.drop_first()).unwrap();
        let ps1 = seq![(nm, ps[0].1)] + rest;
        assert(param_names(ps1) =~= seq![nm] + param_names(rest));
        lemma_numbered_single(ps[0].0, n);
        lemma_numbered_concat(seq![nm], param_names(rest), n);
    } else {
        assert(param_names(Seq::<(Seq<char>, TypeV)>::empty()) =~= Seq::empty());
    }
}

proof fn lemma_rename_numbered(n: nat, env: Map<Seq<char>, Seq<char>>, e: TExprV)
    requires
        rename_spec(n, env, e) is Some,
    ensures
        rename_spec(n, env, e) matches Some((n1, _, e1)) && n <= n1 && binders(e1).len() == n1 - n
            && numbered_from(binders(e1), n),
    decreases e,
{
    match e {
        TExprV::Unit | TExprV::Bool(_) | TExprV::Int(_) | TExprV::Float(_) | TExprV::Var(..) => {},
        TExprV::Tuple(es, t) => {
            lemma_rename_shared_numbered(n, env, es);
        },
        TExprV::TupleProjection(x, i, t) => {
            lemma_rename_numbered(n, env, *x);
        },
        TExprV::PrimIO(p, arg, t) => match arg {
            Some(x) => {
                lemma_rename_numbered(n, env, *x);
            },
            None => {},
        },
        TExprV::BinOp(op, l, r, t) => {
            lemma_rename_numbered(n, env, *l);
            let (n1, _, l1) = rename_spec(n, env, *l).unwrap();
            lemma_rename_numbered(n1, env, *r);
            let (n2, _, r1) = rename_spec(n1, env, *r).unwrap();
            lemma_numbered_concat(binders(l1), binders(r1), n);
        },
        TExprV::UnaryOp(op, x, t) => {
            lemma_rename_numbered(n, env, *x);
        },
        TExprV::Ann(x, t) => {
            lemma_rename_numbered(n, env, *x);
        },
        TExprV::If(c, a, b, t) => {
            lemma_rename_numbered(n, env, *c);
            let (n1, _, c1) = rename_spec(n, env, *c).unwrap();
            lemma_rename_numbered(n1, env, *a);
            let (n2, _, a1) = rename_spec(n1, env, *a).unwrap();
            lemma_rename_numbered(n2, env, *b);
            let (n3, _, b1) = rename_spec(n2, env, *b).unwrap();
            lemma_numbered_concat(binders(c1), binders(a1), n);
            lemma_numbered_concat(binders(c1) + binders(a1), binders(b1), n);
        },
        TExprV::Let(x, xt, rhs, body, t) => {
            lemma_rename_numbered(n, env, *rhs);
            let (n1, _, rhs1) = rename_spec(n, env, *rhs).unwrap();
            let nx = dotted_name(x, n1);
            lemma_rename_numbered(n1 + 1, env.insert(x, nx), *body);
            let (n2, _, body1) = rename_spec(n1 + 1, env.insert(x, nx), *body).unwrap();
            lemma_numbered_single(x, n1);
            lemma_numbered_concat(binders(rhs1), seq![nx], n);
            lemma_numbered_concat(binders(rhs1) + seq![nx], binders(body1), n);
        },
        TExprV::LetRec(f, ps, rt, fb, b, t) => {
            let nf = dotted_name(f, n);
            lemma_fresh_params_numbered(n + 1, env.insert(f, nf), ps);
            let (n1, fenv, ps1) = fresh_params(n + 1, env.insert(f, nf), ps).unwrap();
            lemma_rename_numbered(n1, fenv, *fb);
            let (n2, _, fb1) = rename_spec(n1, fenv, *fb).unwrap();
            lemma_rename_numbered(n2, env.insert(f, nf), *b);
            let (n3, _, b1) = rename_spec(n2, env.insert(f, nf), *b).unwrap();
            lemma_numbered_single(f, n);
            lemma_numbered_concat(seq![nf], param_names(ps1), n);
            lemma_numbered_concat(seq![nf] + param_names(ps1), binders(fb1), n);
            lemma_numbered_concat(seq![nf] + param_names(ps1) + binders(fb1), binders(b1), n);
        },
        TExprV::App(f, args, t) => {
            lemma_rename_numbered(n, env, *f);
            let (n1, _, f1) = rename_spec(n, env, *f).unwrap();
            lemma_rename_shared_numbered(n1, env, args);
            let (n2, args1) = rename_shared(n1, env, args).unwrap();
            lemma_numbered_concat(binders(f1), binders_list(args1), n);
        },
        TExprV::Lambda(ps, rt, body, t) => {
            lemma_fresh_params_numbered(n, env, ps);
            let (n1, env1, ps1) = fresh_params(n, env, ps).unwrap();
            lemma_rename_numbered(n1, env1, *body);
            let (n2, _, body1) = rename_spec(n1, env1, *body).unwrap();
            lemma_numbered_concat(param_names(ps1), binders(body1), n);
        },
    }
}

proof fn lemma_rename_shared_numbered(n: nat, env: Map<Seq<char>, Seq<char>>, es: Seq<TExprV>)
    requires
        rename_shared(n, env, es) is Some,
    ensures
        rename_shared(n, env, es) matches Some((n1, es1)) && n <= n1 && binders_list(es1).len()
            == n1 - n && numbered_from(binders_list(es1), n),
    decreases es,
{
    if es.len() > 0 {
        lemma_rename_numbered(n, env, es[0]);
        let (n1, _, e1) = rename_spec(n, env, es[0]).unwrap();
        let tail = es.subrange(1, es.len() as int);
        lemma_rename_shared_numbered(n1, env, tail);
        let (n2, rest) = rename_shared(n1, env, tail).unwrap();
        let out = seq![e1] + rest;
        assert(out[0] == e1);
        assert(out.subrange(1, out.len() as int) =~= rest);
        lemma_numbered_concat(binders(e1), binders_list(rest), n);
    }
}

proof fn lemma_numbered_distinct(names: Seq<Seq<char>>, n: nat)
    requires
        numbered_from(names, n),
    ensures
        all_distinct(names),
{
    assert forall|i: int, j: int| 0 <= i < j < names.len() implies names[i] != names[j] by {
        assert(has_counter(names[i], (n + i) as nat));
        assert(has_counter(names[j], (n + j) as nat));
        let bi = choose|b: Seq<char>| names[i] == #[trigger] dotted_name(b, (n + i) as nat);
        let bj = choose|b: Seq<char>| names[j] == #[trigger] dotted_name(b, (n + j) as nat);
        crate::gensym::lemma_dotted_name_distinct(bi, (n + i) as nat, bj, (n + j) as nat);
    }
}

/// Renaming gives every binder its own name: no name is bound twice in the
/// renamed expression, and the counter advances by the number of binders.
pub proof fn lemma_rename_binders_distinct(n: nat, env: Map<Seq<char>, Seq<char>>, e: TExprV)
    requires
        rename_spec(n, env, e) is Some,
    ensures
        rename_spec(n, env, e) matches Some((n1, _, e1)) && all_distinct(binders(e1))
            && n1 == n + binders(e1).len(),
{
    lemma_rename_numbered(n, env, e);
    let (n1, _, e1) = rename_spec(n, env, e).unwrap();
    lemma_numbered_distinct(binders(e1), n);
}

/// Renaming keeps the type of the expression, and keeps the shape of an
/// expression that binds nothing and uses no variable.
pub proof fn lemma_rename_keeps_type(n: nat, env: Map<Seq<char>, Seq<char>>, e: TExprV)
    requires
        rename_spec(n, env, e) is Some,
    ensures
        rename_spec(n, env, e) matches Some((_, _, e1)) && type_of(e1) == type_of(e),
{
}

/// The names a definition binds: its own name, its parameters, then the
/// names bound in its body.
pub open spec fn def_binders(d: TDefV) -> Seq<Seq<char>> {
    match d {
        TDefV::ValDef(x, _, e) => seq![x] + binders(e),
        TDefV::FunDef(f, ps, _, body) => seq![f] + param_names(ps) + binders(body),
    }
}

/// The names bound by a list of definitions, one after the other.
pub open spec fn defs_binders(ds: Seq<TDefV>) -> Seq<Seq<char>>
    decreases ds.len(),
{
    if ds.len() == 0 {
        Seq::empty()
    } else {
        def_binders(ds[0]) + defs_binders(ds.drop_first())
    }
}

proof fn lemma_def_numbered(n: nat, env: Map<Seq<char>, Seq<char>>, d: TDefV)
    requires
        uniquify_def_spec(n, env, d) is Some,
    ensures
        uniquify_def_spec(n, env, d) matches Some((n1, d1)) && n <= n1 && def_binders(d1).len()
            == n1 - n && numbered_from(def_binders(d1), n),
{
    lemma_numbered_single(crate::typechecker::def_name(d), n);
    match d {
        TDefV::ValDef(x, t, e) => {
            lemma_rename_numbered(n + 1, env, e);
            let (n1, _, e1) = rename_spec(n + 1, env, e).unwrap();
            lemma_numbered_concat(seq![dotted_name(x, n)], binders(e1), n);
        },
        TDefV::FunDef(f, ps, rt, body) => {
            let nf = dotted_name(f, n);
            lemma_fresh_params_numbered(n + 1, env.insert(f, nf), ps);
            let (n1, fenv, ps1) = fresh_params(n + 1, env.insert(f, nf), ps).unwrap();
            lemma_rename_numbered(n1, fenv, body);
            let (n2, _, body1) = rename_spec(n1, fenv, body).unwrap();
            lemma_numbered_concat(seq![nf], param_names(ps1), n);
            lemma_numbered_concat(seq![nf] + param_names(ps1), binders(body1), n);
        },
    }
}

proof fn lemma_defs_numbered(n: nat, env: Map<Seq<char>, Seq<char>>, ds: Seq<TDefV>)
    requires
        uniquify_defs_spec(n, env, ds) is Some,
    ensures
        uniquify_defs_spec(n, env, ds) matches Some((n1, _, ds1)) && n <= n1 && defs_binders(
            ds1,
        ).len() == n1 - n && numbered_from(defs_binders(ds1), n),
    decreases ds.len(),
{
    if ds.len() > 0 {
        lemma_def_numbered(n, env, ds[0]);
        let (n1, d1) = uniquify_def_spec(n, env, ds[0]).unwrap();
        let env1 = env.insert(crate::typechecker::def_name(ds[0]), crate::typechecker::def_name(d1));
        lemma_defs_numbered(n1, env1, ds.drop_first());
        let (n2, _, rest) = uniquify_defs_spec(n1, env1, ds.drop_first()).unwrap();
        let out = seq![d1] + rest;
        assert(out[0] == d1);
        assert(out.drop_first() =~= rest);
        lemma_numbered_concat(def_binders(d1), defs_binders(rest), n);
    }
}

/// Renaming a program gives every name it binds — the names of its
/// definitions, their parameters, and every binder in their bodies and in the
/// main expression — a name of its own: none occurs twice.
pub proof fn lemma_uniquify_program_binders_distinct(defs: Seq<TDefV>, main: TExprV)
    requires
        uniquify_program_spec(defs, main) is Some,
    ensures
        uniquify_program_spec(defs, main) matches Some((defs1, main1)) && all_distinct(
            defs_binders(defs1) + binders(main1),
        ),
{
    lemma_defs_numbered(0, Map::empty(), defs);
    let (n1, env1, defs1) = uniquify_defs_spec(0, Map::empty(), defs).unwrap();
    lemma_rename_numbered(n1, env1, main);
    let (_, _, main1) = rename_spec(n1, env1, main).unwrap();
    lemma_numbered_concat(defs_binders(defs1), binders(main1), 0);
    lemma_numbered_distinct(defs_binders(defs1) + binders(main1), 0);
}

} // verus!
