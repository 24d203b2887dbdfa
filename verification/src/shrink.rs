//! Shrinking: the short-circuit operators become conditionals.
use vstd::prelude::*;
use crate::syntax::{BinOp, UnaryOp};
use crate::typechecker::{type_of, TExprV, TypedExpr};

verus! {

/// Shrinking of the top of an expression: `l && r` becomes
/// `if l then r else false`, `l || r` becomes `if l then true else r`, and
/// anything else stays.
pub open spec fn shrink_spec(e: TExprV) -> TExprV {
    match e {
        TExprV::BinOp(BinOp::And, l, r, t) => TExprV::If(l, r, Box::new(TExprV::Bool(false)), t),
        TExprV::BinOp(BinOp::Or, l, r, t) => TExprV::If(l, Box::new(TExprV::Bool(true)), r, t),
        _ => e,
    }
}

/// Rewrites a conjunction or disjunction at the top of `expr` into a
/// conditional; any other expression comes back unchanged.
pub fn shrink(expr: TypedExpr) -> (r: TypedExpr)
    ensures
        r@ == shrink_spec(expr@),
{
    match expr {
        TypedExpr::BinOp(BinOp::And, left, right, ty) => {
            let f = TypedExpr::Bool(false);
            assert(f@ == TExprV::Bool(false));
            TypedExpr::If(left, right, Box::new(f), ty)
        },
        TypedExpr::BinOp(BinOp::Or, left, right, ty) => {
            let t = TypedExpr::Bool(true);
            assert(t@ == TExprV::Bool(true));
            TypedExpr::If(left, Box::new(t), right, ty)
        },
        _ => expr,
    }
}

/// Shrinking keeps the type of the expression.
pub proof fn lemma_shrink_keeps_type(e: TExprV)
    ensures
        type_of(shrink_spec(e)) == type_of(e),
{
}

/// The truth value of a boolean expression built from boolean literals,
/// variables, conjunction, disjunction, equality and inequality of
/// booleans, logical negation, conditionals and annotations, with the
/// variables' values taken from `env`; both operands of a binary operator
/// are evaluated.  `None` for anything else.
pub open spec fn bool_meaning(e: TExprV, env: Map<Seq<char>, bool>) -> Option<bool>
    decreases e,
{
    match e {
        TExprV::Bool(b) => Some(b),
        TExprV::Var(x, _) => if env.contains_key(x) {
            Some(env[x])
        } else {
            None
        },
        TExprV::BinOp(op, l, r, _) => match (bool_meaning(*l, env), bool_meaning(*r, env)) {
            (Some(a), Some(b)) => match op {
                BinOp::And => Some(a && b),
                BinOp::Or => Some(a || b),
                BinOp::Eq => Some(a == b),
                BinOp::Neq => Some(a != b),
                _ => None,
            },
            _ => None,
        },
        TExprV::UnaryOp(UnaryOp::Not, x, _) => match bool_meaning(*x, env) {
            Some(a) => Some(!a),
            None => None,
        },
        TExprV::If(c, t, f, _) => match bool_meaning(*c, env) {
            Some(true) => bool_meaning(*t, env),
            Some(false) => bool_meaning(*f, env),
            None => None,
        },
        TExprV::Ann(x, _) => bool_meaning(*x, env),
        _ => None,
    }
}

/// Shrinking keeps the meaning of a boolean expression: wherever the
/// expression has a truth value, the shrunk one has the same.
pub proof fn lemma_shrink_keeps_meaning(e: TExprV, env: Map<Seq<char>, bool>)
    requires
        bool_meaning(e, env) is Some,
    ensures
        bool_meaning(shrink_spec(e), env) == bool_meaning(e, env),
{
    match e {
        TExprV::BinOp(op, l, r, t) => {
            assert(bool_meaning(TExprV::Bool(true), env) == Some(true));
            assert(bool_meaning(TExprV::Bool(false), env) == Some(false));
        },
        _ => {},
    }
}

/// Shrinking touches only a conjunction or disjunction at the top: any
/// other expression comes back as it is.
pub proof fn lemma_shrink_only_short_circuits(e: TExprV)
    ensures
        !(e matches TExprV::BinOp(op, _, _, _) && (op == BinOp::And || op == BinOp::Or)) ==> shrink_spec(e)
            == e,
{
}

} // verus!
