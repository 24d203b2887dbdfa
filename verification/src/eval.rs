//! A reference evaluator for the surface language.
//!
//! Floating-point arithmetic and comparison, and reading numbers from the
//! console, are work the library cannot do itself: evaluation asks for each
//! such result by a [`Request`] and takes the answers, in order, from an
//! [`Interaction`].  When the answers run out it stops with
//! [`EvalError::Pending`]; the driver performs the request, appends the
//! answer and evaluates again.  What is printed is recorded, not printed.
use vstd::prelude::*;
use crate::gensym::{decimal, decimal_string};
use crate::syntax::{binop_name, BinOp, Expr, ExprV, Ident, PrimIO, TypeV, UnaryOp};

verus! {

broadcast use vstd::string::group_string_axioms;

/// A value of the language.
#[derive(Debug, PartialEq)]
pub enum Value {
    Unit,
    Bool(bool),
    Int(i64),
    /// A floating-point number, held by the bits of its `f64`.
    Float(u64),
    Tuple(Vec<Value>),
    /// A function: the environment it was made in, the parameters still to
    /// be given, and its body.
    Closure(Env, Vec<Ident>, Expr),
    /// A recursive function, which sees itself under `fname`.
    RecClosure { env: Env, fname: Ident, params: Vec<Ident>, body: Expr },
}

/// An environment: bindings of names to values, a later binding hiding an
/// earlier one of the same name.
#[derive(Debug, PartialEq)]
pub struct Env {
    pub bindings: Vec<(Ident, Value)>,
}

/// Mathematical model of [`Value`].
pub enum ValueV {
    Unit,
    Bool(bool),
    Int(i64),
    Float(u64),
    Tuple(Seq<ValueV>),
    Closure(Seq<(Seq<char>, ValueV)>, Seq<Seq<char>>, ExprV),
    RecClosure(Seq<(Seq<char>, ValueV)>, Seq<char>, Seq<Seq<char>>, ExprV),
}

/// The models of a list of names.
pub open spec fn idents_model(s: Seq<Ident>) -> Seq<Seq<char>> {
    Seq::new(s.len(), |i: int| s[i]@)
}

impl Value {
    pub open spec fn model(self) -> ValueV
        decreases self,
    {
        match self {
            Value::Unit => ValueV::Unit,
            Value::Bool(b) => ValueV::Bool(b),
            Value::Int(n) => ValueV::Int(n),
            Value::Float(f) => ValueV::Float(f),
            Value::Tuple(vs) => ValueV::Tuple(
                Seq::new(
                    vs.len() as nat,
                    |i: int|
                        if 0 <= i < vs.len() {
                            vs[i].model()
                        } else {
                            ValueV::Unit
                        },
                ),
            ),
            Value::Closure(env, ps, body) => ValueV::Closure(
                Seq::new(
                    env.bindings.len() as nat,
                    |i: int|
                        if 0 <= i < env.bindings.len() {
                            (env.bindings[i].0@, env.bindings[i].1.model())
                        } else {
                            (Seq::empty(), ValueV::Unit)
                        },
                ),
                idents_model(ps@),
                body@,
            ),
            Value::RecClosure { env, fname, params, body } => ValueV::RecClosure(
                Seq::new(
                    env.bindings.len() as nat,
                    |i: int|
                        if 0 <= i < env.bindings.len() {
                            (env.bindings[i].0@, env.bindings[i].1.model())
                        } else {
                            (Seq::empty(), ValueV::Unit)
                        },
                ),
                fname@,
                idents_model(params@),
                body@,
            ),
        }
    }
}

impl View for Value {
    type V = ValueV;

    open spec fn view(&self) -> ValueV {
        self.model()
    }
}

impl View for Env {
    type V = Seq<(Seq<char>, ValueV)>;

    open spec fn view(&self) -> Seq<(Seq<char>, ValueV)> {
        Seq::new(self.bindings.len() as nat, |i: int| (self.bindings[i].0@, self.bindings[i].1@))
    }
}

/// The models of a list of values.
pub open spec fn values_model(s: Seq<Value>) -> Seq<ValueV> {
    Seq::new(s.len(), |i: int| s[i]@)
}

/// The value bound to `x`: that of its last binding.
pub open spec fn env_lookup(env: Seq<(Seq<char>, ValueV)>, x: Seq<char>) -> Option<ValueV>
    decreases env.len(),
{
    if env.len() == 0 {
        None
    } else if env.last().0 == x {
        Some(env.last().1)
    } else {
        env_lookup(env.drop_last(), x)
    }
}

/// Work that evaluation needs done outside the library.
#[derive(Debug, PartialEq, Clone, Copy)]
pub enum Request {
    /// A binary operation on two floating-point numbers, given by their
    /// bits; the answer is a `Float` or, for a comparison, a `Bool`.
    FloatOp(BinOp, u64, u64),
    /// An integer read from the console; the answer is an `Int`.
    ReadInt,
    /// A floating-point number read from the console; the answer is a
    /// `Float`.
    ReadFloat,
}

/// Why evaluation stopped without a value.
#[derive(Debug, PartialEq)]
pub enum EvalError {
    UnboundVariable(Ident),
    TupleIndexOutOfBounds(usize),
    NotATuple(Value),
    ConditionNotBool(Value),
    TooManyArguments { expected: usize, got: usize },
    NotAFunction(Value),
    InvalidUnary(UnaryOp, Value),
    DivisionByZero,
    FloatDivisionByZero,
    InvalidOperands(BinOp, Value, Value),
    /// The answers ran out: this request is the next one.
    Pending(Request),
    /// The number of nested function applications reached its bound.
    OutOfFuel,
    /// What evaluation is not defined on: an integer result that does not
    /// fit in an `i64`, a printing operation without an argument, or a
    /// reading one with an argument.
    Undefined,
}

/// Mathematical model of [`EvalError`].  `Undefined` stands for what
/// evaluation is not defined on: an integer result that does not fit in an
/// `i64`, a printing operation without an argument, or a reading one with
/// an argument.
pub enum EvalErrorV {
    UnboundVariable(Seq<char>),
    TupleIndexOutOfBounds(usize),
    NotATuple(ValueV),
    ConditionNotBool(ValueV),
    TooManyArguments { expected: usize, got: usize },
    NotAFunction(ValueV),
    InvalidUnary(UnaryOp, ValueV),
    DivisionByZero,
    FloatDivisionByZero,
    InvalidOperands(BinOp, ValueV, ValueV),
    Pending(Request),
    OutOfFuel,
    Undefined,
}

impl View for EvalError {
    type V = EvalErrorV;

    open spec fn view(&self) -> EvalErrorV {
        match self {
            EvalError::UnboundVariable(x) => EvalErrorV::UnboundVariable(x@),
            EvalError::TupleIndexOutOfBounds(i) => EvalErrorV::TupleIndexOutOfBounds(*i),
            EvalError::NotATuple(v) => EvalErrorV::NotATuple(v@),
            EvalError::ConditionNotBool(v) => EvalErrorV::ConditionNotBool(v@),
            EvalError::TooManyArguments { expected, got } => EvalErrorV::TooManyArguments {
                expected: *expected,
                got: *got,
            },
            EvalError::NotAFunction(v) => EvalErrorV::NotAFunction(v@),
            EvalError::InvalidUnary(op, v) => EvalErrorV::InvalidUnary(*op, v@),
            EvalError::DivisionByZero => EvalErrorV::DivisionByZero,
            EvalError::FloatDivisionByZero => EvalErrorV::FloatDivisionByZero,
            EvalError::InvalidOperands(op, a, b) => EvalErrorV::InvalidOperands(*op, a@, b@),
            EvalError::Pending(r) => EvalErrorV::Pending(*r),
            EvalError::OutOfFuel => EvalErrorV::OutOfFuel,
            EvalError::Undefined => EvalErrorV::Undefined,
        }
    }
}

/// The name of a unary operator, as its derived `Debug` writes it.
pub open spec fn unop_name(op: UnaryOp) -> Seq<char> {
    match op {
        UnaryOp::Neg => "Neg"@,
        UnaryOp::Not => "Not"@,
    }
}

/// The message that describes an error.  Where the error carries a value,
/// the message names the fault and the value is left to the variant.
pub open spec fn error_message(e: EvalErrorV) -> Seq<char> {
    match e {
        EvalErrorV::UnboundVariable(x) => "unbound variable: "@ + x,
        EvalErrorV::TupleIndexOutOfBounds(i) => "tuple index "@ + decimal(i as nat) + " out of bounds"@,
        EvalErrorV::NotATuple(_) => "tuple projection on non-tuple"@,
        EvalErrorV::ConditionNotBool(_) => "condition must be Bool"@,
        EvalErrorV::TooManyArguments { expected, got } => "too many arguments: expected "@ + decimal(
            expected as nat,
        ) + ", got "@ + decimal(got as nat),
        EvalErrorV::NotAFunction(_) => "tried to apply a non-function"@,
        EvalErrorV::InvalidUnary(op, _) => "type error in unary "@ + unop_name(op),
        EvalErrorV::DivisionByZero => "division by zero"@,
        EvalErrorV::FloatDivisionByZero => "division by zero (float)"@,
        EvalErrorV::InvalidOperands(op, _, _) => "type error in "@ + binop_name(op),
        EvalErrorV::Pending(_) => "evaluation waits for an answer from outside"@,
        EvalErrorV::OutOfFuel => "evaluation ran out of fuel"@,
        EvalErrorV::Undefined => "evaluation reached an undefined result"@,
    }
}

impl EvalError {
    /// The message that describes the error.
    pub fn message(&self) -> (m: String)
        ensures
            m@ == error_message(self@),
    {
        match self {
            EvalError::UnboundVariable(x) => {
                let mut m = "unbound variable: ".to_string();
                m.append(x.as_str());
                m
            },
            EvalError::TupleIndexOutOfBounds(i) => {
                let mut m = "tuple index ".to_string();
                let d = decimal_string(*i as u64);
                m.append(d.as_str());
                m.append(" out of bounds");
                m
            },
            EvalError::NotATuple(_) => "tuple projection on non-tuple".to_string(),
            EvalError::ConditionNotBool(_) => "condition must be Bool".to_string(),
            EvalError::TooManyArguments { expected, got } => {
                let mut m = "too many arguments: expected ".to_string();
                let e = decimal_string(*expected as u64);
                m.append(e.as_str());
                m.append(", got ");
                let g = decimal_string(*got as u64);
                m.append(g.as_str());
                m
            },
            EvalError::NotAFunction(_) => "tried to apply a non-function".to_string(),
            EvalError::InvalidUnary(op, _) => {
                let mut m = "type error in unary ".to_string();
                match op {
                    UnaryOp::Neg => m.append("Neg"),
                    UnaryOp::Not => m.append("Not"),
                }
                m
            },
            EvalError::DivisionByZero => "division by zero".to_string(),
            EvalError::FloatDivisionByZero => "division by zero (float)".to_string(),
            EvalError::InvalidOperands(op, _, _) => {
                let mut m = "type error in ".to_string();
                let n = op.name();
                m.append(n.as_str());
                m
            },
            EvalError::Pending(_) => "evaluation waits for an answer from outside".to_string(),
            EvalError::OutOfFuel => "evaluation ran out of fuel".to_string(),
            EvalError::Undefined => "evaluation reached an undefined result".to_string(),
        }
    }
}

/// The model of an evaluation outcome.
pub open spec fn outcome_model(r: Result<Value, EvalError>) -> Result<ValueV, EvalErrorV> {
    match r {
        Ok(v) => Ok(v@),
        Err(e) => Err(e@),
    }
}

/// The answers for the requests made so far, how many of them evaluation
/// has used, and what it has printed.
pub struct Interaction {
    pub answers: Vec<Value>,
    pub used: usize,
    pub printed: Vec<(PrimIO, Value)>,
}

/// What evaluation has used and printed: the number of answers used and the
/// printed values with the operation that printed each.
pub type IoV = (nat, Seq<(PrimIO, ValueV)>);

impl Interaction {
    /// The models of the printed values.
    pub open spec fn printed_model(&self) -> Seq<(PrimIO, ValueV)> {
        Seq::new(self.printed@.len(), |i: int| (self.printed@[i].0, self.printed@[i].1@))
    }

    /// The part of the interaction that evaluation changes.
    pub open spec fn io(&self) -> IoV {
        (self.used as nat, self.printed_model())
    }
}

/// Integer division rounding toward zero.
pub open spec fn trunc_div(a: int, b: int) -> int {
    let q = (if a < 0 { -a } else { a }) / (if b < 0 { -b } else { b });
    if (a < 0) == (b < 0) {
        q
    } else {
        -q
    }
}

/// A quotient rounded toward zero fits in an `i64`, but for `i64::MIN / -1`.
proof fn lemma_trunc_div_fits(a: i64, b: i64)
    requires
        b != 0,
    ensures
        fits_i64(trunc_div(a as int, b as int)) <==> !(a == i64::MIN && b == -1),
{
    let ua: int = if a < 0 { -a } else { a as int };
    let ub: int = if b < 0 { -b } else { b as int };
    assert(0 <= ua <= 0x8000_0000_0000_0000);
    assert(ub >= 1);
    if ub == 1 {
        assert(ua / 1 == ua);
    } else {
        assert(ua / ub <= ua / 2) by (nonlinear_arith)
            requires
                ub >= 2,
                ua >= 0,
        ;
        assert(ua / ub >= 0) by (nonlinear_arith)
            requires
                ub >= 2,
                ua >= 0,
        ;
    }
}

/// Whether a value fits in an `i64`.
pub open spec fn fits_i64(x: int) -> bool {
    i64::MIN <= x <= i64::MAX
}

/// The bits of the floating-point zeros.
pub open spec fn is_float_zero(bits: u64) -> bool {
    bits == 0 || bits == 0x8000_0000_0000_0000
}

/// The next answer, or the request where the answers have run out.
pub open spec fn ask(answers: Seq<ValueV>, io: IoV, req: Request) -> (Result<ValueV, EvalErrorV>, IoV) {
    if io.0 < answers.len() {
        (Ok(answers[io.0 as int]), (io.0 + 1, io.1))
    } else {
        (Err(EvalErrorV::Pending(req)), io)
    }
}

/// A unary operator applied to a value.
pub open spec fn unary_spec(op: UnaryOp, v: ValueV) -> Result<ValueV, EvalErrorV> {
    match (op, v) {
        (UnaryOp::Neg, ValueV::Int(n)) => if n == i64::MIN {
            Err(EvalErrorV::Undefined)
        } else {
            Ok(ValueV::Int((-n) as i64))
        },
        (UnaryOp::Neg, ValueV::Float(f)) => Ok(ValueV::Float(f ^ 0x8000_0000_0000_0000u64)),
        (UnaryOp::Not, ValueV::Bool(b)) => Ok(ValueV::Bool(!b)),
        _ => Err(EvalErrorV::InvalidUnary(op, v)),
    }
}

/// An integer operation whose result must fit in an `i64`.
pub open spec fn int_result(x: int) -> Result<ValueV, EvalErrorV> {
    if fits_i64(x) {
        Ok(ValueV::Int(x as i64))
    } else {
        Err(EvalErrorV::Undefined)
    }
}

/// A binary operator applied to two values; the floating-point operations
/// are asked for.
pub open spec fn binop_spec(op: BinOp, v1: ValueV, v2: ValueV, answers: Seq<ValueV>, io: IoV) -> (
    Result<ValueV, EvalErrorV>,
    IoV,
) {
    let bad = (Err(EvalErrorV::InvalidOperands(op, v1, v2)), io);
    match (v1, v2) {
        (ValueV::Int(a), ValueV::Int(b)) => match op {
            BinOp::Add => (int_result(a + b), io),
            BinOp::Sub => (int_result(a - b), io),
            BinOp::Mul => (int_result(a * b), io),
            BinOp::Div => if b == 0 {
                (Err(EvalErrorV::DivisionByZero), io)
            } else {
                (int_result(trunc_div(a as int, b as int)), io)
            },
            BinOp::Eq => (Ok(ValueV::Bool(a == b)), io),
            BinOp::Neq => (Ok(ValueV::Bool(a != b)), io),
            BinOp::Lt => (Ok(ValueV::Bool(a < b)), io),
            BinOp::Leq => (Ok(ValueV::Bool(a <= b)), io),
            BinOp::Gt => (Ok(ValueV::Bool(a > b)), io),
            BinOp::Geq => (Ok(ValueV::Bool(a >= b)), io),
            _ => bad,
        },
        (ValueV::Float(a), ValueV::Float(b)) => match op {
            BinOp::And | BinOp::Or => bad,
            BinOp::Div => if is_float_zero(b) {
                (Err(EvalErrorV::FloatDivisionByZero), io)
            } else {
                ask(answers, io, Request::FloatOp(op, a, b))
            },
            _ => ask(answers, io, Request::FloatOp(op, a, b)),
        },
        (ValueV::Bool(a), ValueV::Bool(b)) => match op {
            BinOp::And => (Ok(ValueV::Bool(a && b)), io),
            BinOp::Or => (Ok(ValueV::Bool(a || b)), io),
            BinOp::Eq => (Ok(ValueV::Bool(a == b)), io),
            BinOp::Neq => (Ok(ValueV::Bool(a != b)), io),
            _ => bad,
        },
        (ValueV::Unit, ValueV::Unit) => match op {
            BinOp::Eq => (Ok(ValueV::Bool(true)), io),
            BinOp::Neq => (Ok(ValueV::Bool(false)), io),
            _ => bad,
        },
        _ => bad,
    }
}

/// The environment `env` with each parameter bound to its argument, in
/// order; parameters beyond the arguments stay unbound.
pub open spec fn bind_params(
    env: Seq<(Seq<char>, ValueV)>,
    params: Seq<Seq<char>>,
    args: Seq<ValueV>,
) -> Seq<(Seq<char>, ValueV)> {
    env + Seq::new(
        if args.len() < params.len() {
            args.len()
        } else {
            params.len()
        },
        |i: int| (params[i], args[i]),
    )
}

/// Evaluation of `e` under `env` with at most `fuel` nested function
/// applications, taking answers from `answers` and starting from `io`: the
/// outcome and what has been used and printed afterwards.
pub open spec fn eval_spec(
    fuel: nat,
    env: Seq<(Seq<char>, ValueV)>,
    e: ExprV,
    answers: Seq<ValueV>,
    io: IoV,
) -> (Result<ValueV, EvalErrorV>, IoV)
    decreases fuel, e, 1nat,
{
    match e {
        ExprV::Unit => (Ok(ValueV::Unit), io),
        ExprV::Bool(b) => (Ok(ValueV::Bool(b)), io),
        ExprV::Int(n) => (Ok(ValueV::Int(n)), io),
        ExprV::Float(f) => (Ok(ValueV::Float(f)), io),
        ExprV::Var(x) => match env_lookup(env, x) {
            Some(v) => (Ok(v), io),
            None => (Err(EvalErrorV::UnboundVariable(x)), io),
        },
        ExprV::Ann(inner, _) => eval_spec(fuel, env, *inner, answers, io),
        ExprV::Tuple(es) => match eval_list_spec(fuel, env, es, answers, io) {
            (Ok(vs), io1) => (Ok(ValueV::Tuple(vs)), io1),
            (Err(err), io1) => (Err(err), io1),
        },
        ExprV::TupleProjection(inner, index) => match eval_spec(fuel, env, *inner, answers, io) {
            (Ok(ValueV::Tuple(vs)), io1) => if index < vs.len() {
                (Ok(vs[index as int]), io1)
            } else {
                (Err(EvalErrorV::TupleIndexOutOfBounds(index)), io1)
            },
            (Ok(other), io1) => (Err(EvalErrorV::NotATuple(other)), io1),
            (Err(err), io1) => (Err(err), io1),
        },
        ExprV::PrimIO(p, arg) => match arg {
            None => if p == PrimIO::ReadInt {
                ask(answers, io, Request::ReadInt)
            } else if p == PrimIO::ReadFloat {
                ask(answers, io, Request::ReadFloat)
            } else {
                (Err(EvalErrorV::Undefined), io)
            },
            Some(x) => if !p.takes_argument() {
                (Err(EvalErrorV::Undefined), io)
            } else {
                match eval_spec(fuel, env, *x, answers, io) {
                    (Ok(v), io1) => (Ok(ValueV::Unit), (io1.0, io1.1.push((p, v)))),
                    (Err(err), io1) => (Err(err), io1),
                }
            },
        },
        ExprV::UnaryOp(op, x) => match eval_spec(fuel, env, *x, answers, io) {
            (Ok(v), io1) => (unary_spec(op, v), io1),
            (Err(err), io1) => (Err(err), io1),
        },
        ExprV::BinOp(op, l, r) => match eval_spec(fuel, env, *l, answers, io) {
            (Ok(v1), io1) => match eval_spec(fuel, env, *r, answers, io1) {
                (Ok(v2), io2) => binop_spec(op, v1, v2, answers, io2),
                (Err(err), io2) => (Err(err), io2),
            },
            (Err(err), io1) => (Err(err), io1),
        },
        ExprV::If(c, t, f) => match eval_spec(fuel, env, *c, answers, io) {
            (Ok(ValueV::Bool(true)), io1) => eval_spec(fuel, env, *t, answers, io1),
            (Ok(ValueV::Bool(false)), io1) => eval_spec(fuel, env, *f, answers, io1),
            (Ok(other), io1) => (Err(EvalErrorV::ConditionNotBool(other)), io1),
            (Err(err), io1) => (Err(err), io1),
        },
        ExprV::Let(x, _, rhs, body) => match eval_spec(fuel, env, *rhs, answers, io) {
            (Ok(v), io1) => eval_spec(fuel, env.push((x, v)), *body, answers, io1),
            (Err(err), io1) => (Err(err), io1),
        },
        ExprV::LetRec(f, ps, _, fbody, body) => {
            let rec = ValueV::RecClosure(env, f, Seq::new(ps.len(), |i: int| ps[i].0), *fbody);
            eval_spec(fuel, env.push((f, rec)), *body, answers, io)
        },
        ExprV::Lambda(ps, _, body) => (
            Ok(ValueV::Closure(env, Seq::new(ps.len(), |i: int| ps[i].0), *body)),
            io,
        ),
        ExprV::App(func, args) => match eval_spec(fuel, env, *func, answers, io) {
            (Ok(fv), io1) => match eval_list_spec(fuel, env, args, answers, io1) {
                (Ok(argvs), io2) => apply_spec(fuel, e, fv, argvs, answers, io2),
                (Err(err), io2) => (Err(err), io2),
            },
            (Err(err), io1) => (Err(err), io1),
        },
    }
}

/// Application of a function value to argument values, as evaluation of
/// the application `site` does it: too many arguments is an error, fewer
/// give a function awaiting the rest, and as many evaluate the body with the
/// parameters bound, one application deeper.
pub open spec fn apply_spec(
    fuel: nat,
    site: ExprV,
    fv: ValueV,
    argvs: Seq<ValueV>,
    answers: Seq<ValueV>,
    io: IoV,
) -> (Result<ValueV, EvalErrorV>, IoV)
    decreases fuel, site, 0nat,
{
    match fv {
        ValueV::Closure(cenv, params, body) => if argvs.len() > params.len() {
            (
                Err(
                    EvalErrorV::TooManyArguments {
                        expected: params.len() as usize,
                        got: argvs.len() as usize,
                    },
                ),
                io,
            )
        } else if argvs.len() < params.len() {
            (
                Ok(
                    ValueV::Closure(
                        bind_params(cenv, params, argvs),
                        params.subrange(argvs.len() as int, params.len() as int),
                        body,
                    ),
                ),
                io,
            )
        } else if fuel == 0 {
            (Err(EvalErrorV::OutOfFuel), io)
        } else {
            eval_spec((fuel - 1) as nat, bind_params(cenv, params, argvs), body, answers, io)
        },
        ValueV::RecClosure(cenv, fname, params, body) => if argvs.len() > params.len() {
            (
                Err(
                    EvalErrorV::TooManyArguments {
                        expected: params.len() as usize,
                        got: argvs.len() as usize,
                    },
                ),
                io,
            )
        } else {
            let env1 = bind_params(
                cenv.push((fname, ValueV::RecClosure(cenv, fname, params, body))),
                params,
                argvs,
            );
            if argvs.len() < params.len() {
                (
                    Ok(
                        ValueV::RecClosure(
                            env1,
                            fname,
                            params.subrange(argvs.len() as int, params.len() as int),
                            body,
                        ),
                    ),
                    io,
                )
            } else if fuel == 0 {
                (Err(EvalErrorV::OutOfFuel), io)
            } else {
                eval_spec((fuel - 1) as nat, env1, body, answers, io)
            }
        },
        other => (Err(EvalErrorV::NotAFunction(other)), io),
    }
}

/// Evaluation of a list of expressions, left to right, stopping at the
/// first error.
pub open spec fn eval_list_spec(
    fuel: nat,
    env: Seq<(Seq<char>, ValueV)>,
    es: Seq<ExprV>,
    answers: Seq<ValueV>,
    io: IoV,
) -> (Result<Seq<ValueV>, EvalErrorV>, IoV)
    decreases fuel, es, 0nat,
{
    if es.len() == 0 {
        (Ok(Seq::empty()), io)
    } else {
        match eval_spec(fuel, env, es[0], answers, io) {
            (Ok(v), io1) => match eval_list_spec(
                fuel,
                env,
                es.subrange(1, es.len() as int),
                answers,
                io1,
            ) {
                (Ok(vs), io2) => (Ok(seq![v] + vs), io2),
                (Err(err), io2) => (Err(err), io2),
            },
            (Err(err), io1) => (Err(err), io1),
        }
    }
}

/// Copies of a list of names.
fn clone_idents(s: &Vec<Ident>) -> (r: Vec<Ident>)
    ensures
        idents_model(r@) == idents_model(s@),
{
    let mut out: Vec<Ident> = Vec::new();
    let mut i: usize = 0;
    while i < s.len()
        invariant
            i <= s.len(),
            out.len() == i,
            forall|j: int| 0 <= j < i ==> #[trigger] out@[j]@ == s@[j]@,
        decreases s.len() - i,
    {
        out.push(s[i].clone());
        i += 1;
    }
    assert(idents_model(out@) =~= idents_model(s@));
    out
}

/// The names from position `start` on.
fn idents_from(s: &Vec<Ident>, start: usize) -> (r: Vec<Ident>)
    requires
        start <= s.len(),
    ensures
        idents_model(r@) == idents_model(s@).subrange(start as int, s.len() as int),
{
    let mut out: Vec<Ident> = Vec::new();
    let mut i: usize = start;
    while i < s.len()
        invariant
            start <= i <= s.len(),
            out.len() == i - start,
            forall|j: int| 0 <= j < i - start ==> #[trigger] out@[j]@ == s@[start + j]@,
        decreases s.len() - i,
    {
        out.push(s[i].clone());
        i += 1;
    }
    assert(idents_model(out@) =~= idents_model(s@).subrange(start as int, s.len() as int));
    out
}

/// Copies of a list of values.
fn clone_values(vs: &Vec<Value>) -> (r: Vec<Value>)
    ensures
        values_model(r@) == values_model(vs@),
    decreases vs@,
{
    let mut out: Vec<Value> = Vec::new();
    let mut i: usize = 0;
    while i < vs.len()
        invariant
            i <= vs.len(),
            out.len() == i,
            forall|j: int| 0 <= j < i ==> #[trigger] out@[j]@ == vs@[j]@,
        decreases vs.len() - i,
    {
        assert(decreases_to!(vs@ => vs@[i as int]));
        out.push(vs[i].clone());
        i += 1;
    }
    assert(values_model(out@) =~= values_model(vs@));
    out
}

impl Clone for Env {
    fn clone(&self) -> (r: Self)
        ensures
            r@ == self@,
        decreases self,
    {
        let mut out: Vec<(Ident, Value)> = Vec::new();
        let mut i: usize = 0;
        while i < self.bindings.len()
            invariant
                i <= self.bindings.len(),
                out.len() == i,
                forall|j: int|
                    0 <= j < i ==> (#[trigger] out@[j]).0@ == self.bindings@[j].0@ && out@[j].1@
                        == self.bindings@[j].1@,
            decreases self.bindings.len() - i,
        {
            assert(decreases_to!(self => self.bindings));
            assert(decreases_to!(self.bindings => self.bindings@));
            assert(decreases_to!(self.bindings@ => self.bindings@[i as int]));
            assert(decreases_to!(self.bindings@[i as int] => self.bindings@[i as int].1));
            let v = self.bindings[i].1.clone();
            out.push((self.bindings[i].0.clone(), v));
            i += 1;
        }
        let r = Env { bindings: out };
        assert(r@ =~= self@);
        r
    }
}

impl Clone for Value {
    fn clone(&self) -> (r: Self)
        ensures
            r@ == self@,
        decreases self,
    {
        match self {
            Value::Unit => Value::Unit,
            Value::Bool(b) => Value::Bool(*b),
            Value::Int(n) => Value::Int(*n),
            Value::Float(f) => Value::Float(*f),
            Value::Tuple(vs) => {
                let c = clone_values(vs);
                let r = Value::Tuple(c);
                assert(r@->Tuple_0 =~= self@->Tuple_0) by {
                    assert(values_model(c@).len() == c@.len());
                    assert(values_model(vs@).len() == vs@.len());
                    assert forall|i: int| 0 <= i < c.len() implies c[i].model() == vs[i].model() by {
                        assert(values_model(c@)[i] == c@[i]@);
                        assert(values_model(vs@)[i] == vs@[i]@);
                        assert(values_model(c@)[i] == values_model(vs@)[i]);
                    }
                }
                r
            },
            Value::Closure(env, ps, body) => {
                let e = env.clone();
                let r = Value::Closure(e, clone_idents(ps), body.clone());
                assert(e@.len() == env@.len());
                assert(e.bindings.len() == env.bindings.len());
                assert(r@->Closure_0 =~= self@->Closure_0) by {
                    assert forall|i: int| 0 <= i < e.bindings.len() implies (
                    e.bindings[i].0@,
                    e.bindings[i].1.model(),
                ) == (env.bindings[i].0@, env.bindings[i].1.model()) by {
                        assert(e@.len() == env@.len());
                        assert(e@[i] == (e.bindings[i].0@, e.bindings[i].1@));
                        assert(env@[i] == (env.bindings[i].0@, env.bindings[i].1@));
                        assert(e@[i] == env@[i]);
                    }
                }
                r
            },
            Value::RecClosure { env, fname, params, body } => {
                let e = env.clone();
                let r = Value::RecClosure {
                    env: e,
                    fname: fname.clone(),
                    params: clone_idents(params),
                    body: body.clone(),
                };
                assert(e@.len() == env@.len());
                assert(e.bindings.len() == env.bindings.len());
                assert(r@->RecClosure_0 =~= self@->RecClosure_0) by {
                    assert forall|i: int| 0 <= i < e.bindings.len() implies (
                    e.bindings[i].0@,
                    e.bindings[i].1.model(),
                ) == (env.bindings[i].0@, env.bindings[i].1.model()) by {
                        assert(e@.len() == env@.len());
                        assert(e@[i] == (e.bindings[i].0@, e.bindings[i].1@));
                        assert(env@[i] == (env.bindings[i].0@, env.bindings[i].1@));
                        assert(e@[i] == env@[i]);
                    }
                }
                r
            },
        }
    }
}

/// The closure environment in a value's model is the environment's view.
proof fn lemma_closure_env(env: &Env)
    ensures
        Seq::new(
            env.bindings.len() as nat,
            |i: int|
                if 0 <= i < env.bindings.len() {
                    (env.bindings[i].0@, env.bindings[i].1.model())
                } else {
                    (Seq::<char>::empty(), ValueV::Unit)
                },
        ) == env@,
{
    assert(Seq::new(
        env.bindings.len() as nat,
        |i: int|
            if 0 <= i < env.bindings.len() {
                (env.bindings[i].0@, env.bindings[i].1.model())
            } else {
                (Seq::<char>::empty(), ValueV::Unit)
            },
    ) =~= env@);
}

impl Env {
    /// The empty environment.
    pub fn new() -> (e: Self)
        ensures
            e@ == Seq::<(Seq<char>, ValueV)>::empty(),
    {
        let e = Env { bindings: Vec::new() };
        assert(e@ =~= Seq::<(Seq<char>, ValueV)>::empty());
        e
    }

    /// The value bound to `name`, if any: that of its last binding.
    pub fn get(&self, name: &str) -> (r: Option<&Value>)
        ensures
            match r {
                Some(v) => env_lookup(self@, name@) == Some(v@),
                None => env_lookup(self@, name@) is None,
            },
    {
        let key = name.to_string();
        let mut i = self.bindings.len();
        assert(self@.subrange(0, i as int) =~= self@);
        while i > 0
            invariant
                i <= self.bindings.len(),
                key@ == name@,
                env_lookup(self@, name@) == env_lookup(self@.subrange(0, i as int), name@),
            decreases i,
        {
            let ghost pre = self@.subrange(0, i as int);
            assert(pre.drop_last() =~= self@.subrange(0, i - 1));
            assert(pre.last() == self@[i - 1]);
            i -= 1;
            if self.bindings[i].0.eq(&key) {
                return Some(&self.bindings[i].1);
            }
        }
        None
    }

    /// The environment with one more binding, of `name` to `v`.
    pub fn extend(&self, name: &str, v: Value) -> (e: Self)
        ensures
            e@ == self@.push((name@, v@)),
    {
        let mut e = self.clone();
        e.insert(name.to_string(), v);
        e
    }

    /// Binds `name` to `v`, hiding any earlier binding of it.
    pub fn insert(&mut self, name: Ident, v: Value)
        ensures
            final(self)@ == old(self)@.push((name@, v@)),
    {
        let ghost before = self@;
        self.bindings.push((name, v));
        assert(self@ =~= before.push((name@, v@)));
    }
}

impl Interaction {
    /// An interaction with the given answers, none used, nothing printed.
    pub fn new(answers: Vec<Value>) -> (r: Self)
        ensures
            r.answers@ == answers@,
            r.io() == (0nat, Seq::<(PrimIO, ValueV)>::empty()),
    {
        let r = Interaction { answers, used: 0, printed: Vec::new() };
        assert(r.printed_model() =~= Seq::<(PrimIO, ValueV)>::empty());
        r
    }

    /// The next answer, or `Pending(req)` where the answers have run out.
    fn ask(&mut self, req: Request) -> (r: Result<Value, EvalError>)
        ensures
            final(self).answers@ == old(self).answers@,
            (outcome_model(r), final(self).io()) == ask(
                values_model(old(self).answers@),
                old(self).io(),
                req,
            ),
    {
        if self.used < self.answers.len() {
            let v = self.answers[self.used].clone();
            self.used = self.used + 1;
            Ok(v)
        } else {
            Err(EvalError::Pending(req))
        }
    }

    /// Records that `p` printed `v`.
    fn print(&mut self, p: PrimIO, v: Value)
        ensures
            final(self).answers@ == old(self).answers@,
            final(self).io() == (old(self).io().0, old(self).io().1.push((p, v@))),
    {
        let ghost before = self.printed_model();
        self.printed.push((p, v));
        assert(self.printed_model() =~= before.push((p, v@)));
    }
}

/// The models of the answers of an interaction.
pub open spec fn answers_model(io: &Interaction) -> Seq<ValueV> {
    values_model(io.answers@)
}

/// A unary operator applied to a value.
fn eval_unary(op: UnaryOp, v: Value) -> (r: Result<Value, EvalError>)
    requires
    ensures
        outcome_model(r) == unary_spec(op, v@),
{
    match (op, v) {
        (UnaryOp::Neg, Value::Int(n)) => if n == i64::MIN {
            Err(EvalError::Undefined)
        } else {
            Ok(Value::Int(-n))
        },
        (UnaryOp::Neg, Value::Float(f)) => Ok(Value::Float(f ^ 0x8000_0000_0000_0000u64)),
        (UnaryOp::Not, Value::Bool(b)) => Ok(Value::Bool(!b)),
        (op, v) => Err(EvalError::InvalidUnary(op, v)),
    }
}

/// Integer division rounding toward zero, of numbers whose quotient fits.
fn div_trunc(a: i64, b: i64) -> (q: i64)
    requires
        b != 0,
        fits_i64(trunc_div(a as int, b as int)),
    ensures
        q == trunc_div(a as int, b as int),
{
    let ua: u64 = if a < 0 {
        ((-(a + 1)) as u64) + 1
    } else {
        a as u64
    };
    let ub: u64 = if b < 0 {
        ((-(b + 1)) as u64) + 1
    } else {
        b as u64
    };
    let uq = ua / ub;
    assert(uq == (if a < 0 { -a } else { a as int }) / (if b < 0 { -b } else { b as int }));
    if (a < 0) == (b < 0) {
        uq as i64
    } else if uq == 0x8000_0000_0000_0000u64 {
        i64::MIN
    } else {
        -(uq as i64)
    }
}

/// A binary operator applied to two values; a floating-point operation is
/// asked for.
fn eval_binop(op: BinOp, v1: Value, v2: Value, io: &mut Interaction) -> (r: Result<Value, EvalError>)
    requires
    ensures
        final(io).answers@ == old(io).answers@,
        (outcome_model(r), final(io).io()) == binop_spec(
            op,
            v1@,
            v2@,
            answers_model(old(io)),
            old(io).io(),
        ),
{
    match (v1, v2) {
        (Value::Int(a), Value::Int(b)) => match op {
            BinOp::Add => match a.checked_add(b) {
                Some(c) => Ok(Value::Int(c)),
                None => Err(EvalError::Undefined),
            },
            BinOp::Sub => match a.checked_sub(b) {
                Some(c) => Ok(Value::Int(c)),
                None => Err(EvalError::Undefined),
            },
            BinOp::Mul => match a.checked_mul(b) {
                Some(c) => Ok(Value::Int(c)),
                None => Err(EvalError::Undefined),
            },
            BinOp::Div => {
                if b == 0 {
                    Err(EvalError::DivisionByZero)
                } else if a == i64::MIN && b == -1 {
                    proof {
                        lemma_trunc_div_fits(a, b);
                    }
                    Err(EvalError::Undefined)
                } else {
                    proof {
                        lemma_trunc_div_fits(a, b);
                    }
                    Ok(Value::Int(div_trunc(a, b)))
                }
            },
            BinOp::Eq => Ok(Value::Bool(a == b)),
            BinOp::Neq => Ok(Value::Bool(a != b)),
            BinOp::Lt => Ok(Value::Bool(a < b)),
            BinOp::Leq => Ok(Value::Bool(a <= b)),
            BinOp::Gt => Ok(Value::Bool(a > b)),
            BinOp::Geq => Ok(Value::Bool(a >= b)),
            _ => Err(EvalError::InvalidOperands(op, Value::Int(a), Value::Int(b))),
        },
        (Value::Float(a), Value::Float(b)) => match op {
            BinOp::And | BinOp::Or => Err(
                EvalError::InvalidOperands(op, Value::Float(a), Value::Float(b)),
            ),
            BinOp::Div => {
                if b == 0 || b == 0x8000_0000_0000_0000u64 {
                    Err(EvalError::FloatDivisionByZero)
                } else {
                    io.ask(Request::FloatOp(op, a, b))
                }
            },
            _ => io.ask(Request::FloatOp(op, a, b)),
        },
        (Value::Bool(a), Value::Bool(b)) => match op {
            BinOp::And => Ok(Value::Bool(a && b)),
            BinOp::Or => Ok(Value::Bool(a || b)),
            BinOp::Eq => Ok(Value::Bool(a == b)),
            BinOp::Neq => Ok(Value::Bool(a != b)),
            _ => Err(EvalError::InvalidOperands(op, Value::Bool(a), Value::Bool(b))),
        },
        (Value::Unit, Value::Unit) => match op {
            BinOp::Eq => Ok(Value::Bool(true)),
            BinOp::Neq => Ok(Value::Bool(false)),
            _ => Err(EvalError::InvalidOperands(op, Value::Unit, Value::Unit)),
        },
        (v1, v2) => Err(EvalError::InvalidOperands(op, v1, v2)),
    }
}

/// The names of a parameter list.
fn param_names(ps: &Vec<(Ident, crate::syntax::Type)>) -> (r: Vec<Ident>)
    ensures
        idents_model(r@) == Seq::new(crate::syntax::params_model(ps@).len(), |i: int| crate::syntax::params_model(ps@)[i].0),
{
    let mut out: Vec<Ident> = Vec::new();
    let mut i: usize = 0;
    while i < ps.len()
        invariant
            i <= ps.len(),
            out.len() == i,
            forall|j: int| 0 <= j < i ==> #[trigger] out@[j]@ == ps@[j].0@,
        decreases ps.len() - i,
    {
        out.push(ps[i].0.clone());
        i += 1;
    }
    assert(idents_model(out@) =~= Seq::new(crate::syntax::params_model(ps@).len(), |i: int| crate::syntax::params_model(ps@)[i].0));
    out
}

/// Evaluates `expr` under `env` with at most `fuel` nested function
/// applications, taking the answers it needs from `io` and recording there
/// what it prints.
pub fn eval(env: &Env, expr: &Expr, fuel: u64, io: &mut Interaction) -> (r: Result<Value, EvalError>)
    requires
    ensures
        final(io).answers@ == old(io).answers@,
        (outcome_model(r), final(io).io()) == eval_spec(
            fuel as nat,
            env@,
            expr@,
            answers_model(old(io)),
            old(io).io(),
        ),
    decreases fuel, expr, 2nat,
{
    match expr {
        Expr::Unit => Ok(Value::Unit),
        Expr::Bool(b) => Ok(Value::Bool(*b)),
        Expr::Int(n) => Ok(Value::Int(*n)),
        Expr::Float(f) => Ok(Value::Float(*f)),
        Expr::Var(name) => match env.get(name.as_str()) {
            Some(v) => Ok(v.clone()),
            None => Err(EvalError::UnboundVariable(name.clone())),
        },
        Expr::Ann(inner, _) => eval(env, inner, fuel, io),
        Expr::Tuple(exprs) => {
            assert(expr@->Tuple_0 =~= crate::typechecker::exprs_model(exprs@));
            eval_tuple(env, exprs, fuel, io, Ghost(expr))
        },
        Expr::TupleProjection(inner, index) => eval_projection(env, inner, *index, fuel, io, Ghost(expr)),
        Expr::PrimIO(prim_io, arg) => eval_prim_io(env, *prim_io, arg, fuel, io, Ghost(expr)),
        Expr::UnaryOp(op, inner) => eval_unary_expr(env, *op, inner, fuel, io, Ghost(expr)),
        Expr::BinOp(op, l, r) => eval_binop_expr(env, *op, l, r, fuel, io, Ghost(expr)),
        Expr::If(cond, thn, els) => eval_if(env, cond, thn, els, fuel, io, Ghost(expr)),
        Expr::Let(name, _, rhs, body) => eval_let(env, name, rhs, body, fuel, io, Ghost(expr)),
        Expr::LetRec(fname, fparams, _, fbody, body) => {
            let params = param_names(fparams);
            let rec_val = Value::RecClosure {
                env: env.clone(),
                fname: fname.clone(),
                params,
                body: (**fbody).clone(),
            };
            proof {
                lemma_closure_env(&rec_val->env);
            }
            assert(rec_val@->RecClosure_0 == env@);
            assert(rec_val@->RecClosure_2 =~= Seq::new(
                crate::syntax::params_model(fparams@).len(),
                |i: int| crate::syntax::params_model(fparams@)[i].0,
            ));
            let env2 = env.extend(fname.as_str(), rec_val);
            eval(&env2, body, fuel, io)
        },
        Expr::Lambda(params, _, body) => {
            let names = param_names(params);
            let c = Value::Closure(env.clone(), names, (**body).clone());
            proof {
                lemma_closure_env(&c->0);
            }
            assert(c@->Closure_0 == env@);
            Ok(c)
        },
        Expr::App(func, args) => {
            assert(expr@->App_1 =~= crate::typechecker::exprs_model(args@));
            eval_app(env, func, args, fuel, io, Ghost(expr))
        },
    }
}

fn eval_tuple(env: &Env, exprs: &Vec<Expr>, fuel: u64, io: &mut Interaction, Ghost(orig): Ghost<&Expr>) -> (r:
    Result<Value, EvalError>)
    requires
        orig@ == ExprV::Tuple(crate::typechecker::exprs_model(exprs@)),
        forall|j: int| 0 <= j < exprs.len() ==> decreases_to!(orig => exprs@[j]),
    ensures
        final(io).answers@ == old(io).answers@,
        (outcome_model(r), final(io).io()) == eval_spec(
            fuel as nat,
            env@,
            orig@,
            answers_model(old(io)),
            old(io).io(),
        ),
    decreases fuel, orig, 1nat,
{
    match eval_list(env, exprs, fuel, io, Ghost(orig)) {
        Ok(vals) => {
            let r = Value::Tuple(vals);
            assert(r@->Tuple_0 =~= values_model(vals@));
            Ok(r)
        },
        Err(e) => Err(e),
    }
}

fn eval_projection(
    env: &Env,
    inner: &Expr,
    index: usize,
    fuel: u64,
    io: &mut Interaction,
    Ghost(orig): Ghost<&Expr>,
) -> (r: Result<Value, EvalError>)
    requires
        orig@ == ExprV::TupleProjection(Box::new(inner@), index),
        decreases_to!(orig => inner),
    ensures
        final(io).answers@ == old(io).answers@,
        (outcome_model(r), final(io).io()) == eval_spec(
            fuel as nat,
            env@,
            orig@,
            answers_model(old(io)),
            old(io).io(),
        ),
    decreases fuel, orig, 1nat,
{
    match eval(env, inner, fuel, io) {
        Ok(Value::Tuple(vals)) => {
            if index < vals.len() {
                let v = vals[index].clone();
                assert(values_model(vals@)[index as int] == vals@[index as int]@);
                Ok(v)
            } else {
                Err(EvalError::TupleIndexOutOfBounds(index))
            }
        },
        Ok(other) => Err(EvalError::NotATuple(other)),
        Err(e) => Err(e),
    }
}

fn eval_prim_io(
    env: &Env,
    prim_io: PrimIO,
    arg: &Option<Box<Expr>>,
    fuel: u64,
    io: &mut Interaction,
    Ghost(orig): Ghost<&Expr>,
) -> (r: Result<Value, EvalError>)
    requires
        orig@ == ExprV::PrimIO(
            prim_io,
            match arg {
                Some(x) => Some(Box::new((**x)@)),
                None => None,
            },
        ),
        arg matches Some(x) ==> decreases_to!(orig => **x),
    ensures
        final(io).answers@ == old(io).answers@,
        (outcome_model(r), final(io).io()) == eval_spec(
            fuel as nat,
            env@,
            orig@,
            answers_model(old(io)),
            old(io).io(),
        ),
    decreases fuel, orig, 1nat,
{
    match arg {
        None => match prim_io {
            PrimIO::ReadInt => io.ask(Request::ReadInt),
            PrimIO::ReadFloat => io.ask(Request::ReadFloat),
            _ => Err(EvalError::Undefined),
        },
        Some(inner) => if matches!(prim_io, PrimIO::ReadInt | PrimIO::ReadFloat) {
            Err(EvalError::Undefined)
        } else {
            match eval(env, inner, fuel, io) {
                Ok(v) => {
                    io.print(prim_io, v);
                    Ok(Value::Unit)
                },
                Err(e) => Err(e),
            }
        },
    }
}

fn eval_unary_expr(
    env: &Env,
    op: UnaryOp,
    inner: &Expr,
    fuel: u64,
    io: &mut Interaction,
    Ghost(orig): Ghost<&Expr>,
) -> (r: Result<Value, EvalError>)
    requires
        orig@ == ExprV::UnaryOp(op, Box::new(inner@)),
        decreases_to!(orig => inner),
    ensures
        final(io).answers@ == old(io).answers@,
        (outcome_model(r), final(io).io()) == eval_spec(
            fuel as nat,
            env@,
            orig@,
            answers_model(old(io)),
            old(io).io(),
        ),
    decreases fuel, orig, 1nat,
{
    match eval(env, inner, fuel, io) {
        Ok(v) => eval_unary(op, v),
        Err(e) => Err(e),
    }
}

fn eval_binop_expr(
    env: &Env,
    op: BinOp,
    l: &Expr,
    r: &Expr,
    fuel: u64,
    io: &mut Interaction,
    Ghost(orig): Ghost<&Expr>,
) -> (res: Result<Value, EvalError>)
    requires
        orig@ == ExprV::BinOp(op, Box::new(l@), Box::new(r@)),
        decreases_to!(orig => l),
        decreases_to!(orig => r),
    ensures
        final(io).answers@ == old(io).answers@,
        (outcome_model(res), final(io).io()) == eval_spec(
            fuel as nat,
            env@,
            orig@,
            answers_model(old(io)),
            old(io).io(),
        ),
    decreases fuel, orig, 1nat,
{
    match eval(env, l, fuel, io) {
        Ok(v1) => match eval(env, r, fuel, io) {
            Ok(v2) => eval_binop(op, v1, v2, io),
            Err(e) => Err(e),
        },
        Err(e) => Err(e),
    }
}

fn eval_if(
    env: &Env,
    cond: &Expr,
    thn: &Expr,
    els: &Expr,
    fuel: u64,
    io: &mut Interaction,
    Ghost(orig): Ghost<&Expr>,
) -> (r: Result<Value, EvalError>)
    requires
        orig@ == ExprV::If(Box::new(cond@), Box::new(thn@), Box::new(els@)),
        decreases_to!(orig => cond),
        decreases_to!(orig => thn),
        decreases_to!(orig => els),
    ensures
        final(io).answers@ == old(io).answers@,
        (outcome_model(r), final(io).io()) == eval_spec(
            fuel as nat,
            env@,
            orig@,
            answers_model(old(io)),
            old(io).io(),
        ),
    decreases fuel, orig, 1nat,
{
    match eval(env, cond, fuel, io) {
        Ok(Value::Bool(true)) => eval(env, thn, fuel, io),
        Ok(Value::Bool(false)) => eval(env, els, fuel, io),
        Ok(other) => Err(EvalError::ConditionNotBool(other)),
        Err(e) => Err(e),
    }
}

fn eval_let(
    env: &Env,
    name: &Ident,
    rhs: &Expr,
    body: &Expr,
    fuel: u64,
    io: &mut Interaction,
    Ghost(orig): Ghost<&Expr>,
) -> (r: Result<Value, EvalError>)
    requires
        orig@ matches ExprV::Let(x, _, r, b) && x == name@ && *r == rhs@ && *b == body@,
        decreases_to!(orig => rhs),
        decreases_to!(orig => body),
    ensures
        final(io).answers@ == old(io).answers@,
        (outcome_model(r), final(io).io()) == eval_spec(
            fuel as nat,
            env@,
            orig@,
            answers_model(old(io)),
            old(io).io(),
        ),
    decreases fuel, orig, 1nat,
{
    match eval(env, rhs, fuel, io) {
        Ok(v) => {
            let env2 = env.extend(name.as_str(), v);
            eval(&env2, body, fuel, io)
        },
        Err(e) => Err(e),
    }
}

fn eval_app(
    env: &Env,
    func: &Expr,
    args: &Vec<Expr>,
    fuel: u64,
    io: &mut Interaction,
    Ghost(orig): Ghost<&Expr>,
) -> (r: Result<Value, EvalError>)
    requires
        orig@ == ExprV::App(Box::new(func@), crate::typechecker::exprs_model(args@)),
        decreases_to!(orig => func),
        forall|j: int| 0 <= j < args.len() ==> decreases_to!(orig => args@[j]),
    ensures
        final(io).answers@ == old(io).answers@,
        (outcome_model(r), final(io).io()) == eval_spec(
            fuel as nat,
            env@,
            orig@,
            answers_model(old(io)),
            old(io).io(),
        ),
    decreases fuel, orig, 1nat,
{
    match eval(env, func, fuel, io) {
        Ok(fval) => match eval_list(env, args, fuel, io, Ghost(orig)) {
            Ok(argvs) => apply(fval, argvs, fuel, io, Ghost(orig)),
            Err(e) => Err(e),
        },
        Err(e) => Err(e),
    }
}

/// Evaluates the expressions in order, stopping at the first error.
fn eval_list(env: &Env, exprs: &Vec<Expr>, fuel: u64, io: &mut Interaction, Ghost(orig): Ghost<&Expr>) -> (r:
    Result<Vec<Value>, EvalError>)
    requires
        forall|j: int| 0 <= j < exprs.len() ==> decreases_to!(orig => exprs@[j]),
    ensures
        final(io).answers@ == old(io).answers@,
        (
            match r {
                Ok(vs) => Ok(values_model(vs@)),
                Err(e) => Err(e@),
            },
            final(io).io(),
        ) == eval_list_spec(
            fuel as nat,
            env@,
            crate::typechecker::exprs_model(exprs@),
            answers_model(old(io)),
            old(io).io(),
        ),
    decreases fuel, orig, 0nat,
{
    let ghost esv = crate::typechecker::exprs_model(exprs@);
    let ghost len = exprs.len();
    let ghost ans = answers_model(io);
    let ghost io0 = io.io();
    let mut out: Vec<Value> = Vec::new();
    let mut i: usize = 0;
    proof {
        assert(esv.subrange(0, len as int) =~= esv);
        match eval_list_spec(fuel as nat, env@, esv, ans, io0) {
            (Ok(vs), _) => {
                assert(values_model(out@) + vs =~= vs);
            },
            _ => {},
        }
    }
    while i < exprs.len()
        invariant
            i <= exprs.len(),
            len == exprs.len(),
            esv == crate::typechecker::exprs_model(exprs@),
            forall|j: int| 0 <= j < exprs.len() ==> decreases_to!(orig => exprs@[j]),
            out.len() == i,
            io.answers@ == old(io).answers@,
            ans == answers_model(io),
            ans == answers_model(old(io)),
            io0 == old(io).io(),
            eval_list_spec(fuel as nat, env@, esv, ans, io0) == match eval_list_spec(
                fuel as nat,
                env@,
                esv.subrange(i as int, len as int),
                ans,
                io.io(),
            ) {
                (Ok(vs), io2) => (Ok(values_model(out@) + vs), io2),
                (Err(e), io2) => (Err(e), io2),
            },
        decreases exprs.len() - i,
    {
        let ghost tail = esv.subrange(i as int, len as int);
        assert(tail.subrange(1, tail.len() as int) =~= esv.subrange(i + 1, len as int));
        assert(tail[0] == exprs@[i as int]@);
        let ghost before = out@;
        match eval(env, &exprs[i], fuel, io) {
            Ok(v) => {
                out.push(v);
                proof {
                    assert(values_model(out@) =~= values_model(before).push(out@[i as int]@));
                    match eval_list_spec(
                        fuel as nat,
                        env@,
                        esv.subrange(i + 1, len as int),
                        ans,
                        io.io(),
                    ) {
                        (Ok(vs), _) => {
                            assert(values_model(out@) + vs =~= values_model(before) + (seq![
                                out@[i as int]@,
                            ] + vs));
                        },
                        _ => {},
                    }
                }
            },
            Err(e) => {
                return Err(e);
            },
        }
        i += 1;
    }
    proof {
        assert(esv.subrange(len as int, len as int) =~= Seq::<ExprV>::empty());
        assert(values_model(out@) + Seq::<ValueV>::empty() =~= values_model(out@));
    }
    Ok(out)
}

/// Applies a function value to arguments: too many is an error, fewer give
/// a function awaiting the rest, and as many evaluate the body with the
/// parameters bound.
fn apply(func: Value, argvs: Vec<Value>, fuel: u64, io: &mut Interaction, Ghost(orig): Ghost<&Expr>) -> (r:
    Result<Value, EvalError>)
    requires
    ensures
        final(io).answers@ == old(io).answers@,
        (outcome_model(r), final(io).io()) == apply_spec(
            fuel as nat,
            orig@,
            func@,
            values_model(argvs@),
            answers_model(old(io)),
            old(io).io(),
        ),
    decreases fuel, orig, 0nat,
{
    let ghost argsv = values_model(argvs@);
    let ghost fv = func@;
    match func {
        Value::Closure(cenv, params, body) => {
            let ghost cenv0 = cenv@;
            let ghost ps = idents_model(params@);
            proof {
                lemma_closure_env(&cenv);
            }
            assert(fv is Closure);
            assert(fv->Closure_1 == ps);
            assert(fv->Closure_2 == body@);
            assert(fv->Closure_0 == cenv0);
            assert(fv == ValueV::Closure(cenv0, ps, body@));
            if argvs.len() > params.len() {
                return Err(EvalError::TooManyArguments { expected: params.len(), got: argvs.len() });
            }
            let mut env1 = cenv;
            bind_args(&mut env1, &params, &argvs);
            if argvs.len() < params.len() {
                let rest = idents_from(&params, argvs.len());
                let c = Value::Closure(env1, rest, body);
                proof {
                    lemma_closure_env(&c->0);
                }
                assert(c@->Closure_0 == bind_params(cenv0, ps, argsv));
                assert(c@->Closure_1 == ps.subrange(argsv.len() as int, ps.len() as int));
                assert(c@ == ValueV::Closure(
                    bind_params(cenv0, ps, argsv),
                    ps.subrange(argsv.len() as int, ps.len() as int),
                    c@->Closure_2,
                ));
                Ok(c)
            } else if fuel == 0 {
                Err(EvalError::OutOfFuel)
            } else {
                eval(&env1, &body, fuel - 1, io)
            }
        },
        Value::RecClosure { env: cenv, fname, params, body } => {
            let ghost cenv0 = cenv@;
            let ghost ps = idents_model(params@);
            proof {
                lemma_closure_env(&cenv);
            }
            assert(fv is RecClosure);
            assert(fv->RecClosure_0 == cenv0);
            assert(fv->RecClosure_1 == fname@);
            assert(fv->RecClosure_2 == ps);
            assert(fv->RecClosure_3 == body@);
            if argvs.len() > params.len() {
                return Err(EvalError::TooManyArguments { expected: params.len(), got: argvs.len() });
            }
            let self_val = Value::RecClosure {
                env: cenv.clone(),
                fname: fname.clone(),
                params: clone_idents(&params),
                body: body.clone(),
            };
            proof {
                lemma_closure_env(&self_val->env);
            }
            assert(self_val@->RecClosure_0 == cenv0);
            assert(self_val@ == ValueV::RecClosure(cenv0, fname@, ps, body@));
            let mut env1 = cenv;
            env1.insert(fname.clone(), self_val);
            bind_args(&mut env1, &params, &argvs);
            if argvs.len() < params.len() {
                let rest = idents_from(&params, argvs.len());
                let ghost env1v = env1@;
                let c = Value::RecClosure { env: env1, fname, params: rest, body };
                proof {
                    lemma_closure_env(&c->env);
                }
                assert(c@->RecClosure_0 == env1v);
                assert(c@->RecClosure_2 == ps.subrange(argsv.len() as int, ps.len() as int));
                Ok(c)
            } else if fuel == 0 {
                Err(EvalError::OutOfFuel)
            } else {
                eval(&env1, &body, fuel - 1, io)
            }
        },
        other => Err(EvalError::NotAFunction(other)),
    }
}

/// Binds each parameter to its argument, in order, as far as there are
/// arguments.
fn bind_args(env: &mut Env, params: &Vec<Ident>, argvs: &Vec<Value>)
    requires
        argvs.len() <= params.len(),
    ensures
        final(env)@ == bind_params(old(env)@, idents_model(params@), values_model(argvs@)),
{
    let ghost e0 = env@;
    let ghost ps = idents_model(params@);
    let ghost avs = values_model(argvs@);
    let mut i: usize = 0;
    while i < argvs.len()
        invariant
            i <= argvs.len() <= params.len(),
            ps == idents_model(params@),
            avs == values_model(argvs@),
            env@ == e0 + Seq::new(i as nat, |j: int| (ps[j], avs[j])),
        decreases argvs.len() - i,
    {
        let ghost before = env@;
        env.insert(params[i].clone(), argvs[i].clone());
        assert(env@ =~= e0 + Seq::new((i + 1) as nat, |j: int| (ps[j], avs[j])));
        i += 1;
    }
    assert(Seq::new(i as nat, |j: int| (ps[j], avs[j])) =~= Seq::new(
        if avs.len() < ps.len() {
            avs.len()
        } else {
            ps.len()
        },
        |j: int| (ps[j], avs[j]),
    ));
}

/// Evaluates a whole program, from the empty environment, with as many
/// nested applications as a `u64` counts.  Where evaluation is undefined
/// (an `i64` overflow, a malformed primitive operation) the result is
/// `Err(EvalError::Undefined)`, for the caller to act on.
pub fn eval_top(expr: &Expr, io: &mut Interaction) -> (r: Result<Value, EvalError>)
    requires
    ensures
        final(io).answers@ == old(io).answers@,
        (outcome_model(r), final(io).io()) == eval_spec(
            u64::MAX as nat,
            Seq::empty(),
            expr@,
            answers_model(old(io)),
            old(io).io(),
        ),
{
    let env = Env::new();
    eval(&env, expr, u64::MAX, io)
}

/// Applying a closure to some of its arguments and the result to the rest
/// is applying it to all of them at once, when there are not too many: the
/// first application gives the closure with the first arguments bound and
/// the remaining parameters.  (A recursive closure is not covered: its
/// partial application rebinds its own name to the partial closure.)
pub proof fn lemma_partial_application(
    fuel: nat,
    site: ExprV,
    cenv: Seq<(Seq<char>, ValueV)>,
    params: Seq<Seq<char>>,
    body: ExprV,
    a: Seq<ValueV>,
    b: Seq<ValueV>,
    answers: Seq<ValueV>,
    io: IoV,
)
    requires
        a.len() < params.len(),
        a.len() + b.len() <= params.len(),
    ensures
        apply_spec(fuel, site, ValueV::Closure(cenv, params, body), a, answers, io) == (
            Ok::<ValueV, EvalErrorV>(
                ValueV::Closure(
                    bind_params(cenv, params, a),
                    params.subrange(a.len() as int, params.len() as int),
                    body,
                ),
            ),
            io,
        ),
        apply_spec(
            fuel,
            site,
            ValueV::Closure(
                bind_params(cenv, params, a),
                params.subrange(a.len() as int, params.len() as int),
                body,
            ),
            b,
            answers,
            io,
        ) == apply_spec(fuel, site, ValueV::Closure(cenv, params, body), a + b, answers, io),
{
    let k = a.len();
    let rest = params.subrange(k as int, params.len() as int);
    let env_a = bind_params(cenv, params, a);
    assert(bind_params(env_a, rest, b) =~= bind_params(cenv, params, a + b)) by {
        let lhs = bind_params(env_a, rest, b);
        let rhs = bind_params(cenv, params, a + b);
        assert(lhs.len() == rhs.len());
        assert forall|i: int| 0 <= i < lhs.len() implies lhs[i] == rhs[i] by {
            if i < cenv.len() + k {
                if i >= cenv.len() {
                    assert((a + b)[i - cenv.len()] == a[i - cenv.len()]);
                }
            } else {
                let j = i - cenv.len() - k;
                assert(rest[j] == params[j + k]);
                assert((a + b)[j + k] == b[j]);
            }
        }
    }
    assert(rest.subrange(b.len() as int, rest.len() as int) =~= params.subrange(
        (a + b).len() as int,
        params.len() as int,
    ));
}

/// The outcome is a request for work from outside.
pub open spec fn is_pending<T>(r: Result<T, EvalErrorV>) -> bool {
    r matches Err(EvalErrorV::Pending(_))
}

/// What answering more requests keeps: an outcome reached with the answers
/// `a` is reached, with the same answers used and the same things printed,
/// with `a` followed by any further answers; and evaluation asks for more
/// only once it has used all of `a`.
pub open spec fn answers_extend_ok<T>(
    r: (Result<T, EvalErrorV>, IoV),
    r_more: (Result<T, EvalErrorV>, IoV),
    a: Seq<ValueV>,
) -> bool {
    &&& r.1.0 <= a.len()
    &&& !is_pending(r.0) ==> r_more == r
    &&& is_pending(r.0) ==> r.1.0 == a.len()
}

proof fn lemma_ask_extend(a: Seq<ValueV>, b: Seq<ValueV>, io: IoV, req: Request)
    requires
        io.0 <= a.len(),
    ensures
        answers_extend_ok(ask(a, io, req), ask(a + b, io, req), a),
{
    if io.0 < a.len() {
        assert((a + b)[io.0 as int] == a[io.0 as int]);
    }
}

proof fn lemma_binop_extend(op: BinOp, v1: ValueV, v2: ValueV, a: Seq<ValueV>, b: Seq<ValueV>, io: IoV)
    requires
        io.0 <= a.len(),
    ensures
        answers_extend_ok(binop_spec(op, v1, v2, a, io), binop_spec(op, v1, v2, a + b, io), a),
{
    match (v1, v2) {
        (ValueV::Float(x), ValueV::Float(y)) => {
            lemma_ask_extend(a, b, io, Request::FloatOp(op, x, y));
        },
        _ => {},
    }
}

proof fn lemma_eval_extend(
    fuel: nat,
    env: Seq<(Seq<char>, ValueV)>,
    e: ExprV,
    a: Seq<ValueV>,
    b: Seq<ValueV>,
    io: IoV,
)
    requires
        io.0 <= a.len(),
    ensures
        answers_extend_ok(eval_spec(fuel, env, e, a, io), eval_spec(fuel, env, e, a + b, io), a),
    decreases fuel, e, 1nat,
{
    match e {
        ExprV::Ann(inner, _) => {
            lemma_eval_extend(fuel, env, *inner, a, b, io);
        },
        ExprV::Tuple(es) => {
            lemma_eval_list_extend(fuel, env, es, a, b, io);
        },
        ExprV::TupleProjection(inner, _) => {
            lemma_eval_extend(fuel, env, *inner, a, b, io);
        },
        ExprV::PrimIO(p, arg) => match arg {
            None => {
                lemma_ask_extend(a, b, io, Request::ReadInt);
                lemma_ask_extend(a, b, io, Request::ReadFloat);
            },
            Some(x) => {
                lemma_eval_extend(fuel, env, *x, a, b, io);
            },
        },
        ExprV::UnaryOp(_, x) => {
            lemma_eval_extend(fuel, env, *x, a, b, io);
        },
        ExprV::BinOp(op, l, r) => {
            lemma_eval_extend(fuel, env, *l, a, b, io);
            let (r1, io1) = eval_spec(fuel, env, *l, a, io);
            if r1 is Ok {
                lemma_eval_extend(fuel, env, *r, a, b, io1);
                let (r2, io2) = eval_spec(fuel, env, *r, a, io1);
                if r2 is Ok {
                    lemma_binop_extend(op, r1->Ok_0, r2->Ok_0, a, b, io2);
                }
            }
        },
        ExprV::If(c, t, f) => {
            lemma_eval_extend(fuel, env, *c, a, b, io);
            let (r1, io1) = eval_spec(fuel, env, *c, a, io);
            lemma_eval_extend(fuel, env, *t, a, b, io1);
            lemma_eval_extend(fuel, env, *f, a, b, io1);
        },
        ExprV::Let(x, _, rhs, body) => {
            lemma_eval_extend(fuel, env, *rhs, a, b, io);
            let (r1, io1) = eval_spec(fuel, env, *rhs, a, io);
            if r1 is Ok {
                lemma_eval_extend(fuel, env.push((x, r1->Ok_0)), *body, a, b, io1);
            }
        },
        ExprV::LetRec(f, ps, _, fbody, body) => {
            let rec = ValueV::RecClosure(env, f, Seq::new(ps.len(), |i: int| ps[i].0), *fbody);
            lemma_eval_extend(fuel, env.push((f, rec)), *body, a, b, io);
        },
        ExprV::App(func, args) => {
            lemma_eval_extend(fuel, env, *func, a, b, io);
            let (r1, io1) = eval_spec(fuel, env, *func, a, io);
            if r1 is Ok {
                lemma_eval_list_extend(fuel, env, args, a, b, io1);
                let (r2, io2) = eval_list_spec(fuel, env, args, a, io1);
                if r2 is Ok {
                    lemma_apply_extend(fuel, e, r1->Ok_0, r2->Ok_0, a, b, io2);
                }
            }
        },
        _ => {},
    }
}

proof fn lemma_eval_list_extend(
    fuel: nat,
    env: Seq<(Seq<char>, ValueV)>,
    es: Seq<ExprV>,
    a: Seq<ValueV>,
    b: Seq<ValueV>,
    io: IoV,
)
    requires
        io.0 <= a.len(),
    ensures
        answers_extend_ok(
            eval_list_spec(fuel, env, es, a, io),
            eval_list_spec(fuel, env, es, a + b, io),
            a,
        ),
    decreases fuel, es, 0nat,
{
    if es.len() > 0 {
        lemma_eval_extend(fuel, env, es[0], a, b, io);
        let (r1, io1) = eval_spec(fuel, env, es[0], a, io);
        if r1 is Ok {
            lemma_eval_list_extend(fuel, env, es.subrange(1, es.len() as int), a, b, io1);
        }
    }
}

proof fn lemma_apply_extend(
    fuel: nat,
    site: ExprV,
    fv: ValueV,
    argvs: Seq<ValueV>,
    a: Seq<ValueV>,
    b: Seq<ValueV>,
    io: IoV,
)
    requires
        io.0 <= a.len(),
    ensures
        answers_extend_ok(
            apply_spec(fuel, site, fv, argvs, a, io),
            apply_spec(fuel, site, fv, argvs, a + b, io),
            a,
        ),
    decreases fuel, site, 0nat,
{
    if fuel > 0 {
        match fv {
            ValueV::Closure(cenv, params, body) => {
                lemma_eval_extend(
                    (fuel - 1) as nat,
                    bind_params(cenv, params, argvs),
                    body,
                    a,
                    b,
                    io,
                );
            },
            ValueV::RecClosure(cenv, fname, params, body) => {
                let env1 = bind_params(
                    cenv.push((fname, ValueV::RecClosure(cenv, fname, params, body))),
                    params,
                    argvs,
                );
                lemma_eval_extend((fuel - 1) as nat, env1, body, a, b, io);
            },
            _ => {},
        }
    }
}

/// Giving evaluation more answers than it used changes nothing: an
/// outcome that is not a request stays the same, with the same answers
/// used and the same things printed; and evaluation makes a request only
/// once it has used every answer it was given.  So a driver that answers
/// each request and evaluates again reaches the outcome that evaluation
/// with every answer known from the start would give.
pub proof fn lemma_more_answers_change_nothing(expr: ExprV, a: Seq<ValueV>, b: Seq<ValueV>)
    ensures
        answers_extend_ok(
            eval_spec(u64::MAX as nat, Seq::empty(), expr, a, (0, Seq::empty())),
            eval_spec(u64::MAX as nat, Seq::empty(), expr, a + b, (0, Seq::empty())),
            a,
        ),
{
    lemma_eval_extend(u64::MAX as nat, Seq::empty(), expr, a, b, (0, Seq::empty()));
}

/// The expression `x op y`.
pub open spec fn bin_expr(op: BinOp, x: ExprV, y: ExprV) -> ExprV {
    ExprV::BinOp(op, Box::new(x), Box::new(y))
}

/// The outcome of evaluating `e` is the value `v`, with nothing asked,
/// used or printed.
pub open spec fn gives(
    fuel: nat,
    env: Seq<(Seq<char>, ValueV)>,
    e: ExprV,
    answers: Seq<ValueV>,
    io: IoV,
    v: ValueV,
) -> bool {
    eval_spec(fuel, env, e, answers, io) == (Ok::<ValueV, EvalErrorV>(v), io)
}

/// The outcome of evaluating `e` is the integer `n`, with nothing asked,
/// used or printed.
pub open spec fn gives_int(
    fuel: nat,
    env: Seq<(Seq<char>, ValueV)>,
    e: ExprV,
    answers: Seq<ValueV>,
    io: IoV,
    n: int,
) -> bool {
    eval_spec(fuel, env, e, answers, io).1 == io && int_outcome(eval_spec(fuel, env, e, answers, io).0)
        == Some(n)
}

/// The integer an outcome holds, if it holds one.
pub open spec fn int_outcome(r: Result<ValueV, EvalErrorV>) -> Option<int> {
    match r {
        Ok(ValueV::Int(k)) => Some(k as int),
        _ => None,
    }
}

/// The operators on integers, booleans and the unit value mean what they
/// say: sums, differences and products are exact where they fit in an
/// `i64`; a quotient rounds toward zero, its remainder keeping the sign of
/// the dividend; comparisons and equality compare the operand values, and
/// conjunction, disjunction and negation are the logical ones.
pub proof fn lemma_base_operators(
    fuel: nat,
    env: Seq<(Seq<char>, ValueV)>,
    answers: Seq<ValueV>,
    io: IoV,
    a: i64,
    b: i64,
    p: bool,
    q: bool,
)
    ensures
        fits_i64(a + b) ==> gives_int(fuel, env, bin_expr(BinOp::Add, ExprV::Int(a), ExprV::Int(b)), answers, io, a + b),
        fits_i64(a - b) ==> gives_int(fuel, env, bin_expr(BinOp::Sub, ExprV::Int(a), ExprV::Int(b)), answers, io, a - b),
        fits_i64(a * b) ==> gives_int(fuel, env, bin_expr(BinOp::Mul, ExprV::Int(a), ExprV::Int(b)), answers, io, a * b),
        b != 0 && !(a == i64::MIN && b == -1) ==> (eval_spec(
            fuel,
            env,
            bin_expr(BinOp::Div, ExprV::Int(a), ExprV::Int(b)),
            answers,
            io,
        ).0 is Ok && int_outcome(eval_spec(fuel, env, bin_expr(BinOp::Div, ExprV::Int(a), ExprV::Int(b)), answers, io).0) is Some && ({
            let k = int_outcome(eval_spec(fuel, env, bin_expr(BinOp::Div, ExprV::Int(a), ExprV::Int(b)), answers, io).0)->0;
            let r = a - k * b;
            &&& -(if b < 0 { -b } else { b as int }) < r < (if b < 0 { -b } else { b as int })
            &&& (r == 0 || (r > 0) == (a > 0))
        })),
        b == 0 ==> eval_spec(fuel, env, bin_expr(BinOp::Div, ExprV::Int(a), ExprV::Int(b)), answers, io).0
            == Err::<ValueV, EvalErrorV>(EvalErrorV::DivisionByZero),
        gives(fuel, env, bin_expr(BinOp::Eq, ExprV::Int(a), ExprV::Int(b)), answers, io, ValueV::Bool(a == b)),
        gives(fuel, env, bin_expr(BinOp::Neq, ExprV::Int(a), ExprV::Int(b)), answers, io, ValueV::Bool(a != b)),
        gives(fuel, env, bin_expr(BinOp::Lt, ExprV::Int(a), ExprV::Int(b)), answers, io, ValueV::Bool(a < b)),
        gives(fuel, env, bin_expr(BinOp::Leq, ExprV::Int(a), ExprV::Int(b)), answers, io, ValueV::Bool(a <= b)),
        gives(fuel, env, bin_expr(BinOp::Gt, ExprV::Int(a), ExprV::Int(b)), answers, io, ValueV::Bool(a > b)),
        gives(fuel, env, bin_expr(BinOp::Geq, ExprV::Int(a), ExprV::Int(b)), answers, io, ValueV::Bool(a >= b)),
        gives(fuel, env, bin_expr(BinOp::And, ExprV::Bool(p), ExprV::Bool(q)), answers, io, ValueV::Bool(p && q)),
        gives(fuel, env, bin_expr(BinOp::Or, ExprV::Bool(p), ExprV::Bool(q)), answers, io, ValueV::Bool(p || q)),
        gives(fuel, env, bin_expr(BinOp::Eq, ExprV::Bool(p), ExprV::Bool(q)), answers, io, ValueV::Bool(p == q)),
        gives(fuel, env, bin_expr(BinOp::Neq, ExprV::Bool(p), ExprV::Bool(q)), answers, io, ValueV::Bool(p != q)),
        gives(fuel, env, bin_expr(BinOp::Eq, ExprV::Unit, ExprV::Unit), answers, io, ValueV::Bool(true)),
        gives(fuel, env, bin_expr(BinOp::Neq, ExprV::Unit, ExprV::Unit), answers, io, ValueV::Bool(false)),
        gives(
            fuel,
            env,
            ExprV::UnaryOp(UnaryOp::Not, Box::new(ExprV::Bool(p))),
            answers,
            io,
            ValueV::Bool(!p),
        ),
        a != i64::MIN ==> gives_int(fuel, env, ExprV::UnaryOp(UnaryOp::Neg, Box::new(ExprV::Int(a))), answers, io, -a),
{
    reveal_with_fuel(eval_spec, 3);
    if b != 0 && !(a == i64::MIN && b == -1) {
        lemma_trunc_div_fits(a, b);
        lemma_trunc_div_remainder(a as int, b as int);
    }
}

/// The remainder of a quotient rounded toward zero is smaller than the
/// divisor in size and has the sign of the dividend.
proof fn lemma_trunc_div_remainder(a: int, b: int)
    requires
        b != 0,
    ensures
        ({
            let r = a - trunc_div(a, b) * b;
            &&& -(if b < 0 { -b } else { b }) < r < (if b < 0 { -b } else { b })
            &&& (r == 0 || (r > 0) == (a > 0))
        }),
{
    let ua: int = if a < 0 { -a } else { a };
    let ub: int = if b < 0 { -b } else { b };
    let q = ua / ub;
    let r0 = ua % ub;
    assert(ua == q * ub + r0 && 0 <= r0 < ub) by (nonlinear_arith)
        requires
            ub > 0,
            ua >= 0,
            q == ua / ub,
            r0 == ua % ub,
    ;
    let t = trunc_div(a, b);
    if (a < 0) == (b < 0) {
        assert(t == q);
        assert(t * b == q * ub * (if b < 0 { -1int } else { 1 })) by (nonlinear_arith)
            requires
                t == q,
                ub == (if b < 0 { -b } else { b }),
        ;
        if a < 0 {
            assert(a - t * b == -r0) by (nonlinear_arith)
                requires
                    t * b == q * ub * (if b < 0 { -1int } else { 1 }),
                    b < 0,
                    ua == -a,
                    ua == q * ub + r0,
            ;
        } else {
            assert(a - t * b == r0) by (nonlinear_arith)
                requires
                    t * b == q * ub * (if b < 0 { -1int } else { 1 }),
                    b >= 0,
                    ua == a,
                    ua == q * ub + r0,
            ;
        }
    } else {
        assert(t == -q);
        if a < 0 {
            assert(a - t * b == -r0) by (nonlinear_arith)
                requires
                    t == -q,
                    b > 0,
                    ub == b,
                    ua == -a,
                    ua == q * ub + r0,
            ;
        } else {
            assert(a - t * b == r0) by (nonlinear_arith)
                requires
                    t == -q,
                    b < 0,
                    ub == -b,
                    ua == a,
                    ua == q * ub + r0,
            ;
        }
    }
}

/// A conditional on a boolean literal evaluates the branch it selects:
/// the first where the literal is true, the second where it is false.
pub proof fn lemma_if_selects(
    fuel: nat,
    env: Seq<(Seq<char>, ValueV)>,
    answers: Seq<ValueV>,
    io: IoV,
    p: bool,
    x: ExprV,
    y: ExprV,
)
    ensures
        eval_spec(fuel, env, ExprV::If(Box::new(ExprV::Bool(p)), Box::new(x), Box::new(y)), answers, io)
            == eval_spec(fuel, env, if p { x } else { y }, answers, io),
{
    reveal_with_fuel(eval_spec, 2);
}

/// A `let` binds its variable to the value of its right-hand side in the
/// body, the innermost binding of a name hiding the outer ones, and other
/// variables keep their values.
pub proof fn lemma_let_binds(
    fuel: nat,
    env: Seq<(Seq<char>, ValueV)>,
    answers: Seq<ValueV>,
    io: IoV,
    x: Seq<char>,
    y: Seq<char>,
    a: i64,
    b: i64,
)
    ensures
        gives(
            fuel,
            env,
            ExprV::Let(x, None, Box::new(ExprV::Int(a)), Box::new(ExprV::Var(x))),
            answers,
            io,
            ValueV::Int(a),
        ),
        gives(
            fuel,
            env,
            ExprV::Let(
                x,
                None,
                Box::new(ExprV::Int(a)),
                Box::new(ExprV::Let(x, None, Box::new(ExprV::Int(b)), Box::new(ExprV::Var(x)))),
            ),
            answers,
            io,
            ValueV::Int(b),
        ),
        x != y ==> gives(
            fuel,
            env,
            ExprV::Let(
                x,
                None,
                Box::new(ExprV::Int(a)),
                Box::new(ExprV::Let(y, None, Box::new(ExprV::Int(b)), Box::new(ExprV::Var(x)))),
            ),
            answers,
            io,
            ValueV::Int(a),
        ),
{
    reveal_with_fuel(eval_spec, 3);
    reveal_with_fuel(env_lookup, 3);
}

/// Projection picks the component at its index, counting from zero, and
/// an index past the last component is an error.
pub proof fn lemma_projection_picks(
    fuel: nat,
    env: Seq<(Seq<char>, ValueV)>,
    answers: Seq<ValueV>,
    io: IoV,
    a: i64,
    b: i64,
)
    ensures
        gives(
            fuel,
            env,
            ExprV::TupleProjection(Box::new(ExprV::Tuple(seq![ExprV::Int(a), ExprV::Int(b)])), 0),
            answers,
            io,
            ValueV::Int(a),
        ),
        gives(
            fuel,
            env,
            ExprV::TupleProjection(Box::new(ExprV::Tuple(seq![ExprV::Int(a), ExprV::Int(b)])), 1),
            answers,
            io,
            ValueV::Int(b),
        ),
        eval_spec(
            fuel,
            env,
            ExprV::TupleProjection(Box::new(ExprV::Tuple(seq![ExprV::Int(a), ExprV::Int(b)])), 2),
            answers,
            io,
        ).0 == Err::<ValueV, EvalErrorV>(EvalErrorV::TupleIndexOutOfBounds(2)),
{
    lemma_eval_two_ints(fuel, env, answers, io, a, b);
    let es = seq![ExprV::Int(a), ExprV::Int(b)];
    let vs = seq![ValueV::Int(a), ValueV::Int(b)];
    assert(eval_spec(fuel, env, ExprV::Tuple(es), answers, io) == (Ok::<ValueV, EvalErrorV>(ValueV::Tuple(vs)), io));
    assert(vs[0] == ValueV::Int(a));
    assert(vs[1] == ValueV::Int(b));
}

/// Applying a function binds its parameters to the arguments in order:
/// `(fun x y -> x - y) a b` is `a - b`, with at least one application of
/// fuel, for distinct parameter names.
pub proof fn lemma_application_binds_in_order(
    fuel: nat,
    env: Seq<(Seq<char>, ValueV)>,
    answers: Seq<ValueV>,
    io: IoV,
    x: Seq<char>,
    y: Seq<char>,
    a: i64,
    b: i64,
)
    requires
        fuel >= 1,
        x != y,
        fits_i64(a - b),
    ensures
        gives_int(
            fuel,
            env,
            ExprV::App(
                Box::new(
                    ExprV::Lambda(
                        seq![(x, TypeV::Int), (y, TypeV::Int)],
                        None,
                        Box::new(bin_expr(BinOp::Sub, ExprV::Var(x), ExprV::Var(y))),
                    ),
                ),
                seq![ExprV::Int(a), ExprV::Int(b)],
            ),
            answers,
            io,
            a - b,
        ),
{
    lemma_eval_two_ints(fuel, env, answers, io, a, b);
    let vs = seq![ValueV::Int(a), ValueV::Int(b)];
    let ps = seq![(x, TypeV::Int), (y, TypeV::Int)];
    let body = bin_expr(BinOp::Sub, ExprV::Var(x), ExprV::Var(y));
    let lam = ExprV::Lambda(ps, None, Box::new(body));
    let names = Seq::new(ps.len(), |i: int| ps[i].0);
    assert(names =~= seq![x, y]);
    assert(eval_spec(fuel, env, lam, answers, io) == (Ok::<ValueV, EvalErrorV>(ValueV::Closure(env, names, body)), io));
    let benv = bind_params(env, names, vs);
    assert(benv =~= env.push((x, ValueV::Int(a))).push((y, ValueV::Int(b))));
    assert(env_lookup(benv, y) == Some(ValueV::Int(b)));
    assert(benv.drop_last() =~= env.push((x, ValueV::Int(a))));
    assert(env_lookup(benv.drop_last(), x) == Some(ValueV::Int(a)));
    assert(env_lookup(benv, x) == Some(ValueV::Int(a)));
    let f1 = (fuel - 1) as nat;
    assert(eval_spec(f1, benv, ExprV::Var(x), answers, io) == (Ok::<ValueV, EvalErrorV>(ValueV::Int(a)), io));
    assert(eval_spec(f1, benv, ExprV::Var(y), answers, io) == (Ok::<ValueV, EvalErrorV>(ValueV::Int(b)), io));
    assert(eval_spec(f1, benv, body, answers, io) == (int_result(a - b), io));
    let app = ExprV::App(Box::new(lam), seq![ExprV::Int(a), ExprV::Int(b)]);
    assert(apply_spec(fuel, app, ValueV::Closure(env, names, body), vs, answers, io) == eval_spec(
        f1,
        benv,
        body,
        answers,
        io,
    ));
}

/// Evaluating the list of two integer literals gives the two integers.
proof fn lemma_eval_two_ints(
    fuel: nat,
    env: Seq<(Seq<char>, ValueV)>,
    answers: Seq<ValueV>,
    io: IoV,
    a: i64,
    b: i64,
)
    ensures
        eval_list_spec(fuel, env, seq![ExprV::Int(a), ExprV::Int(b)], answers, io) == (
            Ok::<Seq<ValueV>, EvalErrorV>(seq![ValueV::Int(a), ValueV::Int(b)]),
            io,
        ),
{
    let e0 = Seq::<ExprV>::empty();
    let e1 = seq![ExprV::Int(b)];
    let e2 = seq![ExprV::Int(a), ExprV::Int(b)];
    assert(eval_list_spec(fuel, env, e0, answers, io) == (Ok::<Seq<ValueV>, EvalErrorV>(Seq::empty()), io));
    assert(e1.subrange(1, 1) =~= e0);
    assert(eval_spec(fuel, env, e1[0], answers, io) == (Ok::<ValueV, EvalErrorV>(ValueV::Int(b)), io));
    assert(seq![ValueV::Int(b)] + Seq::<ValueV>::empty() =~= seq![ValueV::Int(b)]);
    assert(eval_list_spec(fuel, env, e1, answers, io) == (
        Ok::<Seq<ValueV>, EvalErrorV>(seq![ValueV::Int(b)]),
        io,
    ));
    assert(e2.subrange(1, 2) =~= e1);
    assert(eval_spec(fuel, env, e2[0], answers, io) == (Ok::<ValueV, EvalErrorV>(ValueV::Int(a)), io));
    assert(seq![ValueV::Int(a)] + seq![ValueV::Int(b)] =~= seq![ValueV::Int(a), ValueV::Int(b)]);
}

/// A floating-point operation is asked for with its operator and its
/// operands' bits, left operand first, and its answer is its value; a
/// floating-point division by zero is an error, and conjunction or
/// disjunction of floats is ill-typed.
pub proof fn lemma_float_operators_ask(
    fuel: nat,
    env: Seq<(Seq<char>, ValueV)>,
    answers: Seq<ValueV>,
    io: IoV,
    op: BinOp,
    a: u64,
    b: u64,
)
    ensures
        !(op == BinOp::And || op == BinOp::Or) && !(op == BinOp::Div && is_float_zero(b)) ==> eval_spec(
            fuel,
            env,
            bin_expr(op, ExprV::Float(a), ExprV::Float(b)),
            answers,
            io,
        ) == (if io.0 < answers.len() {
            (Ok::<ValueV, EvalErrorV>(answers[io.0 as int]), (io.0 + 1, io.1))
        } else {
            (Err::<ValueV, EvalErrorV>(EvalErrorV::Pending(Request::FloatOp(op, a, b))), io)
        }),
        op == BinOp::Div && is_float_zero(b) ==> eval_spec(
            fuel,
            env,
            bin_expr(op, ExprV::Float(a), ExprV::Float(b)),
            answers,
            io,
        ).0 == Err::<ValueV, EvalErrorV>(EvalErrorV::FloatDivisionByZero),
        (op == BinOp::And || op == BinOp::Or) ==> eval_spec(
            fuel,
            env,
            bin_expr(op, ExprV::Float(a), ExprV::Float(b)),
            answers,
            io,
        ).0 is Err,
{
    reveal_with_fuel(eval_spec, 3);
}

} // verus!
