use intu::eval::{eval_top, EvalError, Interaction, Request, Value};
use intu::syntax::{
    a_let, ann, app, bin_op, bool, float, if_else, int_lit, lambda, let_rec, print_bool,
    print_float, print_int, read_float, read_int, tuple, tuple_projection, ty_arrow, ty_bool,
    ty_int, unary, unit, var, BinOp, Expr, PrimIO, UnaryOp,
};

/// Performs a request the way a driver would: floating-point work on the
/// `f64` values, and console input from `input`.
fn answer(req: Request, input: &mut Vec<Value>) -> Value {
    match req {
        Request::FloatOp(op, a, b) => {
            let (x, y) = (f64::from_bits(a), f64::from_bits(b));
            match op {
                BinOp::Add => Value::Float((x + y).to_bits()),
                BinOp::Sub => Value::Float((x - y).to_bits()),
                BinOp::Mul => Value::Float((x * y).to_bits()),
                BinOp::Div => Value::Float((x / y).to_bits()),
                BinOp::Eq => Value::Bool(x == y),
                BinOp::Neq => Value::Bool(x != y),
                BinOp::Lt => Value::Bool(x < y),
                BinOp::Leq => Value::Bool(x <= y),
                BinOp::Gt => Value::Bool(x > y),
                BinOp::Geq => Value::Bool(x >= y),
                _ => panic!("not a floating-point operation"),
            }
        },
        Request::ReadInt | Request::ReadFloat => input.remove(0),
    }
}

/// Evaluates, answering requests until evaluation ends; returns the
/// outcome and what was printed.
fn drive(expr: &Expr, mut input: Vec<Value>) -> (Result<Value, EvalError>, Vec<(PrimIO, Value)>) {
    let mut answers: Vec<Value> = Vec::new();
    loop {
        let mut io = Interaction::new(answers.clone());
        match eval_top(expr, &mut io) {
            Err(EvalError::Pending(req)) => answers.push(answer(req, &mut input)),
            other => return (other, io.printed),
        }
    }
}

fn run(expr: Expr) -> Value {
    drive(&expr, vec![]).0.unwrap()
}

fn run_err(expr: Expr) -> EvalError {
    drive(&expr, vec![]).0.unwrap_err()
}

fn f(x: f64) -> Expr {
    float(x.to_bits())
}

fn fv(x: f64) -> Value {
    Value::Float(x.to_bits())
}

#[test]
fn test_literals() {
    assert_eq!(run(unit()), Value::Unit);
    assert_eq!(run(bool(true)), Value::Bool(true));
    assert_eq!(run(bool(false)), Value::Bool(false));
    assert_eq!(run(int_lit(42)), Value::Int(42));
    assert_eq!(run(f(3.14)), fv(3.14));
}

#[test]
fn test_int_arith() {
    assert_eq!(run(bin_op(BinOp::Add, int_lit(1), int_lit(2))), Value::Int(3));
    assert_eq!(run(bin_op(BinOp::Sub, int_lit(10), int_lit(3))), Value::Int(7));
    assert_eq!(run(bin_op(BinOp::Mul, int_lit(6), int_lit(7))), Value::Int(42));
    assert_eq!(run(bin_op(BinOp::Div, int_lit(10), int_lit(3))), Value::Int(3));
    assert_eq!(
        run(bin_op(BinOp::Mul, bin_op(BinOp::Add, int_lit(1), int_lit(2)), int_lit(3))),
        Value::Int(9)
    );
    assert_eq!(
        run(bin_op(BinOp::Sub, bin_op(BinOp::Sub, int_lit(10), int_lit(3)), int_lit(2))),
        Value::Int(5)
    );
}

#[test]
fn test_float_arith() {
    assert_eq!(run(bin_op(BinOp::Add, f(1.0), f(2.0))), fv(3.0));
    assert_eq!(run(bin_op(BinOp::Div, f(6.0), f(2.0))), fv(3.0));
}

#[test]
fn test_div_by_zero() {
    assert!(run_err(bin_op(BinOp::Div, int_lit(1), int_lit(0))).message().contains("division by zero"));
}

#[test]
fn error_messages_name_the_fault() {
    let e = run_err(bin_op(BinOp::Div, int_lit(1), int_lit(0)));
    assert_eq!(e, EvalError::DivisionByZero);
    assert_eq!(e.message(), "division by zero");
    let e = run_err(bin_op(BinOp::Div, f(1.0), f(0.0)));
    assert_eq!(e.message(), "division by zero (float)");
    assert_eq!(EvalError::UnboundVariable("y".to_string()).message(), "unbound variable: y");
    assert_eq!(EvalError::TupleIndexOutOfBounds(12).message(), "tuple index 12 out of bounds");
    assert_eq!(
        EvalError::TooManyArguments { expected: 2, got: 3 }.message(),
        "too many arguments: expected 2, got 3"
    );
    assert_eq!(
        EvalError::InvalidOperands(BinOp::Add, Value::Int(1), Value::Bool(true)).message(),
        "type error in Add"
    );
    assert_eq!(EvalError::InvalidUnary(UnaryOp::Not, Value::Int(1)).message(), "type error in unary Not");
}

#[test]
fn test_unary() {
    assert_eq!(run(unary(UnaryOp::Neg, int_lit(5))), Value::Int(-5));
    assert_eq!(run(unary(UnaryOp::Neg, f(3.0))), fv(-3.0));
    assert_eq!(run(unary(UnaryOp::Not, bool(true))), Value::Bool(false));
    assert_eq!(run(unary(UnaryOp::Not, unary(UnaryOp::Not, bool(false)))), Value::Bool(false));
}

#[test]
fn test_cmp() {
    assert_eq!(run(bin_op(BinOp::Lt, int_lit(1), int_lit(2))), Value::Bool(true));
    assert_eq!(run(bin_op(BinOp::Gt, int_lit(2), int_lit(3))), Value::Bool(false));
    assert_eq!(run(bin_op(BinOp::Eq, int_lit(3), int_lit(3))), Value::Bool(true));
    assert_eq!(run(bin_op(BinOp::Neq, int_lit(3), int_lit(4))), Value::Bool(true));
    assert_eq!(run(bin_op(BinOp::Leq, int_lit(2), int_lit(2))), Value::Bool(true));
    assert_eq!(run(bin_op(BinOp::Geq, int_lit(2), int_lit(3))), Value::Bool(false));
}

#[test]
fn test_logic() {
    assert_eq!(run(bin_op(BinOp::And, bool(true), bool(false))), Value::Bool(false));
    assert_eq!(run(bin_op(BinOp::Or, bool(true), bool(false))), Value::Bool(true));
}

#[test]
fn test_if() {
    assert_eq!(run(if_else(bool(true), int_lit(1), int_lit(2))), Value::Int(1));
    assert_eq!(run(if_else(bool(false), int_lit(1), int_lit(2))), Value::Int(2));
    assert_eq!(
        run(if_else(bin_op(BinOp::Lt, int_lit(1), int_lit(2)), int_lit(10), int_lit(20))),
        Value::Int(10)
    );
    assert_eq!(
        run(if_else(bool(true), if_else(bool(false), int_lit(1), int_lit(2)), int_lit(3))),
        Value::Int(2)
    );
}

#[test]
fn test_let() {
    assert_eq!(run(a_let("x", None, int_lit(1), var("x"))), Value::Int(1));
    assert_eq!(
        run(a_let("x", Some(ty_int()), int_lit(5), bin_op(BinOp::Add, var("x"), int_lit(1)))),
        Value::Int(6)
    );
    assert_eq!(
        run(a_let(
            "x",
            None,
            int_lit(1),
            a_let("y", None, int_lit(2), bin_op(BinOp::Add, var("x"), var("y")))
        )),
        Value::Int(3)
    );
}

#[test]
fn test_lambda_apply() {
    assert_eq!(
        run(app(lambda(vec![("x".to_string(), ty_int())], None, var("x")), vec![int_lit(42)])),
        Value::Int(42)
    );
    assert_eq!(
        run(app(
            lambda(
                vec![("x".to_string(), ty_int()), ("y".to_string(), ty_int())],
                None,
                bin_op(BinOp::Add, var("x"), var("y"))
            ),
            vec![int_lit(3), int_lit(4)]
        )),
        Value::Int(7)
    );
}

#[test]
fn test_higher_order() {
    let expr = a_let(
        "apply",
        None,
        lambda(
            vec![("f".to_string(), ty_arrow(ty_int(), ty_int())), ("x".to_string(), ty_int())],
            None,
            app(var("f"), vec![var("x")]),
        ),
        a_let(
            "double",
            None,
            lambda(vec![("x".to_string(), ty_int())], None, bin_op(BinOp::Mul, var("x"), int_lit(2))),
            app(var("apply"), vec![var("double"), int_lit(21)]),
        ),
    );
    assert_eq!(run(expr), Value::Int(42));
}

#[test]
fn test_higher_order_closure() {
    let expr = a_let(
        "apply",
        None,
        lambda(
            vec![("f".to_string(), ty_arrow(ty_int(), ty_int())), ("x".to_string(), ty_int())],
            None,
            app(var("f"), vec![var("x")]),
        ),
        a_let(
            "double",
            None,
            lambda(vec![("x".to_string(), ty_int())], None, bin_op(BinOp::Mul, var("x"), int_lit(2))),
            app(var("apply"), vec![var("double")]),
        ),
    );
    let apply_closure = run(expr);
    assert!(matches!(apply_closure, Value::Closure(_, _, _)));
}

#[test]
fn test_factorial() {
    let expr = let_rec(
        "fact",
        vec![("n".to_string(), ty_int())],
        ty_int(),
        if_else(
            bin_op(BinOp::Eq, var("n"), int_lit(0)),
            int_lit(1),
            bin_op(
                BinOp::Mul,
                var("n"),
                app(var("fact"), vec![bin_op(BinOp::Sub, var("n"), int_lit(1))]),
            ),
        ),
        app(var("fact"), vec![int_lit(10)]),
    );
    assert_eq!(run(expr), Value::Int(3628800));
}

#[test]
fn test_fib() {
    let expr = let_rec(
        "fib",
        vec![("n".to_string(), ty_int())],
        ty_int(),
        if_else(
            bin_op(BinOp::Leq, var("n"), int_lit(1)),
            var("n"),
            bin_op(
                BinOp::Add,
                app(var("fib"), vec![bin_op(BinOp::Sub, var("n"), int_lit(1))]),
                app(var("fib"), vec![bin_op(BinOp::Sub, var("n"), int_lit(2))]),
            ),
        ),
        app(var("fib"), vec![int_lit(10)]),
    );
    assert_eq!(run(expr), Value::Int(55));
}

#[test]
fn test_letrec_multi_arg() {
    let expr = let_rec(
        "add",
        vec![("x".to_string(), ty_int()), ("y".to_string(), ty_int())],
        ty_int(),
        bin_op(BinOp::Add, var("x"), var("y")),
        app(var("add"), vec![int_lit(19), int_lit(23)]),
    );
    assert_eq!(run(expr), Value::Int(42));
}

#[test]
fn test_ann() {
    assert_eq!(run(ann(int_lit(42), ty_int())), Value::Int(42));
    assert_eq!(run(ann(bool(true), ty_bool())), Value::Bool(true));
}

#[test]
fn test_tuple() {
    assert_eq!(
        run(tuple(vec![int_lit(1), bool(true), f(3.14)])),
        Value::Tuple(vec![Value::Int(1), Value::Bool(true), fv(3.14)])
    );
}

#[test]
fn test_nested_tuple() {
    assert_eq!(
        run(tuple(vec![int_lit(1), tuple(vec![bool(true), f(2.0)])])),
        Value::Tuple(vec![Value::Int(1), Value::Tuple(vec![Value::Bool(true), fv(2.0)])])
    );
}

#[test]
fn eval_test_tuple_projection() {
    assert_eq!(run(tuple_projection(tuple(vec![int_lit(1), bool(true), f(3.14)]), 0)), Value::Int(1));
    assert_eq!(run(tuple_projection(tuple(vec![int_lit(1), bool(true), f(3.14)]), 2)), fv(3.14));
}

#[test]
fn eval_test_tuple_projection_nested() {
    assert_eq!(
        run(tuple_projection(tuple_projection(tuple(vec![int_lit(1), tuple(vec![bool(true)])]), 1), 0)),
        Value::Bool(true)
    );
}

#[test]
fn test_tuple_projection_out_of_bounds() {
    assert!(drive(&tuple_projection(tuple(vec![int_lit(1)]), 3), vec![]).0.is_err());
}

#[test]
fn test_tuple_projection_non_tuple() {
    assert!(drive(&tuple_projection(int_lit(1), 0), vec![]).0.is_err());
}

#[test]
fn eval_test_print_int() {
    assert_eq!(run(print_int(int_lit(42))), Value::Unit);
}

#[test]
fn eval_test_print_bool() {
    assert_eq!(run(print_bool(bool(true))), Value::Unit);
}

#[test]
fn eval_test_print_float() {
    assert_eq!(run(print_float(f(3.14))), Value::Unit);
}

#[test]
fn test_unbound_var() {
    assert!(drive(&var("foo"), vec![]).0.is_err());
}

#[test]
fn errors_name_their_cause() {
    assert_eq!(run_err(var("foo")), EvalError::UnboundVariable("foo".to_string()));
    assert_eq!(run_err(tuple_projection(tuple(vec![int_lit(1)]), 3)), EvalError::TupleIndexOutOfBounds(3));
    assert_eq!(run_err(tuple_projection(int_lit(1), 0)), EvalError::NotATuple(Value::Int(1)));
    assert_eq!(run_err(if_else(int_lit(1), unit(), unit())), EvalError::ConditionNotBool(Value::Int(1)));
    assert_eq!(
        run_err(app(lambda(vec![("x".to_string(), ty_int())], None, var("x")), vec![int_lit(1), int_lit(2)])),
        EvalError::TooManyArguments { expected: 1, got: 2 }
    );
    assert_eq!(run_err(app(int_lit(3), vec![int_lit(1)])), EvalError::NotAFunction(Value::Int(3)));
    assert_eq!(run_err(unary(UnaryOp::Not, int_lit(1))), EvalError::InvalidUnary(UnaryOp::Not, Value::Int(1)));
    assert_eq!(run_err(bin_op(BinOp::Div, f(1.0), f(-0.0))), EvalError::FloatDivisionByZero);
    assert_eq!(
        run_err(bin_op(BinOp::Add, int_lit(1), bool(true))),
        EvalError::InvalidOperands(BinOp::Add, Value::Int(1), Value::Bool(true))
    );
}

#[test]
fn integer_division_rounds_toward_zero() {
    assert_eq!(run(bin_op(BinOp::Div, int_lit(-7), int_lit(2))), Value::Int(-3));
    assert_eq!(run(bin_op(BinOp::Div, int_lit(7), int_lit(-2))), Value::Int(-3));
    assert_eq!(run(bin_op(BinOp::Div, int_lit(-7), int_lit(-2))), Value::Int(3));
    assert_eq!(run(bin_op(BinOp::Div, int_lit(i64::MIN), int_lit(1))), Value::Int(i64::MIN));
}

#[test]
fn partial_application_waits_for_the_rest() {
    let add = lambda(
        vec![("x".to_string(), ty_int()), ("y".to_string(), ty_int())],
        None,
        bin_op(BinOp::Add, var("x"), var("y")),
    );
    let expr = a_let("inc", None, app(add, vec![int_lit(1)]), app(var("inc"), vec![int_lit(41)]));
    assert_eq!(run(expr), Value::Int(42));
}

#[test]
fn requests_come_in_order_and_prints_are_recorded() {
    let expr = a_let(
        "a",
        None,
        read_int(),
        a_let(
            "b",
            None,
            read_float(),
            tuple(vec![print_int(var("a")), print_float(bin_op(BinOp::Mul, var("b"), f(2.0)))]),
        ),
    );
    let (r, printed) = drive(&expr, vec![Value::Int(5), fv(1.5)]);
    assert_eq!(r, Ok(Value::Tuple(vec![Value::Unit, Value::Unit])));
    assert_eq!(printed, vec![(PrimIO::PrintInt, Value::Int(5)), (PrimIO::PrintFloat, fv(3.0))]);

    let mut io = Interaction::new(vec![]);
    assert_eq!(eval_top(&expr, &mut io), Err(EvalError::Pending(Request::ReadInt)));
    let mut io = Interaction::new(vec![Value::Int(5)]);
    assert_eq!(eval_top(&expr, &mut io), Err(EvalError::Pending(Request::ReadFloat)));
    let mut io = Interaction::new(vec![Value::Int(5), fv(1.5)]);
    assert_eq!(
        eval_top(&expr, &mut io),
        Err(EvalError::Pending(Request::FloatOp(BinOp::Mul, 1.5f64.to_bits(), 2.0f64.to_bits())))
    );
    assert_eq!(io.used, 2);
    assert_eq!(io.printed, vec![(PrimIO::PrintInt, Value::Int(5))]);
}

#[test]
fn float_negation_flips_the_sign() {
    assert_eq!(run(unary(UnaryOp::Neg, f(0.0))), fv(-0.0));
    assert_eq!(run(unary(UnaryOp::Neg, f(-2.5))), fv(2.5));
}

#[test]
fn integer_overflow_is_reported_undefined() {
    assert_eq!(run_err(bin_op(BinOp::Add, int_lit(i64::MAX), int_lit(1))), EvalError::Undefined);
    assert_eq!(run_err(bin_op(BinOp::Mul, int_lit(i64::MAX), int_lit(2))), EvalError::Undefined);
    assert_eq!(run_err(bin_op(BinOp::Div, int_lit(i64::MIN), int_lit(-1))), EvalError::Undefined);
    assert_eq!(run_err(unary(UnaryOp::Neg, int_lit(i64::MIN))), EvalError::Undefined);
    assert_eq!(run(bin_op(BinOp::Div, int_lit(i64::MIN), int_lit(1))), Value::Int(i64::MIN));
}
