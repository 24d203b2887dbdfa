use intu::syntax::{
    a_let, ann, app, bin_op, bool, float, if_else, int_lit, lambda, let_rec, print_bool,
    print_float, print_int, read_float, read_int, ty_bool, ty_int, tuple, tuple_projection,
    unary, unit, var, BinOp, Expr, Type, UnaryOp,
};
use intu::typechecker::{typecheck, typecheck_with_ctx, Context, TypeError, TypedExpr};

fn infer_type(expr: Expr) -> Result<Type, TypeError> {
    typecheck(expr).map(|(ty, _)| ty)
}

fn f(x: f64) -> Expr {
    float(x.to_bits())
}

#[test]
fn test_unit() {
    assert_eq!(infer_type(unit()), Ok(Type::Unit));
}

#[test]
fn test_bool() {
    assert_eq!(infer_type(bool(true)), Ok(Type::Bool));
}

#[test]
fn test_int() {
    assert_eq!(infer_type(int_lit(42)), Ok(Type::Int));
}

#[test]
fn test_float() {
    assert_eq!(infer_type(f(3.14)), Ok(Type::Float));
}

#[test]
fn test_neg_int() {
    assert_eq!(infer_type(unary(UnaryOp::Neg, int_lit(1))), Ok(Type::Int));
}

#[test]
fn test_neg_float() {
    assert_eq!(infer_type(unary(UnaryOp::Neg, f(1.0))), Ok(Type::Float));
}

#[test]
fn test_neg_bool_err() {
    assert!(infer_type(unary(UnaryOp::Neg, bool(true))).is_err());
}

#[test]
fn test_not_bool() {
    assert_eq!(infer_type(unary(UnaryOp::Not, bool(false))), Ok(Type::Bool));
}

#[test]
fn test_not_int_err() {
    assert!(infer_type(unary(UnaryOp::Not, int_lit(0))).is_err());
}

#[test]
fn test_add_int() {
    assert_eq!(infer_type(bin_op(BinOp::Add, int_lit(1), int_lit(2))), Ok(Type::Int));
}

#[test]
fn test_add_float() {
    assert_eq!(infer_type(bin_op(BinOp::Add, f(1.0), f(2.0))), Ok(Type::Float));
}

#[test]
fn test_add_int_float_err() {
    assert!(infer_type(bin_op(BinOp::Add, int_lit(1), f(2.0))).is_err());
}

#[test]
fn test_lt_int() {
    assert_eq!(infer_type(bin_op(BinOp::Lt, int_lit(1), int_lit(2))), Ok(Type::Bool));
}

#[test]
fn test_eq_any_type() {
    assert_eq!(infer_type(bin_op(BinOp::Eq, bool(true), bool(false))), Ok(Type::Bool));
}

#[test]
fn test_eq_type_mismatch_err() {
    assert!(infer_type(bin_op(BinOp::Eq, int_lit(1), bool(true))).is_err());
}

#[test]
fn test_and_bool() {
    assert_eq!(infer_type(bin_op(BinOp::And, bool(true), bool(false))), Ok(Type::Bool));
}

#[test]
fn test_if_ok() {
    assert_eq!(infer_type(if_else(bool(true), int_lit(1), int_lit(0))), Ok(Type::Int));
}

#[test]
fn test_if_cond_not_bool_err() {
    assert!(infer_type(if_else(int_lit(1), int_lit(2), int_lit(3))).is_err());
}

#[test]
fn test_if_branch_mismatch_err() {
    assert!(infer_type(if_else(bool(true), int_lit(1), bool(false))).is_err());
}

#[test]
fn test_let_no_ann() {
    assert_eq!(infer_type(a_let("x", None, int_lit(1), var("x"))), Ok(Type::Int));
}

#[test]
fn test_let_with_correct_ann() {
    assert_eq!(infer_type(a_let("x", Some(ty_int()), int_lit(1), var("x"))), Ok(Type::Int));
}

#[test]
fn test_let_wrong_ann_err() {
    assert!(infer_type(a_let("x", Some(ty_bool()), int_lit(1), var("x"))).is_err());
}

#[test]
fn test_lambda_identity_int() {
    assert_eq!(
        infer_type(lambda(vec![("x".to_string(), ty_int())], None, var("x"))),
        Ok(Type::Arrow(Box::new(Type::Int), Box::new(Type::Int)))
    );
}

#[test]
fn test_lambda_multi_param() {
    assert_eq!(
        infer_type(lambda(
            vec![("x".to_string(), ty_int()), ("y".to_string(), ty_int())],
            None,
            bin_op(BinOp::Add, var("x"), var("y"))
        )),
        Ok(Type::Arrow(
            Box::new(Type::Int),
            Box::new(Type::Arrow(Box::new(Type::Int), Box::new(Type::Int)))
        ))
    );
}

#[test]
fn test_let_lambda() {
    assert_eq!(
        infer_type(a_let(
            "add",
            None,
            lambda(
                vec![("x".to_string(), ty_int()), ("y".to_string(), ty_int())],
                None,
                bin_op(BinOp::Add, var("x"), var("y"))
            ),
            var("add")
        )),
        Ok(Type::Arrow(
            Box::new(Type::Int),
            Box::new(Type::Arrow(Box::new(Type::Int), Box::new(Type::Int)))
        ))
    );
}

#[test]
fn test_app_lambda() {
    assert_eq!(
        infer_type(app(
            lambda(vec![("x".to_string(), ty_int())], Some(ty_int()), var("x")),
            vec![int_lit(42)]
        )),
        Ok(Type::Int)
    );
}

#[test]
fn test_app_wrong_arg_type_err() {
    assert!(infer_type(app(
        lambda(vec![("x".to_string(), ty_int())], None, var("x")),
        vec![bool(true)]
    ))
    .is_err());
}

#[test]
fn test_app_not_function_err() {
    assert!(infer_type(app(int_lit(42), vec![int_lit(1)])).is_err());
}

#[test]
fn test_function_ret_mismatch() {
    assert!(infer_type(lambda(
        vec![("x".to_string(), ty_int())],
        Some(ty_int()),
        bin_op(BinOp::Leq, var("x"), int_lit(37))
    ))
    .is_err());
}

#[test]
fn test_letrec_factorial() {
    assert_eq!(
        infer_type(let_rec(
            "fact",
            vec![("n".to_string(), ty_int())],
            ty_int(),
            if_else(
                bin_op(BinOp::Eq, var("n"), int_lit(0)),
                int_lit(1),
                bin_op(
                    BinOp::Mul,
                    var("n"),
                    app(var("fact"), vec![bin_op(BinOp::Sub, var("n"), int_lit(1))])
                )
            ),
            app(var("fact"), vec![int_lit(5)])
        )),
        Ok(Type::Int)
    );
}

#[test]
fn test_letrec_wrong_body_type_err() {
    assert!(infer_type(let_rec(
        "f",
        vec![("n".to_string(), ty_int())],
        ty_int(),
        bool(true),
        app(var("f"), vec![int_lit(0)])
    ))
    .is_err());
}

#[test]
fn test_ann_ok() {
    assert_eq!(infer_type(ann(int_lit(1), ty_int())), Ok(Type::Int));
}

#[test]
fn test_ann_mismatch_err() {
    assert!(infer_type(ann(int_lit(1), ty_bool())).is_err());
}

#[test]
fn test_unbound_variable_err() {
    assert!(infer_type(var("foo")).is_err());
}

#[test]
fn test_tuple_type() {
    assert_eq!(
        infer_type(tuple(vec![int_lit(1), bool(true), f(3.14)])),
        Ok(Type::Tuple(vec![Type::Int, Type::Bool, Type::Float]))
    );
}

#[test]
fn test_nested_tuple_type() {
    assert_eq!(
        infer_type(tuple(vec![int_lit(1), tuple(vec![bool(true), f(2.0)])])),
        Ok(Type::Tuple(vec![Type::Int, Type::Tuple(vec![Type::Bool, Type::Float])]))
    );
}

#[test]
fn test_tuple_projection() {
    let expr = tuple_projection(tuple(vec![int_lit(1), bool(true), f(3.14)]), 1);
    assert_eq!(infer_type(expr), Ok(Type::Bool));
}

#[test]
fn test_tuple_projection_nested() {
    let expr = tuple_projection(
        tuple_projection(tuple(vec![int_lit(1), tuple(vec![bool(true)])]), 1),
        0,
    );
    assert_eq!(infer_type(expr), Ok(Type::Bool));
}

#[test]
fn test_tuple_projection_out_of_bounds_err() {
    let expr = tuple_projection(tuple(vec![int_lit(1), bool(true)]), 5);
    assert!(infer_type(expr).is_err());
}

#[test]
fn test_tuple_projection_non_tuple_err() {
    let expr = tuple_projection(int_lit(1), 0);
    assert!(infer_type(expr).is_err());
}

#[test]
fn test_print_int() {
    assert_eq!(infer_type(print_int(int_lit(42))), Ok(Type::Int));
}

#[test]
fn test_print_bool() {
    assert_eq!(infer_type(print_bool(bool(true))), Ok(Type::Bool));
}

#[test]
fn test_print_float() {
    assert_eq!(infer_type(print_float(f(3.14))), Ok(Type::Float));
}

#[test]
fn test_read_int() {
    assert_eq!(infer_type(read_int()), Ok(Type::Unit));
}

#[test]
fn test_read_float() {
    assert_eq!(infer_type(read_float()), Ok(Type::Unit));
}

// ---- exact errors and typed results ----

#[test]
fn error_unbound_variable_names_it() {
    assert_eq!(infer_type(var("foo")), Err(TypeError::UnboundVariable("foo".to_string())));
}

#[test]
fn error_invalid_operands_carries_operator_name() {
    assert_eq!(
        infer_type(bin_op(BinOp::Add, int_lit(1), bool(true))),
        Err(TypeError::InvalidOperands {
            op: "Add".to_string(),
            left: Type::Int,
            right: Type::Bool
        })
    );
}

#[test]
fn error_invalid_unary_symbols() {
    assert_eq!(
        infer_type(unary(UnaryOp::Neg, bool(true))),
        Err(TypeError::InvalidUnary { op: "-".to_string(), ty: Type::Bool })
    );
    assert_eq!(
        infer_type(unary(UnaryOp::Not, int_lit(1))),
        Err(TypeError::InvalidUnary { op: "!".to_string(), ty: Type::Int })
    );
}

#[test]
fn error_branch_mismatch_and_cond() {
    assert_eq!(
        infer_type(if_else(int_lit(1), int_lit(2), int_lit(3))),
        Err(TypeError::Mismatch { expected: Type::Bool, found: Type::Int })
    );
    assert_eq!(
        infer_type(if_else(bool(true), int_lit(1), bool(false))),
        Err(TypeError::BranchMismatch { then_ty: Type::Int, else_ty: Type::Bool })
    );
}

#[test]
fn error_tuple_index_and_not_a_tuple() {
    assert_eq!(
        infer_type(tuple_projection(tuple(vec![int_lit(1), bool(true)]), 5)),
        Err(TypeError::TupleIndexOutOfBounds { len: 2, index: 5 })
    );
    assert_eq!(
        infer_type(tuple_projection(int_lit(1), 0)),
        Err(TypeError::NotATuple(Type::Int))
    );
}

#[test]
fn error_not_a_function_and_return_mismatch() {
    assert_eq!(
        infer_type(app(int_lit(42), vec![int_lit(1)])),
        Err(TypeError::NotAFunction(Type::Int))
    );
    assert_eq!(
        infer_type(lambda(vec![("x".to_string(), ty_int())], Some(ty_bool()), var("x"))),
        Err(TypeError::ReturnTypeMismatch { expected: Type::Bool, found: Type::Int })
    );
}

#[test]
fn app_with_no_args_keeps_function_type() {
    let lam = lambda(vec![("x".to_string(), ty_int())], None, var("x"));
    assert_eq!(
        infer_type(app(lam, vec![])),
        Ok(Type::Arrow(Box::new(Type::Int), Box::new(Type::Int)))
    );
}

#[test]
fn annotation_is_dropped_from_typed_expr() {
    let (_, te) = typecheck(ann(int_lit(1), ty_int())).unwrap();
    assert_eq!(te, TypedExpr::Int(1));
}

#[test]
fn typed_let_records_rhs_type() {
    let (_, te) = typecheck(a_let("x", None, int_lit(1), var("x"))).unwrap();
    assert_eq!(
        te,
        TypedExpr::Let(
            "x".to_string(),
            Type::Int,
            Box::new(TypedExpr::Int(1)),
            Box::new(TypedExpr::Var("x".to_string(), Type::Int)),
            Type::Int
        )
    );
}

#[test]
fn context_lookup_and_extend() {
    let ctx = Context::new();
    assert!(ctx.lookup("x").is_none());
    let ctx = ctx.extend("x".to_string(), Type::Int);
    let ctx = ctx.extend("x".to_string(), Type::Bool);
    assert_eq!(ctx.lookup("x"), Some(&Type::Bool));
    assert_eq!(typecheck_with_ctx(&ctx, var("x")).map(|(t, _)| t), Ok(Type::Bool));
}

#[test]
fn type_to_string_forms() {
    let t = Type::Arrow(
        Box::new(Type::Arrow(Box::new(Type::Int), Box::new(Type::Bool))),
        Box::new(Type::Tuple(vec![Type::Unit, Type::Float])),
    );
    assert_eq!(t.to_string(), "(Int -> Bool) -> (Unit, Float)");
    assert_eq!(Type::Tuple(vec![]).to_string(), "()");
    assert_eq!(Type::Var("a".to_string()).to_string(), "a");
    assert_eq!(BinOp::Neq.to_string(), "<>");
    assert_eq!(UnaryOp::Not.to_string(), "!");
}

#[test]
fn typed_nodes_carry_their_rule_types() {
    // let x = 1 in if x < 2 then x + 1 else 0
    let e = a_let(
        "x",
        None,
        int_lit(1),
        if_else(
            bin_op(BinOp::Lt, var("x"), int_lit(2)),
            bin_op(BinOp::Add, var("x"), int_lit(1)),
            int_lit(0),
        ),
    );
    let (ty, te) = typecheck(e).unwrap();
    assert_eq!(ty, Type::Int);
    match te {
        TypedExpr::Let(name, xt, rhs, body, t) => {
            assert_eq!(name, "x");
            assert_eq!(xt, Type::Int);
            assert_eq!(*rhs, TypedExpr::Int(1));
            assert_eq!(t, Type::Int);
            match *body {
                TypedExpr::If(c, a, b, t2) => {
                    assert_eq!(c.type_of(), Type::Bool);
                    assert_eq!(a.type_of(), Type::Int);
                    assert_eq!(b.type_of(), Type::Int);
                    assert_eq!(t2, Type::Int);
                    match *c {
                        TypedExpr::BinOp(BinOp::Lt, l, _, _) => {
                            assert_eq!(*l, TypedExpr::Var("x".to_string(), Type::Int));
                        },
                        other => panic!("unexpected condition {:?}", other),
                    }
                },
                other => panic!("unexpected body {:?}", other),
            }
        },
        other => panic!("unexpected {:?}", other),
    }
}
