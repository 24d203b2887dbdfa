use intu::remove_complex::{remove_complex, MonAtom, MonExpr};
use intu::syntax::{BinOp, Expr, Type, UnaryOp};

fn test(expr: Expr) -> MonExpr {
    remove_complex(&expr)
}

#[test]
fn test_atom() {
    assert_eq!(test(Expr::Int(42)), MonExpr::Atom(MonAtom::Int(42)));
}

#[test]
fn test_binop_atom() {
    assert_eq!(
        test(Expr::BinOp(BinOp::Add, Box::new(Expr::Int(1)), Box::new(Expr::Int(2)),)),
        MonExpr::BinOp(BinOp::Add, MonAtom::Int(1), MonAtom::Int(2),)
    );
}

#[test]
fn test_binop_right_complex() {
    assert_eq!(
        test(Expr::BinOp(
            BinOp::Add,
            Box::new(Expr::Int(1)),
            Box::new(Expr::BinOp(BinOp::Mul, Box::new(Expr::Int(2)), Box::new(Expr::Int(3)),)),
        )),
        MonExpr::Let(
            "$0".into(),
            None,
            Box::new(MonExpr::BinOp(BinOp::Mul, MonAtom::Int(2), MonAtom::Int(3),)),
            Box::new(MonExpr::BinOp(BinOp::Add, MonAtom::Int(1), MonAtom::Var("$0".into()),))
        )
    );
}

#[test]
fn test_unary_complex() {
    assert_eq!(
        test(Expr::UnaryOp(
            UnaryOp::Neg,
            Box::new(Expr::BinOp(BinOp::Add, Box::new(Expr::Int(1)), Box::new(Expr::Int(2)),)),
        )),
        MonExpr::Let(
            "$0".into(),
            None,
            Box::new(MonExpr::BinOp(BinOp::Add, MonAtom::Int(1), MonAtom::Int(2),)),
            Box::new(MonExpr::UnaryOp(UnaryOp::Neg, MonAtom::Var("$0".into())))
        )
    );
}

#[test]
fn test_if_complex_condition() {
    assert_eq!(
        test(Expr::If(
            Box::new(Expr::BinOp(BinOp::Gt, Box::new(Expr::Var("x".into())), Box::new(Expr::Int(0)),)),
            Box::new(Expr::Int(1)),
            Box::new(Expr::Int(2)),
        )),
        MonExpr::Let(
            "$0".into(),
            None,
            Box::new(MonExpr::BinOp(BinOp::Gt, MonAtom::Var("x".into()), MonAtom::Int(0),)),
            Box::new(MonExpr::If(
                MonAtom::Var("$0".into()),
                Box::new(MonExpr::Atom(MonAtom::Int(1))),
                Box::new(MonExpr::Atom(MonAtom::Int(2))),
            ))
        )
    );
}

#[test]
fn test_app_complex_arg() {
    assert_eq!(
        test(Expr::App(
            Box::new(Expr::Var("f".into())),
            vec![Expr::BinOp(BinOp::Add, Box::new(Expr::Int(1)), Box::new(Expr::Int(2)),)],
        )),
        MonExpr::Let(
            "$0".into(),
            None,
            Box::new(MonExpr::BinOp(BinOp::Add, MonAtom::Int(1), MonAtom::Int(2),)),
            Box::new(MonExpr::App(MonAtom::Var("f".into()), vec![MonAtom::Var("$0".into())],))
        )
    );
}

fn add(a: Expr, b: Expr) -> Expr {
    Expr::BinOp(BinOp::Add, Box::new(a), Box::new(b))
}

#[test]
fn both_operands_complex_left_bound_first() {
    let e = Expr::BinOp(
        BinOp::Mul,
        Box::new(add(Expr::Int(1), Expr::Int(2))),
        Box::new(add(Expr::Int(3), Expr::Int(4))),
    );
    assert_eq!(
        test(e),
        MonExpr::Let(
            "$0".into(),
            None,
            Box::new(MonExpr::BinOp(BinOp::Add, MonAtom::Int(1), MonAtom::Int(2))),
            Box::new(MonExpr::Let(
                "$1".into(),
                None,
                Box::new(MonExpr::BinOp(BinOp::Add, MonAtom::Int(3), MonAtom::Int(4))),
                Box::new(MonExpr::BinOp(
                    BinOp::Mul,
                    MonAtom::Var("$0".into()),
                    MonAtom::Var("$1".into())
                )),
            )),
        )
    );
}

#[test]
fn left_complex_right_atom() {
    let e = Expr::BinOp(BinOp::Sub, Box::new(add(Expr::Int(1), Expr::Int(2))), Box::new(Expr::Bool(true)));
    assert_eq!(
        test(e),
        MonExpr::Let(
            "$0".into(),
            None,
            Box::new(MonExpr::BinOp(BinOp::Add, MonAtom::Int(1), MonAtom::Int(2))),
            Box::new(MonExpr::BinOp(BinOp::Sub, MonAtom::Var("$0".into()), MonAtom::Bool(true))),
        )
    );
}

#[test]
fn app_complex_function_and_args_first_binding_outermost() {
    let f = Expr::Ann(Box::new(Expr::Var("g".into())), Type::Int);
    let e = Expr::App(
        Box::new(Expr::If(Box::new(Expr::Bool(true)), Box::new(Expr::Var("g".into())), Box::new(f))),
        vec![add(Expr::Int(1), Expr::Int(2)), Expr::Unit, add(Expr::Int(3), Expr::Int(4))],
    );
    assert_eq!(
        test(e),
        MonExpr::Let(
            "$0".into(),
            None,
            Box::new(MonExpr::If(
                MonAtom::Bool(true),
                Box::new(MonExpr::Atom(MonAtom::Var("g".into()))),
                Box::new(MonExpr::Atom(MonAtom::Var("g".into()))),
            )),
            Box::new(MonExpr::Let(
                "$1".into(),
                None,
                Box::new(MonExpr::BinOp(BinOp::Add, MonAtom::Int(1), MonAtom::Int(2))),
                Box::new(MonExpr::Let(
                    "$2".into(),
                    None,
                    Box::new(MonExpr::BinOp(BinOp::Add, MonAtom::Int(3), MonAtom::Int(4))),
                    Box::new(MonExpr::App(
                        MonAtom::Var("$0".into()),
                        vec![MonAtom::Var("$1".into()), MonAtom::Unit, MonAtom::Var("$2".into())],
                    )),
                )),
            )),
        )
    );
}

#[test]
fn let_letrec_lambda_keep_their_binders() {
    let e = Expr::Let(
        "x".into(),
        Some(Type::Int),
        Box::new(Expr::Int(1)),
        Box::new(Expr::LetRec(
            "f".into(),
            vec![("n".into(), Type::Int)],
            Type::Int,
            Box::new(Expr::Var("n".into())),
            Box::new(Expr::Lambda(vec![("y".into(), Type::Float)], None, Box::new(Expr::Float(2.5f64.to_bits())))),
        )),
    );
    assert_eq!(
        test(e),
        MonExpr::Let(
            "x".into(),
            Some(Type::Int),
            Box::new(MonExpr::Atom(MonAtom::Int(1))),
            Box::new(MonExpr::LetRec(
                "f".into(),
                vec![("n".into(), Type::Int)],
                Type::Int,
                Box::new(MonExpr::Atom(MonAtom::Var("n".into()))),
                Box::new(MonExpr::Lambda(
                    vec![("y".into(), Type::Float)],
                    None,
                    Box::new(MonExpr::Atom(MonAtom::Float(2.5f64.to_bits()))),
                )),
            )),
        )
    );
}
