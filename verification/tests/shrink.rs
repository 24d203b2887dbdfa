use intu::shrink::shrink;
use intu::syntax::{BinOp, Type};
use intu::typechecker::{t_bin_op, t_bool, t_if, t_int, t_var};

#[test]
fn and_becomes_if_with_false() {
    let e = t_bin_op(BinOp::And, t_var("a", Type::Bool), t_var("b", Type::Bool), Type::Bool);
    let expected = t_if(t_var("a", Type::Bool), t_var("b", Type::Bool), t_bool(false), Type::Bool);
    assert_eq!(shrink(e), expected);
}

#[test]
fn or_becomes_if_with_true() {
    let e = t_bin_op(BinOp::Or, t_var("a", Type::Bool), t_bool(false), Type::Bool);
    let expected = t_if(t_var("a", Type::Bool), t_bool(true), t_bool(false), Type::Bool);
    assert_eq!(shrink(e), expected);
}

#[test]
fn other_expressions_stay() {
    let e = t_bin_op(BinOp::Add, t_int(1), t_int(2), Type::Int);
    let same = t_bin_op(BinOp::Add, t_int(1), t_int(2), Type::Int);
    assert_eq!(shrink(e), same);
    assert_eq!(shrink(t_int(4)), t_int(4));
}
