use comprehensive_rust::expr::{eval, evaluate, EvalError, Expression, Operation};

#[test]
fn test_value() {
    assert_eq!(eval(Expression::Value(19)), Ok(19));
}

#[test]
fn test_sum() {
    assert_eq!(
        eval(Expression::Op {
            op: Operation::Add,
            left: Box::new(Expression::Value(10)),
            right: Box::new(Expression::Value(20)),
        }),
        Ok(30)
    );
}

#[test]
fn test_recursion() {
    let term1 = Expression::Op {
        op: Operation::Mul,
        left: Box::new(Expression::Value(10)),
        right: Box::new(Expression::Value(9)),
    };
    let term2 = Expression::Op {
        op: Operation::Mul,
        left: Box::new(Expression::Op {
            op: Operation::Sub,
            left: Box::new(Expression::Value(3)),
            right: Box::new(Expression::Value(4)),
        }),
        right: Box::new(Expression::Value(5)),
    };
    assert_eq!(
        eval(Expression::Op {
            op: Operation::Add,
            left: Box::new(term1),
            right: Box::new(term2),
        }),
        Ok(85)
    );
}

#[test]
fn test_error() {
    assert_eq!(
        eval(Expression::Op {
            op: Operation::Div,
            left: Box::new(Expression::Value(99)),
            right: Box::new(Expression::Value(0)),
        }),
        Err(String::from("division by zero"))
    );
}

#[test]
fn evaluate_reports_the_kind_of_failure() {
    let e = Expression::Op {
        op: Operation::Div,
        left: Box::new(Expression::Value(99)),
        right: Box::new(Expression::Value(0)),
    };
    assert_eq!(evaluate(e), Err(EvalError::DivisionByZero));
}

fn value(v: i64) -> Box<Expression> {
    Box::new(Expression::Value(v))
}

fn binary(op: Operation, a: i64, b: i64) -> Expression {
    Expression::Op { op, left: value(a), right: value(b) }
}

#[test]
fn a_literal_evaluates_to_itself() {
    for v in [0, 1, -1, 19, i64::MAX, i64::MIN] {
        assert_eq!(evaluate(Expression::Value(v)), Ok(v));
        assert_eq!(eval(Expression::Value(v)), Ok(v));
    }
}

#[test]
fn sums_differences_and_products_of_literals() {
    assert_eq!(evaluate(binary(Operation::Add, 10, 20)), Ok(30));
    assert_eq!(evaluate(binary(Operation::Add, -10, 3)), Ok(-7));
    assert_eq!(evaluate(binary(Operation::Sub, 3, 4)), Ok(-1));
    assert_eq!(evaluate(binary(Operation::Sub, i64::MIN, -1)), Ok(i64::MIN + 1));
    assert_eq!(evaluate(binary(Operation::Mul, 10, 9)), Ok(90));
    assert_eq!(evaluate(binary(Operation::Mul, -6, 7)), Ok(-42));
    assert_eq!(evaluate(binary(Operation::Mul, 3037000499, 3037000499)), Ok(9223372030926249001));
}

#[test]
fn division_rounds_toward_zero() {
    assert_eq!(evaluate(binary(Operation::Div, 7, 2)), Ok(3));
    assert_eq!(evaluate(binary(Operation::Div, -7, 2)), Ok(-3));
    assert_eq!(evaluate(binary(Operation::Div, 7, -2)), Ok(-3));
    assert_eq!(evaluate(binary(Operation::Div, -7, -2)), Ok(3));
    assert_eq!(evaluate(binary(Operation::Div, 0, 5)), Ok(0));
    assert_eq!(evaluate(binary(Operation::Div, 1, i64::MIN)), Ok(0));
    assert_eq!(evaluate(binary(Operation::Div, i64::MIN, 1)), Ok(i64::MIN));
    assert_eq!(evaluate(binary(Operation::Div, i64::MIN, 2)), Ok(-4611686018427387904));
    assert_eq!(evaluate(binary(Operation::Div, i64::MAX, -1)), Ok(-i64::MAX));
}

#[test]
fn division_by_zero_fails_for_every_dividend() {
    for a in [0, 1, -1, 99, i64::MAX, i64::MIN] {
        assert_eq!(evaluate(binary(Operation::Div, a, 0)), Err(EvalError::DivisionByZero));
        assert_eq!(eval(binary(Operation::Div, a, 0)), Err(String::from("division by zero")));
    }
}

#[test]
fn results_outside_the_range_wrap_around() {
    assert_eq!(evaluate(binary(Operation::Add, i64::MAX, 1)), Ok(i64::MIN));
    assert_eq!(evaluate(binary(Operation::Add, i64::MIN, -1)), Ok(i64::MAX));
    assert_eq!(evaluate(binary(Operation::Sub, i64::MIN, 1)), Ok(i64::MAX));
    assert_eq!(evaluate(binary(Operation::Sub, 0, i64::MIN)), Ok(i64::MIN));
    assert_eq!(evaluate(binary(Operation::Mul, i64::MAX, 2)), Ok(-2));
    assert_eq!(evaluate(binary(Operation::Mul, i64::MIN, -1)), Ok(i64::MIN));
    assert_eq!(evaluate(binary(Operation::Mul, 4294967296, 4294967296)), Ok(0));
    assert_eq!(evaluate(binary(Operation::Div, i64::MIN, -1)), Ok(i64::MIN));
}

#[test]
fn apply_is_what_a_node_does_to_its_results() {
    assert_eq!(Operation::Add.apply(2, 3), Ok(5));
    assert_eq!(Operation::Sub.apply(2, 3), Ok(-1));
    assert_eq!(Operation::Mul.apply(2, 3), Ok(6));
    assert_eq!(Operation::Div.apply(2, 3), Ok(0));
    assert_eq!(Operation::Div.apply(2, 0), Err(EvalError::DivisionByZero));
}

#[test]
fn nested_trees_compose_the_results_of_their_subtrees() {
    // 10 * 9 + (3 - 4) * 5
    let tree = Expression::Op {
        op: Operation::Add,
        left: Box::new(binary(Operation::Mul, 10, 9)),
        right: Box::new(Expression::Op {
            op: Operation::Mul,
            left: Box::new(binary(Operation::Sub, 3, 4)),
            right: value(5),
        }),
    };
    assert_eq!(evaluate(tree), Ok(85));
    // (100 / 7) / (9 - 7)
    let tree = Expression::Op {
        op: Operation::Div,
        left: Box::new(binary(Operation::Div, 100, 7)),
        right: Box::new(binary(Operation::Sub, 9, 7)),
    };
    assert_eq!(evaluate(tree), Ok(7));
}

#[test]
fn a_failure_on_the_left_is_the_failure_of_the_node() {
    let failing = binary(Operation::Div, 1, 0);
    assert_eq!(evaluate(failing), Err(EvalError::DivisionByZero));
    let tree = Expression::Op {
        op: Operation::Add,
        left: Box::new(binary(Operation::Div, 1, 0)),
        right: value(99),
    };
    assert_eq!(evaluate(tree), Err(EvalError::DivisionByZero));
    let tree = Expression::Op {
        op: Operation::Add,
        left: Box::new(binary(Operation::Div, 1, 0)),
        right: value(99),
    };
    assert_eq!(eval(tree), Err(String::from("division by zero")));
}

#[test]
fn a_failure_on_the_right_is_the_failure_of_the_node() {
    let tree = Expression::Op {
        op: Operation::Mul,
        left: value(0),
        right: Box::new(binary(Operation::Div, 5, 0)),
    };
    assert_eq!(evaluate(tree), Err(EvalError::DivisionByZero));
    let tree = Expression::Op {
        op: Operation::Sub,
        left: Box::new(binary(Operation::Div, 5, 0)),
        right: Box::new(binary(Operation::Div, 6, 0)),
    };
    assert_eq!(evaluate(tree), Err(EvalError::DivisionByZero));
}

#[test]
fn a_failure_deep_in_the_tree_reaches_the_root() {
    let mut tree = binary(Operation::Div, 1, 0);
    for depth in 0..100 {
        tree = Expression::Op { op: Operation::Add, left: value(depth), right: Box::new(tree) };
    }
    assert_eq!(evaluate(tree), Err(EvalError::DivisionByZero));
}

#[test]
fn a_long_chain_of_additions() {
    let mut tree = Expression::Value(0);
    for term in 1..=1000 {
        tree = Expression::Op { op: Operation::Add, left: Box::new(tree), right: value(term) };
    }
    assert_eq!(evaluate(tree), Ok(500500));
}

#[test]
fn the_message_of_the_failure() {
    assert_eq!(EvalError::DivisionByZero.message(), "division by zero");
}
