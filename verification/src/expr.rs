//! Evaluation of arithmetic expression trees over 64-bit signed integers.
//!
//! Arithmetic wraps around in two's complement: a sum, difference, product or
//! quotient that leaves the `i64` range is reduced modulo 2^64 back into it.
//! Division by zero is the only failure.

use vstd::prelude::*;

verus! {

/// An operation to perform on two subexpressions.
#[derive(Debug, Clone, Copy, PartialEq, Eq, Structural)]
pub enum Operation {
    Add,
    Sub,
    Mul,
    Div,
}

/// An expression, in tree form.
#[derive(Debug)]
pub enum Expression {
    /// An operation on two subexpressions.
    Op { op: Operation, left: Box<Expression>, right: Box<Expression> },
    /// A literal value.
    Value(i64),
}

/// Why an evaluation failed.
#[derive(Debug, Clone, Copy, PartialEq, Eq, Structural)]
pub enum EvalError {
    /// A division whose right operand evaluated to zero.
    DivisionByZero,
}

impl EvalError {
    /// The text that describes the failure.
    pub open spec fn message_spec(self) -> Seq<char> {
        match self {
            EvalError::DivisionByZero => "division by zero"@,
        }
    }

    /// Describes the failure in words.
    pub fn message(&self) -> (text: String)
        ensures
            text@ == self.message_spec(),
    {
        match self {
            EvalError::DivisionByZero => "division by zero".to_owned(),
        }
    }
}

/// The integer in the `i64` range that is congruent to `x` modulo 2^64.
pub open spec fn wrap_i64(x: int) -> int {
    (x + 0x8000_0000_0000_0000) % 0x1_0000_0000_0000_0000 - 0x8000_0000_0000_0000
}

/// The quotient of `a` by `b` rounded toward zero.
pub open spec fn truncating_division(a: int, b: int) -> int
    recommends
        b != 0,
{
    if a >= 0 && b > 0 {
        a / b
    } else if a >= 0 {
        -(a / (-b))
    } else if b > 0 {
        -((-a) / b)
    } else {
        (-a) / (-b)
    }
}

impl Operation {
    /// What applying the operation to two evaluated operands yields.
    pub open spec fn apply_spec(self, l: int, r: int) -> Result<int, EvalError> {
        match self {
            Operation::Add => Ok(wrap_i64(l + r)),
            Operation::Sub => Ok(wrap_i64(l - r)),
            Operation::Mul => Ok(wrap_i64(l * r)),
            Operation::Div => if r == 0 {
                Err(EvalError::DivisionByZero)
            } else {
                Ok(wrap_i64(truncating_division(l, r)))
            },
        }
    }

    /// Applies the operation to two evaluated operands.
    pub fn apply(self, l: i64, r: i64) -> (res: Result<i64, EvalError>)
        ensures
            lift(res) == self.apply_spec(l as int, r as int),
    {
        match self {
            Operation::Add => Ok(l.wrapping_add(r)),
            Operation::Sub => Ok(l.wrapping_sub(r)),
            Operation::Mul => Ok(l.wrapping_mul(r)),
            Operation::Div => {
                if r == 0 {
                    Err(EvalError::DivisionByZero)
                } else {
                    match l.checked_div(r) {
                        Some(q) => Ok(q),
                        None => Ok(i64::MIN),
                    }
                }
            },
        }
    }
}

impl Expression {
    /// The mathematical result of the expression: the operands of a node are
    /// evaluated left first, the first failure found is the node's failure,
    /// and otherwise the node's operation is applied to the two results.
    pub open spec fn value(self) -> Result<int, EvalError>
        decreases self,
    {
        match self {
            Expression::Value(v) => Ok(v as int),
            Expression::Op { op, left, right } => match left.value() {
                Err(e) => Err(e),
                Ok(l) => match right.value() {
                    Err(e) => Err(e),
                    Ok(r) => op.apply_spec(l, r),
                },
            },
        }
    }
}

/// Lifts a machine result to the mathematical integers.
pub open spec fn lift(res: Result<i64, EvalError>) -> Result<int, EvalError> {
    match res {
        Ok(v) => Ok(v as int),
        Err(e) => Err(e),
    }
}

/// Evaluates an expression tree. A subtree whose left operand fails is never
/// asked for its right operand.
pub fn evaluate(e: Expression) -> (res: Result<i64, EvalError>)
    ensures
        lift(res) == e.value(),
    decreases e,
{
    match e {
        Expression::Value(v) => Ok(v),
        Expression::Op { op, left, right } => {
            let l = match evaluate(*left) {
                Ok(l) => l,
                Err(err) => { return Err(err); },
            };
            let r = match evaluate(*right) {
                Ok(r) => r,
                Err(err) => { return Err(err); },
            };
            op.apply(l, r)
        },
    }
}

/// Evaluates an expression tree and reports a failure by its message.
pub fn eval(e: Expression) -> (res: Result<i64, String>)
    ensures
        match res {
            Ok(v) => e.value() == Ok::<int, EvalError>(v as int),
            Err(text) => e.value() is Err && text@ == e.value()->Err_0.message_spec(),
        },
{
    match evaluate(e) {
        Ok(v) => Ok(v),
        Err(kind) => Err(kind.message()),
    }
}

/// The tree that applies `op` to the two literals `a` and `b`.
pub open spec fn binary(op: Operation, a: i64, b: i64) -> Expression {
    Expression::Op {
        op,
        left: Box::new(Expression::Value(a)),
        right: Box::new(Expression::Value(b)),
    }
}

/// A literal evaluates to itself.
pub proof fn lemma_literal(v: i64)
    ensures
        Expression::Value(v).value() == Ok::<int, EvalError>(v as int),
{
}

/// An operation on two literals yields what the operation yields on their
/// values, wrapped into the `i64` range.
pub proof fn lemma_binary(op: Operation, a: i64, b: i64)
    ensures
        binary(op, a, b).value() == op.apply_spec(a as int, b as int),
{
    assert(Expression::Value(a).value() == Ok::<int, EvalError>(a as int));
    assert(Expression::Value(b).value() == Ok::<int, EvalError>(b as int));
}

/// The sum of two literals is their sum, whenever that sum is an `i64`.
pub proof fn lemma_add(a: i64, b: i64)
    requires
        i64::MIN <= a + b <= i64::MAX,
    ensures
        binary(Operation::Add, a, b).value() == Ok::<int, EvalError>(a + b),
{
    lemma_binary(Operation::Add, a, b);
}

/// The difference of two literals is their difference, whenever that
/// difference is an `i64`.
pub proof fn lemma_sub(a: i64, b: i64)
    requires
        i64::MIN <= a - b <= i64::MAX,
    ensures
        binary(Operation::Sub, a, b).value() == Ok::<int, EvalError>(a - b),
{
    lemma_binary(Operation::Sub, a, b);
}

/// The product of two literals is their product, whenever that product is an
/// `i64`.
pub proof fn lemma_mul(a: i64, b: i64)
    requires
        i64::MIN <= a * b <= i64::MAX,
    ensures
        binary(Operation::Mul, a, b).value() == Ok::<int, EvalError>(a * b),
{
    lemma_binary(Operation::Mul, a, b);
}

/// Dividing any literal by the literal zero fails with `DivisionByZero`.
pub proof fn lemma_div_by_zero(a: i64)
    ensures
        binary(Operation::Div, a, 0).value() == Err::<int, EvalError>(EvalError::DivisionByZero),
{
    lemma_binary(Operation::Div, a, 0);
}

/// Dividing a literal by a nonzero literal yields the quotient rounded toward
/// zero, whenever that quotient is an `i64`: always, but for `i64::MIN / -1`.
pub proof fn lemma_div(a: i64, b: i64)
    requires
        b != 0,
        !(a == i64::MIN && b == -1),
    ensures
        binary(Operation::Div, a, b).value() == Ok::<int, EvalError>(
            truncating_division(a as int, b as int),
        ),
{
    lemma_binary(Operation::Div, a, b);
    lemma_quotient_bounds(a as int, b as int);
}

/// A quotient rounded toward zero is no larger in magnitude than the
/// dividend, and for a negative dividend it reaches that magnitude only when
/// the divisor is -1.
pub proof fn lemma_quotient_bounds(a: int, b: int)
    requires
        b != 0,
    ensures
        a >= 0 ==> -a <= truncating_division(a, b) <= a,
        a < 0 ==> a <= truncating_division(a, b) <= -a,
        a < 0 && b != -1 ==> truncating_division(a, b) < -a,
{
    let n = if a >= 0 { a } else { -a };
    let d = if b > 0 { b } else { -b };
    assert(0 <= n / d <= n) by (nonlinear_arith)
        requires
            n >= 0,
            d > 0,
    ;
    assert(d >= 2 && n > 0 ==> n / d < n) by (nonlinear_arith)
        requires
            n >= 0,
            d > 0,
    ;
}

/// A node whose operands both evaluate applies its operation to their
/// results.
pub proof fn lemma_composition(op: Operation, left: Expression, right: Expression)
    requires
        left.value() is Ok,
        right.value() is Ok,
    ensures
        (Expression::Op { op, left: Box::new(left), right: Box::new(right) }).value()
            == op.apply_spec(left.value()->Ok_0, right.value()->Ok_0),
{
}

/// A node whose left operand fails fails in the same way, whatever its right
/// operand is.
pub proof fn lemma_left_failure(op: Operation, left: Expression, right: Expression)
    requires
        left.value() is Err,
    ensures
        (Expression::Op { op, left: Box::new(left), right: Box::new(right) }).value()
            == left.value(),
{
}

/// A node whose left operand evaluates and whose right operand fails fails as
/// the right operand does.
pub proof fn lemma_right_failure(op: Operation, left: Expression, right: Expression)
    requires
        left.value() is Ok,
        right.value() is Err,
    ensures
        (Expression::Op { op, left: Box::new(left), right: Box::new(right) }).value()
            == right.value(),
{
}

/// Every result lies in the `i64` range.
pub proof fn lemma_value_in_range(e: Expression)
    ensures
        e.value() matches Ok(v) ==> i64::MIN <= v <= i64::MAX,
    decreases e,
{
    match e {
        Expression::Value(_) => {},
        Expression::Op { op, left, right } => {
            lemma_value_in_range(*left);
            lemma_value_in_range(*right);
        },
    }
}

} // verus!
