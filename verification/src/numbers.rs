//! Integer routines: products, Fibonacci numbers, factorials, halves and the
//! counting game of fizz and buzz.
//!
//! The routines compute in fixed-width integers. Where a result may leave the
//! width it is computed in, the routine asks of its caller that it does not,
//! and then returns the exact mathematical value.

use vstd::prelude::*;
use vstd::std_specs::convert::IntoSpec;
use vstd::string::StringExecFns;
use crate::text::{decimal, decimal_string};

verus! {

/// The product of two 16-bit integers.
pub fn multiply(x: i16, y: i16) -> (product: i16)
    requires
        i16::MIN <= x * y <= i16::MAX,
    ensures
        product == x * y,
{
    x * y
}

/// The Fibonacci numbers, counted so that the entries at 0, 1 and 2 are all 1
/// and each later entry is the sum of the two before it.
pub open spec fn fib_spec(n: nat) -> nat
    decreases n,
{
    if n <= 2 {
        1
    } else {
        fib_spec((n - 1) as nat) + fib_spec((n - 2) as nat)
    }
}

/// The largest index whose Fibonacci number fits in a `u32`.
pub const FIB_MAX_INDEX: u32 = 47;

/// The Fibonacci numbers never decrease.
pub proof fn lemma_fib_monotonic(i: nat, j: nat)
    requires
        i <= j,
    ensures
        fib_spec(i) <= fib_spec(j),
    decreases j,
{
    if j <= 2 || i == j {
    } else {
        lemma_fib_monotonic(i, (j - 1) as nat);
    }
}

/// The value of the Fibonacci number at index 47, reached by walking up the
/// sequence in steps of six.
proof fn lemma_fib_47()
    ensures
        fib_spec(47) == 2971215073,
{
    reveal_with_fuel(fib_spec, 7);
    assert(fib_spec(5) == 5);
    assert(fib_spec(6) == 8);
    assert(fib_spec(11) == 89);
    assert(fib_spec(12) == 144);
    assert(fib_spec(17) == 1597);
    assert(fib_spec(18) == 2584);
    assert(fib_spec(23) == 28657);
    assert(fib_spec(24) == 46368);
    assert(fib_spec(29) == 514229);
    assert(fib_spec(30) == 832040);
    assert(fib_spec(35) == 9227465);
    assert(fib_spec(36) == 14930352);
    assert(fib_spec(41) == 165580141);
    assert(fib_spec(42) == 267914296);
    assert(fib_spec(46) == 1836311903);
}

/// Every Fibonacci number up to index 47 fits in a `u32`, and no later one
/// does.
pub proof fn lemma_fib_fits(n: nat)
    ensures
        n <= FIB_MAX_INDEX ==> fib_spec(n) <= u32::MAX,
        n > FIB_MAX_INDEX ==> fib_spec(n) > u32::MAX,
{
    lemma_fib_47();
    reveal_with_fuel(fib_spec, 3);
    assert(fib_spec(48) == fib_spec(47) + fib_spec(46));
    if n <= 47 {
        lemma_fib_monotonic(n, 47);
    } else {
        lemma_fib_monotonic(48, n);
    }
}

/// The Fibonacci number at index `n`.
pub fn fib(n: u32) -> (value: u32)
    requires
        n <= FIB_MAX_INDEX,
    ensures
        value == fib_spec(n as nat),
    decreases n,
{
    if n <= 2 {
        1
    } else {
        proof {
            lemma_fib_fits(n as nat);
        }
        fib(n - 1) + fib(n - 2)
    }
}

/// The product of the integers from 1 to `n`.
pub open spec fn factorial_spec(n: nat) -> nat
    decreases n,
{
    if n == 0 {
        1
    } else {
        n * factorial_spec((n - 1) as nat)
    }
}

/// The largest argument whose factorial fits in a `u32`.
pub const FACTORIAL_MAX_ARGUMENT: u32 = 12;

/// Factorials never decrease.
pub proof fn lemma_factorial_monotonic(i: nat, j: nat)
    requires
        i <= j,
    ensures
        1 <= factorial_spec(i) <= factorial_spec(j),
    decreases j,
{
    if j == 0 {
    } else if i == j {
        lemma_factorial_monotonic((i - 1) as nat, (j - 1) as nat);
        assert(factorial_spec(j) >= 1) by (nonlinear_arith)
            requires
                factorial_spec(j) == j * factorial_spec((j - 1) as nat),
                j >= 1,
                factorial_spec((j - 1) as nat) >= 1,
        ;
    } else {
        lemma_factorial_monotonic(i, (j - 1) as nat);
        assert(factorial_spec(j) >= factorial_spec((j - 1) as nat)) by (nonlinear_arith)
            requires
                factorial_spec(j) == j * factorial_spec((j - 1) as nat),
                j >= 1,
                factorial_spec((j - 1) as nat) >= 1,
        ;
    }
}

/// The factorials up to that of 12 fit in a `u32`, and the later ones do not.
pub proof fn lemma_factorial_fits(n: nat)
    ensures
        n <= FACTORIAL_MAX_ARGUMENT ==> factorial_spec(n) <= u32::MAX,
        n > FACTORIAL_MAX_ARGUMENT ==> factorial_spec(n) > u32::MAX,
{
    assert(factorial_spec(1) == 1) by {
        reveal_with_fuel(factorial_spec, 2);
    }
    assert(factorial_spec(2) == 2);
    assert(factorial_spec(3) == 6);
    assert(factorial_spec(4) == 24);
    assert(factorial_spec(5) == 120);
    assert(factorial_spec(6) == 720);
    assert(factorial_spec(7) == 5040);
    assert(factorial_spec(8) == 40320);
    assert(factorial_spec(9) == 362880);
    assert(factorial_spec(10) == 3628800);
    assert(factorial_spec(11) == 39916800);
    assert(factorial_spec(12) == 479001600);
    assert(factorial_spec(13) == 6227020800);
    if n <= 12 {
        lemma_factorial_monotonic(n, 12);
    } else {
        lemma_factorial_monotonic(13, n);
    }
}

/// The factorial of `n`.
pub fn factorial(n: u32) -> (product: u32)
    requires
        n <= FACTORIAL_MAX_ARGUMENT,
    ensures
        product == factorial_spec(n as nat),
{
    let mut product: u32 = 1;
    let mut i: u32 = 1;
    while i <= n
        invariant
            1 <= i <= n + 1,
            n <= FACTORIAL_MAX_ARGUMENT,
            product == factorial_spec((i - 1) as nat),
        decreases n + 1 - i,
    {
        proof {
            lemma_factorial_fits(i as nat);
            assert(product * i == i * product) by (nonlinear_arith);
        }
        product = product * i;
        i = i + 1;
    }
    product
}

/// What the counting game says at `i`: "fizzbuzz" at the multiples of 15,
/// "fizz" at the other multiples of 3, "buzz" at the other multiples of 5, and
/// the number itself everywhere else.
pub open spec fn fizzbuzz_line(i: nat) -> Seq<char> {
    if i % 15 == 0 {
        "fizzbuzz"@
    } else if i % 3 == 0 {
        "fizz"@
    } else if i % 5 == 0 {
        "buzz"@
    } else {
        decimal(i as int)
    }
}

/// The line of the counting game at `i`.
pub fn fizzbuzz_word(i: u32) -> (line: String)
    ensures
        line@ == fizzbuzz_line(i as nat),
{
    if i % 15 == 0 {
        "fizzbuzz".to_owned()
    } else if i % 3 == 0 {
        "fizz".to_owned()
    } else if i % 5 == 0 {
        "buzz".to_owned()
    } else {
        decimal_string(i as i64)
    }
}

/// The lines of the counting game from 1 to `max`, in order.
pub fn fizzbuzz(max: u32) -> (lines: Vec<String>)
    ensures
        lines.len() == max,
        forall|k: int| 0 <= k < max ==> (#[trigger] lines[k])@ == fizzbuzz_line((k + 1) as nat),
{
    let mut lines: Vec<String> = Vec::new();
    let mut i: u32 = 0;
    while i < max
        invariant
            i <= max,
            lines.len() == i,
            forall|k: int| 0 <= k < i ==> (#[trigger] lines[k])@ == fizzbuzz_line((k + 1) as nat),
        decreases max - i,
    {
        i = i + 1;
        lines.push(fizzbuzz_word(i));
    }
    lines
}

/// The outcome of halving an integer.
#[derive(Debug)]
pub enum RResult {
    /// The half of an even integer.
    Half(i32),
    /// The reason why an odd integer has no half.
    Refusal(String),
}

/// The message that refuses to halve the odd integer `n`.
pub open spec fn odd_message(n: int) -> Seq<char> {
    "cannot divide "@ + decimal(n) + " into two equal parts"@
}

/// Halves an even integer, and explains itself on an odd one.
pub fn divide_in_two(n: i32) -> (res: RResult)
    ensures
        n % 2 == 0 ==> res == RResult::Half((n / 2) as i32),
        n % 2 != 0 ==> (res matches RResult::Refusal(text) && text@ == odd_message(n as int)),
{
    if n % 2 == 0 {
        RResult::Half(n / 2)
    } else {
        let mut text = "cannot divide ".to_owned();
        let number = decimal_string(n as i64);
        text.append(number.as_str());
        text.append(" into two equal parts");
        RResult::Refusal(text)
    }
}

/// The amount that `add_const` adds.
pub const ADDED_CONSTANT: i32 = 40_000_000;

/// Adds forty million to an integer.
pub fn add_forty_million(x: i32) -> (sum: i32)
    requires
        x + ADDED_CONSTANT <= i32::MAX,
    ensures
        sum == x + ADDED_CONSTANT,
{
    x + ADDED_CONSTANT
}

/// Adds forty million to anything that converts into an `i32`.
///
/// The conversion has to be one that follows its specification: then the
/// sum is known before the call, and the caller answers for its fitting an
/// `i32`.
pub fn add_const<T: Into<i32>>(x: T) -> (sum: i32)
    requires
        T::obeys_into_spec(),
        x.into_spec() + ADDED_CONSTANT <= i32::MAX,
    ensures
        sum == x.into_spec() + ADDED_CONSTANT,
{
    add_forty_million(x.into())
}

/// The two neighbours of `x`, the larger first.
pub fn pair_of(x: u32) -> (pair: (u32, u32))
    requires
        1 <= x < u32::MAX,
    ensures
        pair.0 == x + 1,
        pair.1 == x - 1,
{
    (x + 1, x - 1)
}

} // verus!
