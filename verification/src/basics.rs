//! Small arithmetic and higher-order helpers.

use vstd::prelude::*;

verus! {

use vstd::string::StringExecFns;

/// The product of two numbers.
pub fn multiply(a: i32, b: i32) -> (r: i32)
    requires
        i32::MIN <= a * b <= i32::MAX,
    ensures
        r == a * b,
{
    a * b
}

/// The largest magnitude whose square is representable in 32 bits.
pub const MAX_SQUARE_INPUT: i32 = 46340;

/// The square of a number.
pub fn square(x: i32) -> (r: i32)
    requires
        -MAX_SQUARE_INPUT <= x <= MAX_SQUARE_INPUT,
    ensures
        r == x * x,
{
    proof {
        assert(x * x <= MAX_SQUARE_INPUT as int * MAX_SQUARE_INPUT as int && x * x >= 0)
            by (nonlinear_arith)
            requires
                -(MAX_SQUARE_INPUT as int) <= x <= MAX_SQUARE_INPUT as int,
        ;
    }
    x * x
}

/// Twice a number.
pub fn double(x: i32) -> (r: i32)
    requires
        i32::MIN <= 2 * x <= i32::MAX,
    ensures
        r == 2 * x,
{
    x * 2
}

/// The factorial function.
pub open spec fn fact(n: nat) -> nat
    decreases n,
{
    if n == 0 {
        1
    } else {
        n * fact((n - 1) as nat)
    }
}

/// Factorial grows monotonically.
pub proof fn lemma_fact_le(a: nat, b: nat)
    requires
        a <= b,
    ensures
        fact(a) <= fact(b),
    decreases b,
{
    if a < b {
        lemma_fact_le(a, (b - 1) as nat);
        assert(fact(b) == b * fact((b - 1) as nat));
        assert(b * fact((b - 1) as nat) >= fact((b - 1) as nat)) by (nonlinear_arith)
            requires
                b >= 1,
                fact((b - 1) as nat) >= 0,
        ;
    }
}

/// The largest representable factorial, worked out step by step.
pub proof fn lemma_fact_12()
    ensures
        fact(12) == 479001600,
{
    assert(fact(0) == 1);
    assert(fact(1) == 1);
    assert(fact(2) == 2);
    assert(fact(3) == 6);
    assert(fact(4) == 24);
    assert(fact(5) == 120);
    assert(fact(6) == 720);
    assert(fact(7) == 5040);
    assert(fact(8) == 40320);
    assert(fact(9) == 362880);
    assert(fact(10) == 3628800);
    assert(fact(11) == 39916800);
    assert(fact(12) == 479001600);
}

/// The largest argument whose factorial is representable in 32 bits.
pub const MAX_FACTORIAL_INPUT: u32 = 12;

/// Computes the factorial recursively.
pub fn factorial(n: u32) -> (r: u32)
    requires
        n <= MAX_FACTORIAL_INPUT,
    ensures
        r == fact(n as nat),
    decreases n,
{
    proof {
        lemma_fact_12();
        lemma_fact_le(n as nat, 12);
    }
    if n == 0 || n == 1 {
        proof {
            assert(fact(0) == 1);
            assert(fact(1) == 1);
        }
        1
    } else {
        let rest = factorial(n - 1);
        proof {
            lemma_fact_le((n - 1) as nat, 12);
            assert(n * fact((n - 1) as nat) == fact(n as nat));
        }
        n * rest
    }
}

/// Applies a function value to an argument.
pub fn apply_function<F: Fn(i32) -> i32>(x: i32, f: F) -> (r: i32)
    requires
        call_requires(f, (x,)),
    ensures
        call_ensures(f, (x,), r),
{
    f(x)
}

/// Appends the fixed greeting suffix to a string.
pub fn modify_string(s: &mut String)
    ensures
        final(s)@ == old(s)@ + ", World!"@,
{
    s.append(", World!");
}

} // verus!
