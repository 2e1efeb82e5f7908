//! Reference functions used by the sample document that exercises the
//! editor's syntax highlighting.

use vstd::prelude::*;

verus! {

/// The Fibonacci numbers.
pub open spec fn spec_fib(n: nat) -> nat
    decreases n,
{
    if n == 0 {
        0
    } else if n == 1 {
        1
    } else {
        spec_fib((n - 1) as nat) + spec_fib((n - 2) as nat)
    }
}

/// Fibonacci numbers never shrink as the index grows.
pub proof fn lemma_fib_monotone(a: nat, b: nat)
    requires
        a <= b,
    ensures
        spec_fib(a) <= spec_fib(b),
    decreases b,
{
    if a < b && b >= 2 {
        lemma_fib_monotone(a, (b - 1) as nat);
    } else if a < b && b == 1 {
    }
}

/// The `n`-th Fibonacci number.
pub fn fibonacci(n: u32) -> (r: u32)
    requires
        spec_fib(n as nat) <= u32::MAX,
    ensures
        r == spec_fib(n as nat),
    decreases n,
{
    match n {
        0 => 0,
        1 => 1,
        _ => {
            proof {
                lemma_fib_monotone((n - 1) as nat, n as nat);
                lemma_fib_monotone((n - 2) as nat, n as nat);
            }
            fibonacci(n - 1) + fibonacci(n - 2)
        },
    }
}

} // verus!
