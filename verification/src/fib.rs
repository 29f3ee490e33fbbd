//! A small self-contained demonstration function, kept alongside the
//! database service.

use vstd::prelude::*;

verus! {

/// The Fibonacci sequence as a mathematical function.
pub open spec fn fib(n: nat) -> nat
    decreases n,
{
    if n == 0 {
        0
    } else if n == 1 {
        1
    } else {
        fib((n - 1) as nat) + fib((n - 2) as nat)
    }
}

/// Computes the `n`-th Fibonacci number by direct recursion.
pub fn fibonacci_recursive(n: u32) -> (r: u64)
    requires
        fib(n as nat) <= u64::MAX,
    ensures
        r == fib(n as nat),
    decreases n,
{
    match n {
        0 => 0,
        1 => 1,
        _ => {
            proof {
                lemma_fib_monotonic(((n - 1) as u32) as nat, n as nat);
                lemma_fib_monotonic(((n - 2) as u32) as nat, n as nat);
            }
            fibonacci_recursive(n - 1) + fibonacci_recursive(n - 2)
        },
    }
}

/// Fibonacci never decreases as the index grows.
proof fn lemma_fib_monotonic(i: nat, j: nat)
    requires
        i <= j,
    ensures
        fib(i) <= fib(j),
    decreases j - i,
{
    if i < j {
        if j >= 2 {
            lemma_fib_monotonic(i, (j - 1) as nat);
        }
    }
}

} // verus!
