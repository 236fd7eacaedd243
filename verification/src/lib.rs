//! Fibonacci numbers over 32-bit unsigned arithmetic.
//!
//! The model of the sequence is the spec function [`fib`], which works in
//! unbounded arithmetic. The executable routines compute the same values
//! within `u32`: [`fibonacci`] asks its caller to stay below the width's
//! limit, while [`fibonacci_checked`] accepts every index and reports an
//! overflow through `Option` (the fail-fast policy: no silent wraparound).

use vstd::prelude::*;

verus! {

/// The Fibonacci sequence in unbounded arithmetic: the value every
/// contract in this crate refers to.
pub open spec fn fib(n: nat) -> nat
    decreases n,
{
    if n == 0 {
        0
    } else if n == 1 {
        1
    } else {
        fib((n - 2) as nat) + fib((n - 1) as nat)
    }
}

/// At the two base indices the sequence equals the index itself.
pub proof fn lemma_fib_base(n: nat)
    requires
        n <= 1,
    ensures
        fib(n) == n,
{
}

/// The recurrence law: from the third term on, each term is the sum of
/// the two before it.
pub proof fn lemma_fib_recurrence(n: nat)
    requires
        n >= 2,
    ensures
        fib(n) == fib((n - 1) as nat) + fib((n - 2) as nat),
{
}

/// The sequence never decreases: a later term is at least as large as an
/// earlier one.
pub proof fn lemma_fib_nondecreasing(i: nat, j: nat)
    requires
        i <= j,
    ensures
        fib(i) <= fib(j),
    decreases j,
{
    if i < j {
        lemma_fib_nondecreasing(i, (j - 1) as nat);
    }
}

/// Computing a term is deterministic: any two results that meet the
/// contract of [`fibonacci`] at the same index are the same value, so
/// repeated calls agree.
pub proof fn lemma_fib_deterministic(n: nat, r1: nat, r2: nat)
    requires
        r1 == fib(n),
        r2 == fib(n),
    ensures
        r1 == r2,
{
}

/// The n-th Fibonacci number, iteratively: start from the pair (0, 1)
/// and add pairwise up to the requested index.
///
/// The precondition excludes the indices whose value does not fit in 32
/// bits, so the additions cannot overflow; [`fibonacci_checked`] serves
/// every index and detects that case at run time instead.
pub fn fibonacci(n: u32) -> (r: u32)
    requires
        fib(n as nat) <= u32::MAX,
    ensures
        r == fib(n as nat),
{
    if n <= 1 {
        return n;
    }
    let mut prev: u32 = 0;
    let mut current: u32 = 1;
    let mut k: u32 = 1;
    while k < n
        invariant
            1 <= k <= n,
            prev == fib((k - 1) as nat),
            current == fib(k as nat),
            fib(n as nat) <= u32::MAX,
        decreases n - k,
    {
        proof {
            lemma_fib_nondecreasing((k + 1) as nat, n as nat);
            assert(fib((k + 1) as nat) == fib((k - 1) as nat) + fib(k as nat));
        }
        let next: u32 = prev + current;
        prev = current;
        current = next;
        k = k + 1;
    }
    current
}

/// The n-th Fibonacci number for any index, with the overflow policy made
/// explicit: the result is `Some` exactly when the value fits in 32 bits,
/// and `None` as soon as an intermediate sum would exceed `u32::MAX`.
pub fn fibonacci_checked(n: u32) -> (r: Option<u32>)
    ensures
        fib(n as nat) <= u32::MAX ==> r == Some(fib(n as nat) as u32),
        fib(n as nat) > u32::MAX ==> r is None,
{
    if n <= 1 {
        return Some(n);
    }
    let mut prev: u32 = 0;
    let mut current: u32 = 1;
    let mut k: u32 = 1;
    while k < n
        invariant
            1 <= k <= n,
            prev == fib((k - 1) as nat),
            current == fib(k as nat),
        decreases n - k,
    {
        proof {
            assert(fib((k + 1) as nat) == fib((k - 1) as nat) + fib(k as nat));
        }
        if prev > u32::MAX - current {
            proof {
                lemma_fib_nondecreasing((k + 1) as nat, n as nat);
            }
            return None;
        }
        let next: u32 = prev + current;
        prev = current;
        current = next;
        k = k + 1;
    }
    Some(current)
}

} // verus!
