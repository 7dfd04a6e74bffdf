//! Terms of the Fibonacci sequence over a bounded range of indices.

use vstd::arithmetic::power2::{
    lemma2_to64,
    lemma2_to64_rest,
    lemma_pow2_strictly_increases,
    lemma_pow2_unfold,
    pow2,
};
use vstd::prelude::*;

use crate::counter::ProgressCounter;

verus! {

/// Smallest index that the computations are asked for.
pub const MIN_INDEX: u8 = 1;

/// Largest index that the computations are asked for.
pub const MAX_INDEX: u8 = 60;

/// Every term up to `MAX_INDEX` lies below this bound, which is 2^60.
pub const TERM_LIMIT: u128 = 0x1000_0000_0000_0000;

/// The `n`-th term of the sequence 0, 1, 1, 2, 3, 5, 8, ...
pub open spec fn fibonacci(n: nat) -> nat
    decreases n,
{
    if n < 2 {
        n
    } else {
        fibonacci((n - 1) as nat) + fibonacci((n - 2) as nat)
    }
}

/// Whether `n` is an index that a caller may ask for.
pub open spec fn valid_index(n: u8) -> bool {
    MIN_INDEX <= n <= MAX_INDEX
}

/// A term never exceeds the power of two of its index.
pub proof fn lemma_fibonacci_below_pow2(n: nat)
    ensures
        fibonacci(n) <= pow2(n),
    decreases n,
{
    if n < 2 {
        lemma2_to64();
    } else {
        lemma_fibonacci_below_pow2((n - 1) as nat);
        lemma_fibonacci_below_pow2((n - 2) as nat);
        lemma_pow2_unfold(n);
        lemma_pow2_unfold((n - 1) as nat);
    }
}

/// Every term with an index up to `MAX_INDEX` is smaller than `TERM_LIMIT`.
pub proof fn lemma_fibonacci_within_limit(n: nat)
    requires
        n <= MAX_INDEX,
    ensures
        fibonacci(n) <= TERM_LIMIT,
{
    lemma_fibonacci_below_pow2(n);
    lemma2_to64_rest();
    if n < 60 {
        lemma_pow2_strictly_increases(n, 60);
    }
}

/// From index 1 on, every term is at least 1.
pub proof fn lemma_fibonacci_positive(n: nat)
    requires
        n >= 1,
    ensures
        fibonacci(n) >= 1,
    decreases n,
{
    if n >= 2 {
        lemma_fibonacci_positive((n - 1) as nat);
    }
}

/// The two running values of the iteration after `steps` additions: it
/// starts from 0 and 1, and each addition replaces the pair by its second
/// value and the sum of both.
pub open spec fn running_pair(steps: nat) -> (nat, nat)
    decreases steps,
{
    if steps == 0 {
        (0, 1)
    } else {
        let earlier = running_pair((steps - 1) as nat);
        (earlier.1, earlier.0 + earlier.1)
    }
}

/// How often the recursion for index `n` arrives at index 1: once for index
/// 1 itself, never for index 0, and otherwise as often as its two calls do
/// together.
pub open spec fn unit_case_visits(n: nat) -> nat
    decreases n,
{
    if n == 0 {
        0
    } else if n == 1 {
        1
    } else {
        unit_case_visits((n - 1) as nat) + unit_case_visits((n - 2) as nat)
    }
}

/// After `steps` additions the running values are two neighbouring terms.
pub proof fn lemma_running_pair_holds_terms(steps: nat)
    ensures
        running_pair(steps) == (fibonacci(steps), fibonacci(steps + 1)),
    decreases steps,
{
    if steps > 0 {
        lemma_running_pair_holds_terms((steps - 1) as nat);
    }
}

/// The recursion arrives at index 1 exactly as often as the term is large.
pub proof fn lemma_visits_equal_term(n: nat)
    ensures
        unit_case_visits(n) == fibonacci(n),
    decreases n,
{
    if n >= 2 {
        lemma_visits_equal_term((n - 1) as nat);
        lemma_visits_equal_term((n - 2) as nat);
    }
}

/// For every index that may be asked for, the iteration and the recursion
/// arrive at the same term, and a count that starts at zero and goes up by
/// one at each arrival at index 1 ends at that very term, which is not zero.
pub proof fn lemma_computations_agree(n: u8)
    requires
        valid_index(n),
    ensures
        running_pair((n - 1) as nat).1 == fibonacci(n as nat),
        unit_case_visits(n as nat) == running_pair((n - 1) as nat).1,
        1 <= fibonacci(n as nat) <= TERM_LIMIT,
{
    lemma_running_pair_holds_terms((n - 1) as nat);
    lemma_visits_equal_term(n as nat);
    lemma_fibonacci_positive(n as nat);
    lemma_fibonacci_within_limit(n as nat);
}

/// Computes the `num_iter`-th term with two running values and
/// `num_iter - 1` additions.
pub fn get_fibonacci_iterative(num_iter: u8) -> (value: u128)
    requires
        valid_index(num_iter),
    ensures
        value == fibonacci(num_iter as nat),
        value == running_pair((num_iter - 1) as nat).1,
{
    let mut first_int: u128 = 0;
    let mut second_int: u128 = 1;
    let mut reached: u8 = 1;
    while reached < num_iter
        invariant
            1 <= reached <= num_iter <= MAX_INDEX,
            (first_int as nat, second_int as nat) == running_pair((reached - 1) as nat),
        decreases num_iter - reached,
    {
        proof {
            lemma_running_pair_holds_terms(reached as nat);
            lemma_fibonacci_within_limit((reached + 1) as nat);
        }
        let tmp: u128 = first_int + second_int;
        first_int = second_int;
        second_int = tmp;
        reached = reached + 1;
    }
    proof {
        lemma_running_pair_holds_terms((num_iter - 1) as nat);
    }
    second_int
}

/// Computes the `num_iter`-th term by the defining recurrence, one call for
/// each of the two preceding terms.
///
/// Every time the recursion arrives at index 1 it adds one to `counter` and
/// hands the new count to `publish`, so that the count can be followed from
/// outside while the computation runs. Index 0 yields 0 and leaves the
/// counter alone.
pub fn get_fibonacci_recursive<F: Fn(u128)>(
    num_iter: u8,
    counter: &mut ProgressCounter,
    publish: &F,
) -> (value: u128)
    requires
        num_iter <= MAX_INDEX,
        old(counter)@ + fibonacci(num_iter as nat) <= u128::MAX,
        forall|count: u128| publish.requires((count,)),
    ensures
        value == fibonacci(num_iter as nat),
        final(counter)@ == old(counter)@ + unit_case_visits(num_iter as nat),
        final(counter)@ == old(counter)@ + value,
        final(counter)@ >= old(counter)@,
    decreases num_iter,
{
    proof {
        lemma_visits_equal_term(num_iter as nat);
    }
    if num_iter == 0 {
        0
    } else if num_iter == 1 {
        let count: u128 = counter.increment();
        publish(count);
        1
    } else {
        proof {
            lemma_fibonacci_within_limit(num_iter as nat);
            lemma_visits_equal_term((num_iter - 1) as nat);
            lemma_visits_equal_term((num_iter - 2) as nat);
        }
        let left: u128 = get_fibonacci_recursive(num_iter - 1, counter, publish);
        let right: u128 = get_fibonacci_recursive(num_iter - 2, counter, publish);
        left + right
    }
}

} // verus!
