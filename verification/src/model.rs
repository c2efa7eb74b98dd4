//! The mathematical model of the pool's stack.
//!
//! A pool is a LIFO stack of spare values.  Under the lock every operation is
//! one of two transitions on that stack: a pull removes the top, an attach
//! places a value on top.  The spec functions below are those transitions on
//! a `Seq`, and the proof functions state the laws of the stack discipline:
//! a fresh stack of `n` values serves exactly `n` pulls, a returned value is
//! the next one pulled, values come back out in reverse order of pulling.

use vstd::prelude::*;

verus! {

/// The stack after a value is attached: the value goes on top.
pub open spec fn stack_attach<T>(stack: Seq<T>, value: T) -> Seq<T> {
    stack.push(value)
}

/// The value a successful pull takes: the top of the stack.
pub open spec fn stack_top<T>(stack: Seq<T>) -> T
    recommends
        stack.len() > 0,
{
    stack.last()
}

/// The stack after a successful pull: the top is gone.
pub open spec fn stack_pull<T>(stack: Seq<T>) -> Seq<T>
    recommends
        stack.len() > 0,
{
    stack.drop_last()
}

/// The stack after `k` successful pulls in a row.
pub open spec fn stack_after_pulls<T>(stack: Seq<T>, k: int) -> Seq<T>
    decreases k,
{
    if k <= 0 {
        stack
    } else {
        stack_pull(stack_after_pulls(stack, k - 1))
    }
}

/// A stack of `n` values serves exactly `n` successive pulls: while fewer
/// than `n` pulls have happened another value is still there, and after the
/// `n`-th pull the stack is empty, so the next pull finds nothing.
pub proof fn lemma_drain<T>(stack: Seq<T>, k: int)
    requires
        0 <= k <= stack.len(),
    ensures
        stack_after_pulls(stack, k) == stack.take(stack.len() - k),
        stack_after_pulls(stack, k).len() == stack.len() - k,
        k < stack.len() ==> stack_after_pulls(stack, k).len() > 0,
        k == stack.len() ==> stack_after_pulls(stack, k).len() == 0,
    decreases k,
{
    if k <= 0 {
        assert(stack.take(stack.len() - 0) =~= stack);
    } else {
        lemma_drain(stack, k - 1);
        assert(stack.take(stack.len() - (k - 1)).drop_last() =~= stack.take(
            stack.len() - k,
        ));
    }
}

/// Successive pulls yield the stacked values from the top down: the `k`-th
/// pull (counting from zero) takes the value at distance `k` from the top.
pub proof fn lemma_pull_order<T>(stack: Seq<T>, k: int)
    requires
        0 <= k < stack.len(),
    ensures
        stack_top(stack_after_pulls(stack, k)) == stack[stack.len() - 1 - k],
{
    lemma_drain(stack, k);
}

/// Returning a value makes it immediately available again: after an attach
/// the next pull takes exactly that value and leaves the stack as it was,
/// and the attach grew the stack by exactly one — so a pull followed by a
/// return leaves the stack's length where it began.
pub proof fn lemma_round_trip<T>(stack: Seq<T>, value: T)
    ensures
        stack_top(stack_attach(stack, value)) == value,
        stack_pull(stack_attach(stack, value)) == stack,
        stack_attach(stack, value).len() == stack.len() + 1,
        stack.len() > 0 ==> stack_attach(stack_pull(stack), value).len() == stack.len(),
{
    assert(stack.push(value).drop_last() =~= stack);
}

/// The LIFO law: pull a value `a`, then a value `b`, return `a` first and
/// `b` second, and the next two pulls yield `b` and then `a`, leaving the
/// stack where the two pulls had left it.
pub proof fn lemma_last_in_first_out<T>(stack: Seq<T>)
    requires
        stack.len() >= 2,
    ensures
        ({
            let a = stack_top(stack);
            let b = stack_top(stack_pull(stack));
            let rest = stack_pull(stack_pull(stack));
            let returned = stack_attach(stack_attach(rest, a), b);
            &&& stack_top(returned) == b
            &&& stack_top(stack_pull(returned)) == a
            &&& stack_pull(stack_pull(returned)) == rest
        }),
{
    let a = stack_top(stack);
    let rest = stack_pull(stack_pull(stack));
    lemma_round_trip(stack_attach(rest, a), stack_top(stack_pull(stack)));
    lemma_round_trip(rest, a);
}

} // verus!
