//! Value generators for [`Vec::try_resize_with`](crate::vec::Vec::try_resize_with):
//! a stateful source that is asked for one value per new slot, in increasing
//! slot order. [`gen_seq`] and [`gen_after`] say, at the specification level,
//! which values a generator yields over a run of invocations and where its
//! state ends up, so the contract of `try_resize_with` can pin down how many
//! times the generator was invoked and in which order its values landed.

use vstd::prelude::*;

verus! {

/// A stateful source of values of type `T`. Each call of [`next`](Generator::next)
/// yields [`gen_value`](Generator::gen_value) and steps the state to
/// [`gen_step`](Generator::gen_step), so a run of calls is determined by the
/// starting state.
pub trait Generator<T>: Sized {
    /// The value that the next invocation yields.
    spec fn gen_value(&self) -> T;

    /// The state after the next invocation.
    spec fn gen_step(&self) -> Self;

    /// Yields one value and advances the state.
    fn next(&mut self) -> (r: T)
        ensures
            r == old(self).gen_value(),
            *final(self) == old(self).gen_step(),
    ;
}

/// The state of `g` after `n` invocations.
pub open spec fn gen_after<T, G: Generator<T>>(g: G, n: nat) -> G
    decreases n,
{
    if n == 0 {
        g
    } else {
        gen_after(g.gen_step(), (n - 1) as nat)
    }
}

/// The `n` values that `g` yields over `n` invocations, in invocation order.
pub open spec fn gen_seq<T, G: Generator<T>>(g: G, n: nat) -> Seq<T>
    decreases n,
{
    if n == 0 {
        Seq::empty()
    } else {
        seq![g.gen_value()] + gen_seq(g.gen_step(), (n - 1) as nat)
    }
}

/// A run of `n` invocations yields exactly `n` values.
pub proof fn lemma_gen_seq_len<T, G: Generator<T>>(g: G, n: nat)
    ensures
        gen_seq(g, n).len() == n,
    decreases n,
{
    if n > 0 {
        lemma_gen_seq_len(g.gen_step(), (n - 1) as nat);
    }
}

/// A run of `n + 1` invocations is a run of `n` followed by one more: the
/// last value comes from the state that the first `n` invocations reach.
pub proof fn lemma_gen_unfold_right<T, G: Generator<T>>(g: G, n: nat)
    ensures
        gen_seq(g, n + 1) == gen_seq(g, n).push(gen_after(g, n).gen_value()),
        gen_after(g, n + 1) == gen_after(g, n).gen_step(),
    decreases n,
{
    reveal_with_fuel(gen_seq, 3);
    reveal_with_fuel(gen_after, 3);
    if n == 0 {
        assert(gen_seq(g, 1) =~= gen_seq(g, 0).push(gen_after(g, 0).gen_value()));
    } else {
        lemma_gen_unfold_right(g.gen_step(), (n - 1) as nat);
        assert(gen_seq(g, n + 1) =~= gen_seq(g, n).push(gen_after(g, n).gen_value()));
    }
}

/// Invocations land in increasing slot order: the value in slot `i` of a run
/// is the one yielded by the `i`-th invocation, that is, by the state reached
/// after `i` earlier invocations.
pub proof fn lemma_gen_seq_index<T, G: Generator<T>>(g: G, n: nat, i: int)
    requires
        0 <= i < n,
    ensures
        gen_seq(g, n)[i] == gen_after(g, i as nat).gen_value(),
    decreases i,
{
    reveal_with_fuel(gen_seq, 3);
    reveal_with_fuel(gen_after, 3);
    lemma_gen_seq_len(g, n);
    lemma_gen_seq_len(g.gen_step(), (n - 1) as nat);
    if i > 0 {
        lemma_gen_seq_index(g.gen_step(), (n - 1) as nat, i - 1);
    }
}

/// A generator that counts: it is created at zero and each invocation first
/// increments the count, wrapping at the numeric bound, and then yields it.
#[derive(Clone, Copy, PartialEq, Eq, Structural, Debug)]
pub struct Counter {
    count: u64,
}

impl Counter {
    /// The current count: the value the last invocation yielded, zero before
    /// the first.
    pub closed spec fn spec_count(self) -> u64 {
        self.count
    }

    /// A counter at zero: its first invocation yields one.
    pub fn new() -> (c: Counter)
        ensures
            c.spec_count() == 0,
    {
        Counter { count: 0 }
    }

    /// Reads the current count.
    pub fn count(&self) -> (r: u64)
        ensures
            r == self.spec_count(),
    {
        self.count
    }
}

impl Generator<u64> for Counter {
    closed spec fn gen_value(&self) -> u64 {
        if self.count == u64::MAX {
            0
        } else {
            (self.count + 1) as u64
        }
    }

    closed spec fn gen_step(&self) -> Counter {
        Counter { count: self.gen_value() }
    }

    fn next(&mut self) -> (r: u64) {
        if self.count == u64::MAX {
            self.count = 0;
        } else {
            self.count = self.count + 1;
        }
        self.count
    }
}

/// What one invocation of a [`Counter`] does: below the bound it yields one
/// more than the current count, at the bound it wraps to zero, and the count
/// afterwards is the value it yielded.
pub proof fn lemma_counter_gen(c: Counter)
    ensures
        c.spec_count() < u64::MAX ==> c.gen_value() == c.spec_count() + 1,
        c.spec_count() == u64::MAX ==> c.gen_value() == 0,
        c.gen_step().spec_count() == c.gen_value(),
{
}

} // verus!
