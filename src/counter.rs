//! The in-flight counter: how many accepted requests have not yet finished.

use vstd::prelude::*;

verus! {

/// Counts requests that were accepted and whose task has not completed.
/// The count never goes below zero: a decrement needs an earlier increment.
pub struct InFlightCounter {
    count: usize,
}

impl View for InFlightCounter {
    type V = nat;

    closed spec fn view(&self) -> nat {
        self.count as nat
    }
}

impl InFlightCounter {
    /// A counter at zero.
    pub fn new() -> (r: Self)
        ensures
            r@ == 0,
    {
        InFlightCounter { count: 0 }
    }

    /// Records one more request in flight.
    pub fn increment(&mut self)
        requires
            old(self)@ < usize::MAX,
        ensures
            final(self)@ == old(self)@ + 1,
    {
        self.count = self.count + 1;
    }

    /// Records that one request in flight has completed.
    pub fn decrement(&mut self)
        requires
            old(self)@ > 0,
        ensures
            final(self)@ == old(self)@ - 1,
    {
        self.count = self.count - 1;
    }

    /// The number of requests in flight.
    pub fn read(&self) -> (r: usize)
        ensures
            r == self@,
    {
        self.count
    }
}

/// Number of increments (`true`) in a sequence of counter operations.
pub open spec fn increments(ops: Seq<bool>) -> nat
    decreases ops.len(),
{
    if ops.len() == 0 {
        0
    } else {
        increments(ops.drop_last()) + if ops.last() { 1nat } else { 0nat }
    }
}

/// Number of decrements (`false`) in a sequence of counter operations.
pub open spec fn decrements(ops: Seq<bool>) -> nat
    decreases ops.len(),
{
    if ops.len() == 0 {
        0
    } else {
        decrements(ops.drop_last()) + if ops.last() { 0nat } else { 1nat }
    }
}

/// The counter's value after applying `ops` in order to `start`, each
/// increment adding one and each decrement taking one away.
pub open spec fn value_after(start: int, ops: Seq<bool>) -> int
    decreases ops.len(),
{
    if ops.len() == 0 {
        start
    } else {
        value_after(start, ops.drop_last()) + if ops.last() { 1int } else { -1int }
    }
}

/// Every decrement in `ops` is matched by an increment before it.
pub open spec fn completions_follow_admissions(ops: Seq<bool>) -> bool {
    forall|i: int| 0 <= i <= ops.len() ==> decrements(#[trigger] ops.take(i)) <= increments(ops.take(i))
}

proof fn lemma_value_after(start: int, ops: Seq<bool>)
    ensures
        value_after(start, ops) == start + increments(ops) - decrements(ops),
    decreases ops.len(),
{
    if ops.len() > 0 {
        lemma_value_after(start, ops.drop_last());
    }
}

/// However `n` increments and `n` decrements interleave, as long as each
/// task completes only after it was admitted, the counter ends where it
/// started and no intermediate value is negative.
pub proof fn lemma_counter_balance(start: nat, ops: Seq<bool>)
    requires
        increments(ops) == decrements(ops),
        completions_follow_admissions(ops),
    ensures
        value_after(start as int, ops) == start,
        forall|i: int| 0 <= i <= ops.len() ==> value_after(start as int, #[trigger] ops.take(i)) >= 0,
{
    lemma_value_after(start as int, ops);
    assert forall|i: int| 0 <= i <= ops.len() implies value_after(start as int, #[trigger] ops.take(i)) >= 0 by {
        lemma_value_after(start as int, ops.take(i));
        assert(decrements(ops.take(i)) <= increments(ops.take(i)));
    }
}

} // verus!
