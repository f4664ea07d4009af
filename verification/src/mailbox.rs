//! The single-slot mailbox: a take-once, last-write-wins rendezvous variable.
//!
//! A mailbox holds at most one value. `put` unconditionally overwrites the
//! slot (no queuing), `try_take` atomically reads and clears it, and
//! `peek_is_empty` observes the slot without consuming it. Callers that share
//! a mailbox across tasks wrap it in a mutual-exclusion primitive; every
//! operation here is a bounded critical-section body with no I/O inside.

use vstd::prelude::*;

verus! {

/// A single-slot, take-once container. The slot is `None` when empty.
pub struct Mailbox<T> {
    slot: Option<T>,
}

/// The state a `put` leaves behind: the new value, whatever was there before.
pub open spec fn spec_put<T>(state: Option<T>, value: T) -> Option<T> {
    Some(value)
}

/// The transition of a `try_take`: the new state (always empty) and what the
/// caller receives (the old state).
pub open spec fn spec_take<T>(state: Option<T>) -> (Option<T>, Option<T>) {
    (None, state)
}

impl<T> Mailbox<T> {
    /// What the slot currently holds.
    pub closed spec fn contents(&self) -> Option<T> {
        self.slot
    }

    /// A fresh mailbox is empty.
    pub fn new() -> (m: Self)
        ensures
            m.contents() is None,
    {
        Mailbox { slot: None }
    }

    /// Overwrite the slot with `value`, discarding any unread value.
    /// Last-write-wins; always succeeds.
    pub fn put(&mut self, value: T)
        ensures
            final(self).contents() == spec_put(old(self).contents(), value),
            final(self).contents() == Some(value),
    {
        self.slot = Some(value);
    }

    /// Atomically return the current value and reset the slot to empty;
    /// `None` if the slot was already empty. Never blocks.
    pub fn try_take(&mut self) -> (r: Option<T>)
        ensures
            (final(self).contents(), r) == spec_take(old(self).contents()),
            r == old(self).contents(),
            final(self).contents() is None,
    {
        self.slot.take()
    }

    /// Observe whether the slot is empty without consuming its value.
    pub fn peek_is_empty(&self) -> (r: bool)
        ensures
            r == (self.contents() is None),
    {
        self.slot.is_none()
    }
}

/// Law: after `put(first)` then `put(second)` with no take in between, a
/// `try_take` receives `second` and never `first`.
pub proof fn lemma_last_write_wins<T>(state: Option<T>, first: T, second: T)
    ensures
        spec_take(spec_put(spec_put(state, first), second)).1 == Some(second),
        first != second ==> spec_take(spec_put(spec_put(state, first), second)).1 != Some(first),
{
}

/// Law: a take on an empty mailbox yields nothing and leaves it empty, so
/// repeating it is an idempotent no-op.
pub proof fn lemma_take_on_empty_is_noop<T>(state: Option<T>)
    requires
        state is None,
    ensures
        spec_take(state).1 is None,
        spec_take(state).0 == state,
        spec_take(spec_take(state).0) == spec_take(state),
{
}

/// The results that a run of `n` consecutive takes hands out, starting from
/// `state`, with no put in between.
pub open spec fn spec_take_results<T>(state: Option<T>, n: nat) -> Seq<Option<T>>
    decreases n,
{
    if n == 0 {
        Seq::empty()
    } else {
        seq![spec_take(state).1] + spec_take_results(spec_take(state).0, (n - 1) as nat)
    }
}

/// From an empty mailbox, every one of `n` consecutive takes yields nothing.
pub proof fn lemma_takes_from_empty_all_none<T>(n: nat)
    ensures
        spec_take_results(Option::<T>::None, n).len() == n,
        forall|i: int| 0 <= i < n ==> spec_take_results(Option::<T>::None, n)[i] is None,
    decreases n,
{
    if n > 0 {
        lemma_takes_from_empty_all_none::<T>((n - 1) as nat);
    }
}

/// Law: one `put(value)` followed by `n` takes, serialized by the mailbox's
/// critical section, yields the value to exactly one taker — the first — and
/// nothing to the other `n - 1`.
pub proof fn lemma_exactly_one_taker<T>(value: T, n: nat)
    requires
        n >= 1,
    ensures
        spec_take_results(spec_put(Option::<T>::None, value), n).len() == n,
        spec_take_results(spec_put(Option::<T>::None, value), n)[0] == Some(value),
        forall|i: int|
            1 <= i < n ==> spec_take_results(spec_put(Option::<T>::None, value), n)[i] is None,
{
    lemma_takes_from_empty_all_none::<T>((n - 1) as nat);
    assert forall|i: int|
        1 <= i < n implies spec_take_results(spec_put(Option::<T>::None, value), n)[i]
        is None by {
        assert(spec_take_results(spec_put(Option::<T>::None, value), n)[i]
            == spec_take_results(Option::<T>::None, (n - 1) as nat)[i - 1]);
    }
}

} // verus!
